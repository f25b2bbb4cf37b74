//! Global Descriptor Table: one kernel code segment and one task-state
//! segment descriptor, built in that order, with the selectors for both.

use vstd::prelude::*;
use x86_64::structures::gdt::{Descriptor, GlobalDescriptorTable, SegmentSelector};
use crate::boot::{Boot, Phase};

verus! {

/// x86_64's `Descriptor`: a user segment of one word or a system segment
/// of two, both variants public.
#[verifier::external_type_specification]
pub struct ExDescriptor(Descriptor);

/// x86_64's `SegmentSelector`, whose one field is the public selector value.
#[verifier::external_type_specification]
pub struct ExSegmentSelector(SegmentSelector);

/// x86_64's `GlobalDescriptorTable`, held opaque; `gdt_entries` names its slots.
#[verifier::external_type_specification]
#[verifier::external_body]
pub struct ExGlobalDescriptorTable(GlobalDescriptorTable);

/// The 8-byte slots of a descriptor table in use, the null slot included:
/// what `GlobalDescriptorTable::as_raw_slice` returns.
pub uninterp spec fn gdt_entries(g: GlobalDescriptorTable) -> Seq<u64>;

/// Number of 8-byte slots a descriptor table can hold.
pub const GDT_CAPACITY: usize = 8;

/// Encoding of a flat 64-bit kernel code segment.
pub const KERNEL_CODE64: u64 = 0x00af9b000000ffff;

/// Size in bytes of the hardware task-state segment.
pub const TSS_SIZE: u64 = 0x68;

/// Relies on `GlobalDescriptorTable::new`: a table holding only the null slot.
pub assume_specification[ GlobalDescriptorTable::new ]() -> (r: GlobalDescriptorTable)
    ensures
        gdt_entries(r) == seq![0u64],
;

/// Relies on `Descriptor::kernel_code_segment`: a user segment with the
/// 64-bit kernel code flags.
pub assume_specification[ Descriptor::kernel_code_segment ]() -> (r: Descriptor)
    ensures
        r == Descriptor::UserSegment(KERNEL_CODE64),
;

/// The slots a descriptor occupies: one for a user segment, two for a system segment.
pub open spec fn descriptor_words(d: Descriptor) -> Seq<u64> {
    match d {
        Descriptor::UserSegment(v) => seq![v],
        Descriptor::SystemSegment(lo, hi) => seq![lo, hi],
    }
}

/// The privilege level stored in bits 45..47 of a descriptor's first word.
pub open spec fn descriptor_dpl(d: Descriptor) -> u16 {
    match d {
        Descriptor::UserSegment(v) => ((v >> 45u64) & 3u64) as u16,
        Descriptor::SystemSegment(v, _) => ((v >> 45u64) & 3u64) as u16,
    }
}

/// The value of a selector for a table slot and a requested privilege level.
pub open spec fn selector_value(index: nat, rpl: u16) -> u16 {
    (((index as u16) << 3u16) | rpl) as u16
}

/// Relies on `GlobalDescriptorTable::add_entry`: the descriptor's words are
/// appended, and the selector names the first of them with the descriptor's
/// privilege level. It panics when the table has no room, hence the `requires`.
#[verifier::external_body]
fn add_entry(gdt: &mut GlobalDescriptorTable, entry: Descriptor) -> (r: SegmentSelector)
    requires
        gdt_entries(*old(gdt)).len() + descriptor_words(entry).len() <= GDT_CAPACITY,
    ensures
        gdt_entries(*final(gdt)) == gdt_entries(*old(gdt)) + descriptor_words(entry),
        r.0 == selector_value(gdt_entries(*old(gdt)).len(), descriptor_dpl(entry)),
{
    gdt.add_entry(entry)
}

/// First word of an available 64-bit task-state segment descriptor whose
/// base is `base`: present bit, base bits 0..24 at 16, base bits 24..32 at
/// 56, limit `TSS_SIZE - 1`, type 0b1001 at bit 40.
pub open spec fn tss_low(base: u64) -> u64 {
    (1u64 << 47u64) | ((base & 0xff_ffffu64) << 16u64) | (((base >> 24u64) & 0xffu64) << 56u64)
        | ((TSS_SIZE - 1) as u64) | (0b1001u64 << 40u64)
}

/// Second word of the same descriptor: base bits 32..64.
pub open spec fn tss_high(base: u64) -> u64 {
    base >> 32u64
}

/// Descriptor for the task-state segment stored at address `base`.
pub fn tss_segment(base: u64) -> (r: Descriptor)
    ensures
        r == Descriptor::SystemSegment(tss_low(base), tss_high(base)),
        descriptor_dpl(r) == 0,
{
    let low: u64 = (1u64 << 47u64) | ((base & 0xff_ffffu64) << 16u64) | (((base >> 24u64) & 0xffu64)
        << 56u64) | (TSS_SIZE - 1) | (0b1001u64 << 40u64);
    let high: u64 = base >> 32u64;
    assert(((low >> 45u64) & 3u64) == 0) by (bit_vector)
        requires
            low == (1u64 << 47u64) | ((base & 0xff_ffffu64) << 16u64) | (((base >> 24u64) & 0xffu64)
                << 56u64) | (0x67u64) | (0b1001u64 << 40u64),
    ;
    Descriptor::SystemSegment(low, high)
}

/// Selectors for the two segments of the table.
pub struct Selectors {
    pub code_selector: SegmentSelector,
    pub tss_selector: SegmentSelector,
}

/// Selector value of the kernel code segment: slot 1, ring 0.
pub const CODE_SELECTOR: u16 = 8;

/// Selector value of the task-state segment: slot 2, ring 0.
pub const TSS_SELECTOR: u16 = 16;

/// The slots of the table that `build(base)` returns.
pub open spec fn gdt_layout(tss_base: u64) -> Seq<u64> {
    seq![0u64, KERNEL_CODE64, tss_low(tss_base), tss_high(tss_base)]
}

/// Builds the descriptor table: the null slot, the kernel code segment,
/// then the task-state segment stored at `tss_base`.
pub fn build(tss_base: u64) -> (r: (GlobalDescriptorTable, Selectors))
    ensures
        gdt_entries(r.0) == gdt_layout(tss_base),
        r.1.code_selector.0 == CODE_SELECTOR,
        r.1.tss_selector.0 == TSS_SELECTOR,
{
    let mut gdt = GlobalDescriptorTable::new();
    let code = Descriptor::kernel_code_segment();
    assert(((KERNEL_CODE64 >> 45u64) & 3u64) == 0) by (bit_vector);
    let code_selector = add_entry(&mut gdt, code);
    let tss_selector = add_entry(&mut gdt, tss_segment(tss_base));
    assert((1u16 << 3u16) | 0u16 == 8u16) by (bit_vector);
    assert((2u16 << 3u16) | 0u16 == 16u16) by (bit_vector);
    assert(gdt_entries(gdt) =~= gdt_layout(tss_base));
    (gdt, Selectors { code_selector, tss_selector })
}

/// First step of the boot sequence after the task-state structure: builds
/// the descriptor table for the task-state segment stored at `tss_base` and
/// records it as installed. The caller loads the table, then reloads the
/// code-segment register with `code_selector` and the task register with
/// `tss_selector`, before anything else runs.
pub fn init(boot: &mut Boot, tss_base: u64) -> (r: (GlobalDescriptorTable, Selectors))
    requires
        old(boot).wf(),
        old(boot).phase() == Phase::Uninitialized,
    ensures
        gdt_entries(r.0) == gdt_layout(tss_base),
        r.1.code_selector.0 == CODE_SELECTOR,
        r.1.tss_selector.0 == TSS_SELECTOR,
        final(boot).wf(),
        final(boot).phase() == Phase::DescriptorsInstalled,
        final(boot).code_selector() == CODE_SELECTOR,
        final(boot).task_context() == old(boot).task_context(),
        final(boot).fault_stack_top() == old(boot).fault_stack_top(),
{
    let (gdt, selectors) = build(tss_base);
    boot.descriptors_installed(selectors.code_selector.0);
    (gdt, selectors)
}

} // verus!
