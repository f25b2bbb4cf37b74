//! Exception dispatch table: 256 gates indexed by vector, of which only the
//! breakpoint and the double-fault gates are present.

use vstd::prelude::*;
use crate::boot::{Boot, Phase};
use crate::tss::{TaskContext, DOUBLE_FAULT_IST_INDEX, IST_LEN};

verus! {

/// Number of vectors of the table.
pub const IDT_LEN: usize = 256;

/// Vector of the breakpoint trap.
pub const BREAKPOINT: u8 = 3;

/// Vector of the double fault.
pub const DOUBLE_FAULT: u8 = 8;

/// Options of a gate that is not present: interrupt-gate type bits only.
pub const OPTIONS_MISSING: u16 = 0x0e00;

/// Options of a present ring-0 interrupt gate that keeps the current stack.
pub const OPTIONS_PRESENT: u16 = 0x8e00;

/// One gate of the table, in the fields the hardware reads: handler
/// address, code-segment selector, and the options word (bits 0..3 the
/// alternate-stack field, bit 8 clear for an interrupt gate, bits 9..12 the
/// gate type, bits 13..15 the privilege level, bit 15 the present flag).
#[derive(Clone, Copy, PartialEq, Eq, Structural, Debug)]
pub struct DispatchEntry {
    pub handler: u64,
    pub selector: u16,
    pub options: u16,
}

impl DispatchEntry {
    /// Whether the hardware treats the entry as present.
    pub open spec fn present(&self) -> bool {
        (self.options >> 15u16) & 1u16 == 1u16
    }

    /// The 3-bit alternate-stack field: 0 keeps the current stack, k switches
    /// to slot k - 1 of the alternate-stack table.
    pub open spec fn ist_field(&self) -> u16 {
        self.options & 7u16
    }

    /// Whether the entry masks further interrupts while its handler runs.
    pub open spec fn interrupt_gate(&self) -> bool {
        (self.options >> 8u16) & 0x1fu16 == 0x0eu16
    }

    /// The entry's privilege level.
    pub open spec fn dpl(&self) -> u16 {
        (self.options >> 13u16) & 3u16
    }

    /// A gate that is not present.
    pub fn missing() -> (r: DispatchEntry)
        ensures
            r == (DispatchEntry { handler: 0, selector: 0, options: OPTIONS_MISSING }),
            !r.present(),
    {
        assert((OPTIONS_MISSING >> 15u16) & 1u16 == 0u16) by (bit_vector);
        DispatchEntry { handler: 0, selector: 0, options: OPTIONS_MISSING }
    }

    /// A present ring-0 interrupt gate to `handler` through `selector`, that
    /// switches to alternate-stack slot `stack_index` when one is given.
    pub fn interrupt_gate_to(handler: u64, selector: u16, stack_index: Option<u16>) -> (r:
        DispatchEntry)
        requires
            stack_index matches Some(i) ==> i < IST_LEN,
        ensures
            r.handler == handler,
            r.selector == selector,
            r.present(),
            r.interrupt_gate(),
            r.dpl() == 0,
            r.ist_field() == match stack_index {
                Some(i) => (i + 1) as u16,
                None => 0u16,
            },
            r.options == OPTIONS_PRESENT | r.ist_field(),
    {
        let ist: u16 = match stack_index {
            Some(i) => i + 1,
            None => 0,
        };
        let options: u16 = OPTIONS_PRESENT | ist;
        assert(ist < 8 ==> (options == (0x8e00u16 | ist) ==> ((options >> 15u16) & 1u16 == 1u16
            && options & 7u16 == ist && (options >> 8u16) & 0x1fu16 == 0x0eu16 && (options
            >> 13u16) & 3u16 == 0u16))) by (bit_vector);
        DispatchEntry { handler, selector, options }
    }

    /// The two 8-byte words of the entry as the hardware lays it out: address
    /// bits 0..16, selector, options and address bits 16..32 in the first;
    /// address bits 32..64 in the second.
    pub fn to_raw(&self) -> (r: (u64, u64))
        ensures
            r.0 == (self.handler & 0xffffu64) | ((self.selector as u64) << 16u64) | ((
            self.options as u64) << 32u64) | (((self.handler >> 16u64) & 0xffffu64) << 48u64),
            r.1 == self.handler >> 32u64,
    {
        let low: u64 = (self.handler & 0xffffu64) | ((self.selector as u64) << 16u64) | ((
        self.options as u64) << 32u64) | (((self.handler >> 16u64) & 0xffffu64) << 48u64);
        (low, self.handler >> 32u64)
    }
}

/// The dispatch table, one gate per vector.
pub struct DispatchTable {
    entries: Vec<DispatchEntry>,
}

impl View for DispatchTable {
    type V = Seq<DispatchEntry>;

    closed spec fn view(&self) -> Seq<DispatchEntry> {
        self.entries@
    }
}

/// The gates of a table built with `build`, by vector.
pub open spec fn built_entry(
    vector: int,
    breakpoint: u64,
    double_fault: u64,
    selector: u16,
) -> DispatchEntry {
    if vector == BREAKPOINT {
        DispatchEntry { handler: breakpoint, selector, options: OPTIONS_PRESENT }
    } else if vector == DOUBLE_FAULT {
        DispatchEntry {
            handler: double_fault,
            selector,
            options: OPTIONS_PRESENT | ((DOUBLE_FAULT_IST_INDEX + 1) as u16),
        }
    } else {
        DispatchEntry { handler: 0, selector: 0, options: OPTIONS_MISSING }
    }
}

impl DispatchTable {
    /// Every vector has a gate.
    pub open spec fn wf(&self) -> bool {
        self@.len() == IDT_LEN
    }

    /// The entry for `vector`.
    pub fn entry(&self, vector: u8) -> (r: DispatchEntry)
        requires
            self.wf(),
        ensures
            r == self@[vector as int],
    {
        self.entries[vector as usize]
    }
}

/// Builds the dispatch table: the breakpoint vector goes to `breakpoint`
/// on the interrupted stack, the double-fault vector goes to `double_fault`
/// on the alternate stack of the double-fault slot, every other vector is
/// absent. Both gates use the code segment `selector`. The double-fault slot
/// of `tss` must already hold a stack: a gate naming an empty slot would turn
/// the next double fault into a machine reset.
pub fn build(breakpoint: u64, double_fault: u64, selector: u16, tss: &TaskContext) -> (r:
    DispatchTable)
    requires
        tss.populated(DOUBLE_FAULT_IST_INDEX as int),
    ensures
        r.wf(),
        forall|v: int| 0 <= v < IDT_LEN ==> r@[v] == built_entry(v, breakpoint, double_fault, selector),
        r@[BREAKPOINT as int].present(),
        r@[BREAKPOINT as int].ist_field() == 0,
        r@[DOUBLE_FAULT as int].present(),
        r@[DOUBLE_FAULT as int].ist_field() == DOUBLE_FAULT_IST_INDEX + 1,
        tss.populated(r@[DOUBLE_FAULT as int].ist_field() - 1),
        forall|v: int|
            0 <= v < IDT_LEN && v != BREAKPOINT && v != DOUBLE_FAULT ==> !(#[trigger] r@[v]).present(),
{
    let mut entries: Vec<DispatchEntry> = Vec::new();
    let mut i: usize = 0;
    while i < IDT_LEN
        invariant
            i <= IDT_LEN,
            entries@.len() == i,
            forall|k: int| 0 <= k < i ==> entries@[k] == (DispatchEntry { handler: 0, selector: 0, options: OPTIONS_MISSING }),
        decreases IDT_LEN - i,
    {
        entries.push(DispatchEntry::missing());
        i = i + 1;
    }
    let bp = DispatchEntry::interrupt_gate_to(breakpoint, selector, None);
    let df = DispatchEntry::interrupt_gate_to(double_fault, selector, Some(DOUBLE_FAULT_IST_INDEX));
    entries.set(BREAKPOINT as usize, bp);
    entries.set(DOUBLE_FAULT as usize, df);
    let r = DispatchTable { entries };
    assert forall|v: int| 0 <= v < IDT_LEN implies r@[v] == built_entry(v, breakpoint, double_fault, selector) by {
        assert(OPTIONS_PRESENT | 0u16 == OPTIONS_PRESENT) by (bit_vector);
    }
    assert((OPTIONS_MISSING >> 15u16) & 1u16 == 0u16) by (bit_vector);
    r
}

/// Last step of the boot sequence: builds the dispatch table for the
/// handlers at `breakpoint` and `double_fault` and records it as installed.
/// The caller loads `boot.dispatch_table()` before enabling interrupts.
pub fn init_idt(boot: &mut Boot, breakpoint: u64, double_fault: u64)
    requires
        old(boot).wf(),
        old(boot).phase() == Phase::DescriptorsInstalled,
    ensures
        final(boot).wf(),
        final(boot).armed(),
        final(boot).handlers() == (breakpoint, double_fault),
        final(boot).code_selector() == old(boot).code_selector(),
        final(boot).task_context() == old(boot).task_context(),
        final(boot).fault_stack_top() == old(boot).fault_stack_top(),
        forall|v: int|
            0 <= v < IDT_LEN ==> #[trigger] final(boot).gates()[v] == built_entry(
                v,
                breakpoint,
                double_fault,
                old(boot).code_selector(),
            ),
{
    boot.arm(breakpoint, double_fault);
}

} // verus!
