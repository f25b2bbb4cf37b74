use rustos::boot::{Boot, Phase};
use rustos::gdt::{build, init, tss_segment, CODE_SELECTOR, KERNEL_CODE64, TSS_SELECTOR};
use rustos::tss::{self, DOUBLE_FAULT_IST_INDEX, STACK_SIZE};
use x86_64::structures::gdt::Descriptor;

const TSS_BASE: u64 = 0x0000_1234_5678_9abc;

#[test]
fn kernel_code_segment_encoding() {
    assert_eq!(KERNEL_CODE64, 0x00af_9b00_0000_ffff);
    match Descriptor::kernel_code_segment() {
        Descriptor::UserSegment(v) => assert_eq!(v, KERNEL_CODE64),
        Descriptor::SystemSegment(..) => panic!("expected a user segment"),
    }
}

#[test]
fn tss_descriptor_encoding() {
    match tss_segment(TSS_BASE) {
        Descriptor::SystemSegment(low, high) => {
            assert_eq!(low, 0x5600_8978_9abc_0067);
            assert_eq!(high, 0x1234);
        }
        Descriptor::UserSegment(_) => panic!("expected a system segment"),
    }
}

#[test]
fn descriptor_table_layout_and_selectors() {
    let (gdt, selectors) = build(TSS_BASE);
    assert_eq!(
        gdt.as_raw_slice(),
        &[0, 0x00af_9b00_0000_ffff, 0x5600_8978_9abc_0067, 0x1234][..]
    );
    assert_eq!(selectors.code_selector.0, CODE_SELECTOR);
    assert_eq!(selectors.tss_selector.0, TSS_SELECTOR);
    assert_eq!(selectors.code_selector.0, 8);
    assert_eq!(selectors.tss_selector.0, 16);
    assert_eq!(selectors.code_selector.index(), 1);
    assert_eq!(selectors.tss_selector.index(), 2);
}

#[test]
fn task_context_double_fault_slot() {
    let t = tss::build(0x10_0000);
    assert_eq!(STACK_SIZE, 20 * 1024);
    assert_eq!(t.interrupt_stack_table[DOUBLE_FAULT_IST_INDEX as usize], 0x10_0000 + 20 * 1024);
    assert_eq!(t.ist_entry(0), 0x10_5000);
    for i in 1..7u16 {
        assert_eq!(t.ist_entry(i), 0);
    }
    assert_eq!(t.privilege_stack_table, [0, 0, 0]);
    assert_eq!(t.iomap_base, 0x68);
}

#[test]
fn gdt_init_moves_to_descriptors_installed() {
    let mut boot = Boot::new(0x20_0000);
    assert_eq!(boot.phase_now(), Phase::Uninitialized);
    let (gdt, selectors) = init(&mut boot, TSS_BASE);
    assert_eq!(boot.phase_now(), Phase::DescriptorsInstalled);
    assert_eq!(gdt.as_raw_slice().len(), 4);
    assert_eq!(selectors.code_selector.0, 8);
    assert_eq!(boot.task_context_ref().ist_entry(0), 0x20_0000 + 0x5000);
}
