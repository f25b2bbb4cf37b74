use rustos::boot::{Boot, Fault, Outcome, Phase};
use rustos::interrupts::{build, init_idt, DispatchEntry, BREAKPOINT, DOUBLE_FAULT, IDT_LEN};
use rustos::tss;

const BP: u64 = 0xffff_8000_0000_1000;
const DF: u64 = 0xffff_8000_1234_5678;
const STACK: u64 = 0x40_0000;

#[test]
fn gate_options_encoding() {
    let bp = DispatchEntry::interrupt_gate_to(BP, 8, None);
    assert_eq!(bp.options, 0x8e00);
    let df = DispatchEntry::interrupt_gate_to(DF, 8, Some(0));
    assert_eq!(df.options, 0x8e01);
    let df6 = DispatchEntry::interrupt_gate_to(DF, 8, Some(6));
    assert_eq!(df6.options, 0x8e07);
    let m = DispatchEntry::missing();
    assert_eq!(m, DispatchEntry { handler: 0, selector: 0, options: 0x0e00 });
}

#[test]
fn gate_raw_layout() {
    let df = DispatchEntry::interrupt_gate_to(DF, 8, Some(0));
    assert_eq!(df.to_raw(), (0x1234_8e01_0008_5678, 0xffff_8000));
}

#[test]
fn dispatch_table_has_two_gates() {
    let t = tss::build(STACK);
    let idt = build(BP, DF, 8, &t);
    let bp = idt.entry(BREAKPOINT);
    assert_eq!(bp, DispatchEntry { handler: BP, selector: 8, options: 0x8e00 });
    let df = idt.entry(DOUBLE_FAULT);
    assert_eq!(df, DispatchEntry { handler: DF, selector: 8, options: 0x8e01 });
    for v in 0..IDT_LEN {
        let v = v as u8;
        if v != BREAKPOINT && v != DOUBLE_FAULT {
            assert_eq!(idt.entry(v).options & 0x8000, 0);
        }
    }
}

fn armed() -> Boot {
    let mut boot = Boot::new(STACK);
    rustos::init(&mut boot, 0x30_0000, BP, DF);
    boot
}

#[test]
fn init_arms_dispatch() {
    let boot = armed();
    assert_eq!(boot.phase_now(), Phase::Armed);
    assert_eq!(boot.dispatch_table().entry(DOUBLE_FAULT).handler, DF);
    assert_eq!(boot.dispatch_table().entry(BREAKPOINT).selector, 8);
}

#[test]
fn init_idt_after_descriptors() {
    let mut boot = Boot::new(STACK);
    rustos::gdt::init(&mut boot, 0x30_0000);
    init_idt(&mut boot, BP, DF);
    assert_eq!(boot.phase_now(), Phase::Armed);
    assert_eq!(boot.dispatch_table().entry(DOUBLE_FAULT).options, 0x8e01);
}

#[test]
fn breakpoint_resumes_at_pushed_ip() {
    let boot = armed();
    let ip = 0xffff_8000_0000_2345;
    let r = boot.raise(Fault { vector: 3, ip, stack_ok: true });
    assert_eq!(r, Outcome::Resumed { handler: BP, ip });
    assert_ne!(ip, 0);
}

#[test]
fn breakpoint_resumes_for_many_addresses() {
    let boot = armed();
    for ip in [1u64, 0x1000, 0xdead_beef, u64::MAX] {
        assert_eq!(
            boot.raise(Fault { vector: BREAKPOINT, ip, stack_ok: true }),
            Outcome::Resumed { handler: BP, ip }
        );
    }
}

#[test]
fn stack_overflow_reaches_double_fault_on_fault_stack() {
    let boot = armed();
    // a page fault raised by an exhausted stack has no gate of its own
    let r = boot.raise(Fault { vector: 14, ip: 0x1000, stack_ok: false });
    assert_eq!(r, Outcome::Halted { handler: DF, stack: Some(STACK + 20 * 1024) });
}

#[test]
fn double_fault_runs_on_fault_stack() {
    let boot = armed();
    for stack_ok in [true, false] {
        let r = boot.raise(Fault { vector: DOUBLE_FAULT, ip: 0x1000, stack_ok });
        assert_eq!(r, Outcome::Halted { handler: DF, stack: Some(STACK + 0x5000) });
    }
    let r = boot.raise(Fault { vector: BREAKPOINT, ip: 0x1000, stack_ok: false });
    assert_eq!(r, Outcome::Halted { handler: DF, stack: Some(STACK + 0x5000) });
}

#[test]
fn absent_vector_escalates_to_double_fault() {
    let boot = armed();
    for v in [0u8, 6, 13, 14, 255] {
        let r = boot.raise(Fault { vector: v, ip: 0x1000, stack_ok: true });
        assert_eq!(r, Outcome::Halted { handler: DF, stack: Some(STACK + 0x5000) });
    }
}

#[test]
fn fault_before_armed_resets() {
    let mut boot = Boot::new(STACK);
    assert_eq!(boot.raise(Fault { vector: 3, ip: 0x1000, stack_ok: true }), Outcome::Reset);
    rustos::gdt::init(&mut boot, 0x30_0000);
    assert_eq!(boot.raise(Fault { vector: 3, ip: 0x1000, stack_ok: true }), Outcome::Reset);
    assert_eq!(boot.raise(Fault { vector: 8, ip: 0x1000, stack_ok: true }), Outcome::Reset);
}
