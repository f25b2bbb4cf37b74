//! Fault-tolerant exception dispatch for a freestanding x86_64 kernel: the
//! descriptor tables, the task-state structure with its double-fault stack,
//! the vector table, the boot sequence that builds and arms them, and the
//! text-grid writer the handlers report through.

use vstd::prelude::*;
use x86_64::structures::gdt::GlobalDescriptorTable;
use crate::boot::{Boot, Phase};
use crate::gdt::{gdt_entries, gdt_layout, Selectors, CODE_SELECTOR, TSS_SELECTOR};
use crate::interrupts::{built_entry, IDT_LEN};

pub mod gdt;
pub mod tss;
pub mod interrupts;
pub mod boot;

verus! {

/// The whole boot sequence, in order: descriptor table for the task-state
/// segment stored at `tss_base`, then the dispatch table for the handlers at
/// `breakpoint` and `double_fault`. The returned descriptor table and
/// selectors are loaded first, then `boot.dispatch_table()`.
pub fn init(boot: &mut Boot, tss_base: u64, breakpoint: u64, double_fault: u64) -> (r: (
    GlobalDescriptorTable,
    Selectors,
))
    requires
        old(boot).wf(),
        old(boot).phase() == Phase::Uninitialized,
    ensures
        gdt_entries(r.0) == gdt_layout(tss_base),
        r.1.code_selector.0 == CODE_SELECTOR,
        r.1.tss_selector.0 == TSS_SELECTOR,
        final(boot).wf(),
        final(boot).armed(),
        final(boot).handlers() == (breakpoint, double_fault),
        final(boot).code_selector() == CODE_SELECTOR,
        final(boot).task_context() == old(boot).task_context(),
        final(boot).fault_stack_top() == old(boot).fault_stack_top(),
        forall|v: int|
            0 <= v < IDT_LEN ==> #[trigger] final(boot).gates()[v] == built_entry(
                v,
                breakpoint,
                double_fault,
                CODE_SELECTOR,
            ),
{
    let r = gdt::init(boot, tss_base);
    interrupts::init_idt(boot, breakpoint, double_fault);
    r
}

/// Exit status a test run reports to the emulator's exit device.
#[derive(Clone, Copy, PartialEq, Eq, Structural, Debug)]
pub enum QemuExitCode {
    Success,
    Failed,
}

impl QemuExitCode {
    pub open spec fn spec_code(self) -> u32 {
        match self {
            QemuExitCode::Success => 0x10,
            QemuExitCode::Failed => 0x11,
        }
    }

    /// The value written to the exit device.
    pub fn code(self) -> (r: u32)
        ensures
            r == self.spec_code(),
    {
        match self {
            QemuExitCode::Success => 0x10,
            QemuExitCode::Failed => 0x11,
        }
    }
}

/// A test case the runner can run; a failing one panics.
pub trait Testable {
    fn run(&self);
}

/// Runs each test in order and gives the exit status of the run: reaching
/// the end means every test returned.
pub fn test_runner<T: Testable>(tests: &[T]) -> (r: QemuExitCode)
    ensures
        r == QemuExitCode::Success,
{
    let mut i: usize = 0;
    while i < tests.len()
        invariant
            i <= tests@.len(),
        decreases tests@.len() - i,
    {
        tests[i].run();
        i = i + 1;
    }
    QemuExitCode::Success
}

} // verus!
pub mod vga_buffer;
