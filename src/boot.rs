//! Boot sequence and the dispatch the CPU performs once it is armed.
//!
//! The task-state structure is built first, then the descriptor table that
//! refers to it, then the dispatch table whose double-fault gate names the
//! task-state structure's populated slot. A fault raised before the last step
//! resets the machine; after it, every fault reaches a handler.

use vstd::prelude::*;
use crate::interrupts::{
    built_entry, DispatchEntry, DispatchTable, BREAKPOINT, DOUBLE_FAULT, IDT_LEN, OPTIONS_MISSING,
    OPTIONS_PRESENT,
};
use crate::tss::{self, fault_stack_top, TaskContext, DOUBLE_FAULT_IST_INDEX, IST_LEN, STACK_SIZE};

verus! {

/// How far the boot sequence has come.
#[derive(Clone, Copy, PartialEq, Eq, Structural, Debug)]
pub enum Phase {
    Uninitialized,
    DescriptorsInstalled,
    Armed,
}

/// A fault as the CPU raises it: its vector, the instruction pointer it
/// pushes, and whether the stack active at that moment can take a frame.
#[derive(Clone, Copy, PartialEq, Eq, Structural, Debug)]
pub struct Fault {
    pub vector: u8,
    pub ip: u64,
    pub stack_ok: bool,
}

/// What becomes of a fault.
#[derive(Clone, Copy, PartialEq, Eq, Structural, Debug)]
pub enum Outcome {
    /// A handler ran and returned; the program continues at `ip`.
    Resumed { handler: u64, ip: u64 },
    /// The diverging handler ran, on the alternate stack `stack` if one was
    /// switched to, and ended in its terminal action.
    Halted { handler: u64, stack: Option<u64> },
    /// No handler could run: the machine resets.
    Reset,
}

/// Whether a gate's handler gets a usable stack.
pub open spec fn gate_stack_ok(g: DispatchEntry, tss: TaskContext, stack_ok: bool) -> bool {
    if g.ist_field() == 0 {
        stack_ok
    } else {
        tss.populated(g.ist_field() - 1)
    }
}

/// The alternate stack a gate switches to, if any.
pub open spec fn gate_stack(g: DispatchEntry, tss: TaskContext) -> Option<u64> {
    if g.ist_field() == 0 {
        None
    } else {
        Some(tss.stack_top(g.ist_field() - 1))
    }
}

/// A double fault: its handler runs if its gate is present and has a stack;
/// otherwise the fault escalates beyond software.
pub open spec fn deliver_double_fault(gates: Seq<DispatchEntry>, tss: TaskContext, stack_ok: bool) -> Outcome {
    let g = gates[DOUBLE_FAULT as int];
    if g.present() && gate_stack_ok(g, tss, stack_ok) {
        Outcome::Halted { handler: g.handler, stack: gate_stack(g, tss) }
    } else {
        Outcome::Reset
    }
}

/// What the CPU does with fault `f`, given whether dispatch is armed, the
/// gates and the task-state structure. A fault whose gate is absent, or whose
/// handler gets no usable stack, becomes a double fault. Only the
/// double-fault handler diverges.
pub open spec fn dispatch(armed: bool, gates: Seq<DispatchEntry>, tss: TaskContext, f: Fault) -> Outcome {
    if !armed {
        Outcome::Reset
    } else if f.vector == DOUBLE_FAULT {
        deliver_double_fault(gates, tss, f.stack_ok)
    } else {
        let g = gates[f.vector as int];
        if g.present() && gate_stack_ok(g, tss, f.stack_ok) {
            Outcome::Resumed { handler: g.handler, ip: f.ip }
        } else {
            deliver_double_fault(gates, tss, f.stack_ok)
        }
    }
}

/// The state of the boot sequence and the structures it has built.
pub struct Boot {
    phase: Phase,
    fault_stack_start: u64,
    tss: TaskContext,
    code_selector: u16,
    breakpoint: u64,
    double_fault: u64,
    idt: Option<DispatchTable>,
}

impl Boot {
    pub closed spec fn phase(&self) -> Phase {
        self.phase
    }

    pub closed spec fn task_context(&self) -> TaskContext {
        self.tss
    }

    /// Top of the double-fault stack.
    pub closed spec fn fault_stack_top(&self) -> int {
        fault_stack_top(self.fault_stack_start)
    }

    /// Code-segment selector the gates use, once descriptors are installed.
    pub closed spec fn code_selector(&self) -> u16 {
        self.code_selector
    }

    /// Handler addresses of the breakpoint and double-fault gates, once armed.
    pub closed spec fn handlers(&self) -> (u64, u64) {
        (self.breakpoint, self.double_fault)
    }

    /// The installed gates; empty until armed.
    pub closed spec fn gates(&self) -> Seq<DispatchEntry> {
        match self.idt {
            Some(t) => t@,
            None => Seq::empty(),
        }
    }

    pub closed spec fn wf(&self) -> bool {
        &&& self.fault_stack_start + STACK_SIZE <= u64::MAX
        &&& self.tss.populated(DOUBLE_FAULT_IST_INDEX as int)
        &&& self.tss.stack_top(DOUBLE_FAULT_IST_INDEX as int) == fault_stack_top(self.fault_stack_start)
        &&& (self.phase == Phase::Armed) == (self.idt is Some)
        &&& (self.phase != Phase::Uninitialized ==> self.code_selector == crate::gdt::CODE_SELECTOR)
        &&& (self.idt matches Some(t) ==> {
            &&& t.wf()
            &&& forall|v: int| 0 <= v < IDT_LEN ==> t@[v] == built_entry(v, self.breakpoint, self.double_fault, self.code_selector)
        })
    }

    /// Whether the dispatch table is installed.
    pub open spec fn armed(&self) -> bool {
        self.phase() == Phase::Armed
    }

    /// What the CPU does with `f` in this state.
    pub open spec fn outcome(&self, f: Fault) -> Outcome {
        dispatch(self.armed(), self.gates(), self.task_context(), f)
    }

    /// Starts the sequence by building the task-state structure for the fault
    /// stack whose lowest address is `fault_stack_start`.
    pub fn new(fault_stack_start: u64) -> (r: Boot)
        requires
            fault_stack_start + STACK_SIZE <= u64::MAX,
        ensures
            r.wf(),
            r.phase() == Phase::Uninitialized,
            r.fault_stack_top() == fault_stack_start + STACK_SIZE,
            r.task_context().stack_top(DOUBLE_FAULT_IST_INDEX as int) == fault_stack_start + STACK_SIZE,
            forall|i: int| 0 <= i < IST_LEN && i != DOUBLE_FAULT_IST_INDEX ==> r.task_context().stack_top(i) == 0,
    {
        Boot {
            phase: Phase::Uninitialized,
            fault_stack_start,
            tss: tss::build(fault_stack_start),
            code_selector: 0,
            breakpoint: 0,
            double_fault: 0,
            idt: None,
        }
    }

    pub fn phase_now(&self) -> (r: Phase)
        ensures
            r == self.phase(),
    {
        self.phase
    }

    /// The task-state structure, to be placed where the descriptor table's
    /// task-state descriptor points.
    pub fn task_context_ref(&self) -> (r: &TaskContext)
        ensures
            *r == self.task_context(),
    {
        &self.tss
    }

    /// Records that the descriptor table is loaded with code selector
    /// `code_selector`.
    pub fn descriptors_installed(&mut self, code_selector: u16)
        requires
            old(self).wf(),
            old(self).phase() == Phase::Uninitialized,
            code_selector == crate::gdt::CODE_SELECTOR,
        ensures
            final(self).wf(),
            final(self).phase() == Phase::DescriptorsInstalled,
            final(self).code_selector() == code_selector,
            final(self).task_context() == old(self).task_context(),
            final(self).fault_stack_top() == old(self).fault_stack_top(),
    {
        self.phase = Phase::DescriptorsInstalled;
        self.code_selector = code_selector;
    }

    /// Builds the dispatch table for the handlers at `breakpoint` and
    /// `double_fault` and records it as installed.
    pub fn arm(&mut self, breakpoint: u64, double_fault: u64)
        requires
            old(self).wf(),
            old(self).phase() == Phase::DescriptorsInstalled,
        ensures
            final(self).wf(),
            final(self).armed(),
            final(self).handlers() == (breakpoint, double_fault),
            final(self).code_selector() == old(self).code_selector(),
            final(self).task_context() == old(self).task_context(),
            final(self).fault_stack_top() == old(self).fault_stack_top(),
            forall|v: int|
                0 <= v < IDT_LEN ==> #[trigger] final(self).gates()[v] == built_entry(
                    v,
                    breakpoint,
                    double_fault,
                    old(self).code_selector(),
                ),
    {
        let table = crate::interrupts::build(breakpoint, double_fault, self.code_selector, &self.tss);
        self.breakpoint = breakpoint;
        self.double_fault = double_fault;
        self.idt = Some(table);
        self.phase = Phase::Armed;
    }

    /// The installed dispatch table, to be loaded into the CPU.
    pub fn dispatch_table(&self) -> (r: &DispatchTable)
        requires
            self.wf(),
            self.armed(),
        ensures
            r.wf(),
            r@ == self.gates(),
    {
        self.idt.as_ref().unwrap()
    }

    /// What the CPU does with fault `f` in this state.
    pub fn raise(&self, f: Fault) -> (r: Outcome)
        requires
            self.wf(),
        ensures
            r == self.outcome(f),
    {
        match &self.idt {
            None => Outcome::Reset,
            Some(t) => {
                if f.vector != DOUBLE_FAULT {
                    let g = t.entry(f.vector);
                    if Self::present(&g) && self.stack_ok(&g, f.stack_ok) {
                        return Outcome::Resumed { handler: g.handler, ip: f.ip };
                    }
                }
                let g = t.entry(DOUBLE_FAULT);
                if Self::present(&g) && self.stack_ok(&g, f.stack_ok) {
                    Outcome::Halted { handler: g.handler, stack: self.stack_of(&g) }
                } else {
                    Outcome::Reset
                }
            }
        }
    }

    fn present(g: &DispatchEntry) -> (r: bool)
        ensures
            r == g.present(),
    {
        (g.options >> 15u16) & 1u16 == 1u16
    }

    fn stack_ok(&self, g: &DispatchEntry, stack_ok: bool) -> (r: bool)
        ensures
            r == gate_stack_ok(*g, self.tss, stack_ok),
    {
        let options: u16 = g.options;
        let ist: u16 = options & 7u16;
        if ist == 0 {
            stack_ok
        } else {
            assert(options & 7u16 <= 7u16) by (bit_vector);
            self.tss.ist_entry(ist - 1) != 0
        }
    }

    fn stack_of(&self, g: &DispatchEntry) -> (r: Option<u64>)
        ensures
            r == gate_stack(*g, self.tss),
    {
        let options: u16 = g.options;
        let ist: u16 = options & 7u16;
        if ist == 0 {
            None
        } else {
            assert(options & 7u16 <= 7u16) by (bit_vector);
            Some(self.tss.ist_entry(ist - 1))
        }
    }
}

/// Once armed, a breakpoint raised on a usable stack runs the breakpoint
/// handler, which returns: the program continues at the pushed instruction
/// pointer.
pub proof fn lemma_breakpoint_resumes(b: Boot, ip: u64)
    requires
        b.wf(),
        b.armed(),
    ensures
        b.outcome(Fault { vector: BREAKPOINT, ip, stack_ok: true }) == (Outcome::Resumed {
            handler: b.handlers().0,
            ip,
        }),
{
    lemma_gates_of_armed(b);
    let g = b.gates()[BREAKPOINT as int];
    assert(g.present() && g.ist_field() == 0);
}

/// Once armed, a double fault, and any fault raised while the current stack
/// cannot take a frame, runs the double-fault handler on the fault stack and
/// ends in its terminal action.
pub proof fn lemma_double_fault_on_fault_stack(b: Boot, f: Fault)
    requires
        b.wf(),
        b.armed(),
        f.vector == DOUBLE_FAULT || !f.stack_ok,
    ensures
        b.outcome(f) == (Outcome::Halted {
            handler: b.handlers().1,
            stack: Some(b.fault_stack_top() as u64),
        }),
{
    lemma_gates_of_armed(b);
    if f.vector != DOUBLE_FAULT {
        let g = b.gates()[f.vector as int];
        if g.present() {
            assert(f.vector == BREAKPOINT);
            assert(g.ist_field() == 0);
        }
    }
}

/// Once armed, no fault resets the machine: each one reaches a handler.
pub proof fn lemma_armed_never_resets(b: Boot, f: Fault)
    requires
        b.wf(),
        b.armed(),
    ensures
        b.outcome(f) != Outcome::Reset,
{
    lemma_gates_of_armed(b);
    if f.vector == DOUBLE_FAULT || !f.stack_ok {
        lemma_double_fault_on_fault_stack(b, f);
    }
}

/// Once armed, the double-fault gate switches to a slot of the task-state
/// structure that holds a stack, and that stack is the fault stack.
pub proof fn lemma_double_fault_slot_populated(b: Boot)
    requires
        b.wf(),
        b.armed(),
    ensures
        b.gates()[DOUBLE_FAULT as int].present(),
        b.gates()[DOUBLE_FAULT as int].ist_field() == DOUBLE_FAULT_IST_INDEX + 1,
        b.task_context().populated(b.gates()[DOUBLE_FAULT as int].ist_field() - 1),
        b.task_context().stack_top(b.gates()[DOUBLE_FAULT as int].ist_field() - 1)
            == b.fault_stack_top(),
{
    lemma_gates_of_armed(b);
}

/// Before the dispatch table is armed, every fault resets the machine.
pub proof fn lemma_reset_before_armed(b: Boot, f: Fault)
    requires
        b.wf(),
        !b.armed(),
    ensures
        b.outcome(f) == Outcome::Reset,
{
}

/// The gates of an armed state, with what their options mean.
proof fn lemma_gates_of_armed(b: Boot)
    requires
        b.wf(),
        b.armed(),
    ensures
        b.gates().len() == IDT_LEN,
        forall|v: int|
            0 <= v < IDT_LEN ==> #[trigger] b.gates()[v] == built_entry(
                v,
                b.handlers().0,
                b.handlers().1,
                b.code_selector(),
            ),
        b.gates()[BREAKPOINT as int].present(),
        b.gates()[BREAKPOINT as int].ist_field() == 0,
        b.gates()[DOUBLE_FAULT as int].present(),
        b.gates()[DOUBLE_FAULT as int].ist_field() == DOUBLE_FAULT_IST_INDEX + 1,
        b.gates()[DOUBLE_FAULT as int].handler == b.handlers().1,
        b.gates()[BREAKPOINT as int].handler == b.handlers().0,
        forall|v: int|
            0 <= v < IDT_LEN && v != BREAKPOINT && v != DOUBLE_FAULT ==> !(
            #[trigger] b.gates()[v]).present(),
        b.task_context().populated(DOUBLE_FAULT_IST_INDEX as int),
        b.task_context().stack_top(DOUBLE_FAULT_IST_INDEX as int) == b.fault_stack_top(),
{
    assert(OPTIONS_PRESENT | 0u16 == OPTIONS_PRESENT) by (bit_vector);
    assert((OPTIONS_PRESENT >> 15u16) & 1u16 == 1u16 && OPTIONS_PRESENT & 7u16 == 0u16) by (bit_vector);
    assert(((OPTIONS_PRESENT | 1u16) >> 15u16) & 1u16 == 1u16 && (OPTIONS_PRESENT | 1u16) & 7u16 == 1u16) by (bit_vector);
    assert((OPTIONS_MISSING >> 15u16) & 1u16 == 0u16) by (bit_vector);
}

} // verus!
