//! Task-state structure: the alternate-stack table whose double-fault slot
//! points at the top of the statically reserved fault stack.

use vstd::prelude::*;

verus! {

/// Slot of the alternate-stack table that holds the double-fault stack.
pub const DOUBLE_FAULT_IST_INDEX: u16 = 0;

/// Size in bytes of the double-fault stack. It has no guard page below it.
pub const STACK_SIZE: u64 = 4096 * 5;

/// Number of slots of the alternate-stack table.
pub const IST_LEN: usize = 7;

/// The fields of the 64-bit task-state segment that software sets.
pub struct TaskContext {
    /// Stack pointers loaded on a change to privilege levels 0 to 2.
    pub privilege_stack_table: [u64; 3],
    /// Stack tops the CPU may switch to when dispatching a vector.
    pub interrupt_stack_table: [u64; 7],
    /// Offset of the I/O permission bitmap from the segment base.
    pub iomap_base: u16,
}

impl TaskContext {
    /// Whether slot `index` of the alternate-stack table holds a stack.
    pub open spec fn populated(&self, index: int) -> bool {
        0 <= index < IST_LEN && self.interrupt_stack_table@[index] != 0
    }

    /// The stack top held in slot `index`.
    pub open spec fn stack_top(&self, index: int) -> u64 {
        self.interrupt_stack_table@[index]
    }

    /// Stack top of the alternate-stack slot `index`.
    pub fn ist_entry(&self, index: u16) -> (r: u64)
        requires
            index < IST_LEN,
        ensures
            r == self.stack_top(index as int),
    {
        self.interrupt_stack_table[index as usize]
    }
}

/// Top of the fault stack whose lowest address is `stack_start`.
pub open spec fn fault_stack_top(stack_start: u64) -> int {
    stack_start + STACK_SIZE
}

/// Builds the task-state structure for a fault stack that starts at
/// `stack_start`: the double-fault slot holds the stack's top, every other
/// slot is empty, and the I/O bitmap lies past the segment's limit.
pub fn build(stack_start: u64) -> (r: TaskContext)
    requires
        stack_start + STACK_SIZE <= u64::MAX,
    ensures
        r.stack_top(DOUBLE_FAULT_IST_INDEX as int) == fault_stack_top(stack_start),
        r.populated(DOUBLE_FAULT_IST_INDEX as int),
        forall|i: int| 0 <= i < IST_LEN && i != DOUBLE_FAULT_IST_INDEX ==> r.stack_top(i) == 0,
        r.privilege_stack_table@ == seq![0u64, 0u64, 0u64],
        r.iomap_base == crate::gdt::TSS_SIZE,
{
    let stack_end: u64 = stack_start + STACK_SIZE;
    TaskContext {
        privilege_stack_table: [0, 0, 0],
        interrupt_stack_table: [stack_end, 0, 0, 0, 0, 0, 0],
        iomap_base: crate::gdt::TSS_SIZE as u16,
    }
}

} // verus!
