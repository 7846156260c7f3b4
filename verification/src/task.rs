//! Tasks: an execution unit bundling a saved register snapshot, a dedicated
//! stack, an owned collection of virtual memory areas, and the physical
//! address of its private top-level page table.

use vstd::prelude::*;

verus! {

use crate::context::{TaskContext, INITIAL_RFLAGS};
use crate::vma::VMA_Manager;

/// Unique numeric identifier of a task. Id 0 names the kernel's own
/// initial thread of execution.
#[derive(Clone, Copy, PartialEq, Eq, Structural, Debug)]
pub struct TaskId(pub u64);

/// Bytes in a task's dedicated stack.
pub const TASK_STACK_SIZE: usize = 16384;

/// 🧵 An execution unit owned by the scheduler.
pub struct Task {
    pub id: TaskId,
    pub context: TaskContext,
    /// Physical address of the task's private top-level page table.
    pub cr3_phys_addr: u64,
    pub vma_manager: VMA_Manager,
    pub stack: Vec<u8>,
}

/// Relies on `<[u8]>::as_ptr_range` (std): the one-past-the-end address
/// of the task's stack buffer, where its stack pointer starts. The
/// address depends on the allocator, so nothing is promised of the value.
#[verifier::external_body]
fn stack_top_address(stack: &Vec<u8>) -> u64 {
    stack.as_ptr_range().end as u64
}

impl Task {
    pub open spec fn wf(&self) -> bool {
        self.vma_manager.wf()
    }

    /// 🏭 Spawn-time construction: allocates the dedicated stack, points
    /// the initial stack pointer at its top and pre-loads the entry
    /// address, so the restore primitive cannot tell this never-run task
    /// from a previously preempted one.
    pub fn new(id: TaskId, entry_point: u64, page_table_root: u64) -> (t: Task)
        ensures
            t.wf(),
            t.id == id,
            t.cr3_phys_addr == page_table_root,
            t.context.r15 == entry_point,
            t.context.rflags == INITIAL_RFLAGS,
            t.context.rbx == 0 && t.context.rbp == 0 && t.context.r12 == 0 && t.context.r13 == 0
                && t.context.r14 == 0,
            t.vma_manager@.len() == 0,
            t.stack@.len() == TASK_STACK_SIZE,
    {
        let mut stack: Vec<u8> = Vec::new();
        while stack.len() < TASK_STACK_SIZE
            invariant
                stack@.len() <= TASK_STACK_SIZE,
            decreases TASK_STACK_SIZE - stack@.len(),
        {
            stack.push(0u8);
        }
        let stack_top = stack_top_address(&stack);
        Task {
            id,
            context: TaskContext::new(stack_top, entry_point),
            cr3_phys_addr: page_table_root,
            vma_manager: VMA_Manager::new(),
            stack,
        }
    }
}

} // verus!
