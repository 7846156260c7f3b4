//! The saved execution context of a task: the callee-preserved registers,
//! the flags register and the stack pointer, captured and restored verbatim
//! by the low-level switch primitive.

use vstd::prelude::*;

verus! {

/// The flags-register value a new task starts with: the always-set bit
/// plus the interrupt-enable bit.
pub const INITIAL_RFLAGS: u64 = 0x202;

/// 🧠 A register snapshot, in the order the switch primitive saves and
/// restores the registers.
#[derive(Clone, Copy, PartialEq, Eq, Structural, Debug)]
pub struct TaskContext {
    pub rflags: u64,
    pub rbx: u64,
    pub rbp: u64,
    pub r12: u64,
    pub r13: u64,
    pub r14: u64,
    pub r15: u64,
    /// Stack pointer; restored last.
    pub rsp: u64,
}

impl Default for TaskContext {
    /// An all-zero snapshot.
    fn default() -> (c: Self)
        ensures
            c == (TaskContext { rflags: 0, rbx: 0, rbp: 0, r12: 0, r13: 0, r14: 0, r15: 0, rsp: 0 }),
    {
        TaskContext { rflags: 0, rbx: 0, rbp: 0, r12: 0, r13: 0, r14: 0, r15: 0, rsp: 0 }
    }
}

impl TaskContext {
    /// 🏭 The initial context of a new task, shaped exactly like a context
    /// saved by the preemption path: the stack pointer points at the top
    /// of the task's stack, the entry address waits in `r15` for the
    /// restore path to jump to, and interrupts are enabled.
    pub fn new(stack_top: u64, entry_point_addr: u64) -> (c: Self)
        ensures
            c == (TaskContext {
                rflags: INITIAL_RFLAGS,
                rbx: 0,
                rbp: 0,
                r12: 0,
                r13: 0,
                r14: 0,
                r15: entry_point_addr,
                rsp: stack_top,
            }),
    {
        TaskContext {
            rflags: INITIAL_RFLAGS,
            rbx: 0,
            rbp: 0,
            r12: 0,
            r13: 0,
            r14: 0,
            r15: entry_point_addr,
            rsp: stack_top,
        }
    }
}

} // verus!
