//! System-call numbering: the identifiers user tasks pass and the
//! classification of a raw id. The dispatcher that reads user memory and
//! performs the calls lives in the unverified glue and starts from this
//! classification.

use vstd::prelude::*;

verus! {

/// 🔢 The system calls a user task can request.
#[derive(Clone, Copy, PartialEq, Eq, Structural, Debug)]
pub enum SyscallId {
    /// Write a string to the console.
    PrintString,
    /// Terminate the current task.
    Exit,
    /// Create a new task.
    SpawnTask,
    /// Call into the trusted execution environment.
    TrustyCall,
    /// Any unknown id.
    Invalid,
}

/// The value the dispatcher returns for an unknown id.
pub const SYSCALL_ERROR_RETURN: u64 = 0xFFFF_FFFF_FFFF_FFFF;

impl SyscallId {
    /// Which call a raw id names: 1, 2, 3 and 100 are assigned, all
    /// others are invalid.
    pub open spec fn spec_from(id: u64) -> SyscallId {
        if id == 1 {
            SyscallId::PrintString
        } else if id == 2 {
            SyscallId::Exit
        } else if id == 3 {
            SyscallId::SpawnTask
        } else if id == 100 {
            SyscallId::TrustyCall
        } else {
            SyscallId::Invalid
        }
    }

    /// Classifies the raw id a user task passed.
    pub fn from_u64(id: u64) -> (s: SyscallId)
        ensures
            s == SyscallId::spec_from(id),
    {
        match id {
            1 => SyscallId::PrintString,
            2 => SyscallId::Exit,
            3 => SyscallId::SpawnTask,
            100 => SyscallId::TrustyCall,
            _ => SyscallId::Invalid,
        }
    }
}

/// 📝 The arguments of a system call, as passed in registers.
#[derive(Clone, Copy, PartialEq, Eq, Structural, Debug)]
pub struct SyscallArgs {
    pub arg1: u64,
    pub arg2: u64,
    pub arg3: u64,
    pub arg4: u64,
    pub arg5: u64,
    pub arg6: u64,
}

} // verus!
