//! Validation of the kernel heap configuration. The allocator itself is
//! an outside collaborator that the unverified glue initialises with a
//! configuration this module has accepted.

use vstd::prelude::*;

verus! {

/// Errors of the kernel heap initialisation.
#[derive(Clone, Copy, PartialEq, Eq, Structural, Debug)]
pub enum HeapError {
    /// The heap was initialised before.
    AlreadyInitialized,
    /// The configured heap is too small to be usable.
    InsufficientSize,
}

/// The smallest workable kernel heap, in bytes.
pub const MIN_HEAP_SIZE: usize = 1024;

/// ✅ Accepts a heap configuration exactly when the size reaches the
/// minimum; the glue hands an accepted range to the heap allocator.
pub fn check_heap_config(heap_size: usize) -> (r: Result<(), HeapError>)
    ensures
        match r {
            Result::Ok(()) => heap_size >= MIN_HEAP_SIZE,
            Result::Err(e) => e == HeapError::InsufficientSize && heap_size < MIN_HEAP_SIZE,
        },
{
    if heap_size < MIN_HEAP_SIZE {
        Err(HeapError::InsufficientSize)
    } else {
        Ok(())
    }
}

} // verus!
