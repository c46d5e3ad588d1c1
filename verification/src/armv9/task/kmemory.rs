//! Stack memory for tasks.
use vstd::prelude::*;
use crate::karnal::KError;
use crate::armv9::task::StackAllocator;

verus! {

/// The kernel memory service as it stands: it has no stack memory to give.
pub struct KernelStacks;

/// Prepares the memory manager; nothing to set up yet.
pub fn init_manager() {
}

/// A stack of `size` bytes; stack memory is not available yet, so every
/// request fails with `OutOfMemory`.
pub fn allocate_stack(size: usize) -> (r: Result<u64, KError>)
    ensures
        r == Err::<u64, KError>(KError::OutOfMemory),
{
    Err(KError::OutOfMemory)
}

/// Gives a stack back; always succeeds.
pub fn free_stack(ptr: u64, size: usize) -> (r: Result<(), KError>)
    ensures
        r == Ok::<(), KError>(()),
{
    Ok(())
}

impl StackAllocator for KernelStacks {
    open spec fn stack_outcome(&self, size: usize) -> Result<u64, KError> {
        Err(KError::OutOfMemory)
    }

    fn allocate_stack(&mut self, size: usize) -> (r: Result<u64, KError>)
        ensures
            r == Err::<u64, KError>(KError::OutOfMemory),
    {
        allocate_stack(size)
    }

    fn free_stack(&mut self, ptr: u64, size: usize) -> (r: Result<(), KError>)
        ensures
            r == Ok::<(), KError>(()),
    {
        free_stack(ptr, size)
    }
}

} // verus!
