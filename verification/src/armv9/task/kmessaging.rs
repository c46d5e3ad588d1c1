//! Message passing between tasks.
use vstd::prelude::*;
use crate::karnal::KError;

verus! {

/// Prepares the messaging manager; nothing to set up yet.
pub fn init_manager() {
}

/// Sends `buffer_len` bytes at `buffer_ptr` to `target_handle`; not
/// supported yet.
pub fn send(target_handle: u64, buffer_ptr: u64, buffer_len: usize) -> (r: Result<(), KError>)
    ensures
        r == Err::<(), KError>(KError::NotSupported),
{
    Err(KError::NotSupported)
}

/// Receives a message into the buffer; no message is ever waiting yet.
pub fn receive(buffer_ptr: u64, buffer_len: usize) -> (r: Result<usize, KError>)
    ensures
        r == Err::<usize, KError>(KError::NoMessage),
{
    Err(KError::NoMessage)
}

} // verus!
