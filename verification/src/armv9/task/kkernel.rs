//! Kernel information queries.
use vstd::prelude::*;
use crate::karnal::KError;

verus! {

/// Prepares the kernel information service; nothing to set up yet.
pub fn init_manager() {
}

/// Answers an information request; no request is supported yet.
pub fn get_info(request: u32) -> (r: Result<u64, KError>)
    ensures
        r == Err::<u64, KError>(KError::NotSupported),
{
    Err(KError::NotSupported)
}

} // verus!
