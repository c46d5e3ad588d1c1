//! Synchronisation services used by the task layer.
use vstd::prelude::*;
use crate::karnal::KError;

verus! {

/// Prepares the synchronisation manager; nothing to set up yet.
pub fn init_manager() {
}

/// Blocks the caller for `duration_ms`; timed sleep is not supported yet.
pub fn sleep_for(duration_ms: u64) -> (r: Result<(), KError>)
    ensures
        r == Err::<(), KError>(KError::NotSupported),
{
    Err(KError::NotSupported)
}

} // verus!
