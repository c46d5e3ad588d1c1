//! Resource-manager hooks used by the task layer.
use vstd::prelude::*;

verus! {

/// Access mode: read.
pub const MODE_READ: u32 = 1;

/// Prepares the resource manager; nothing to set up yet.
pub fn init_manager() {
}

} // verus!
