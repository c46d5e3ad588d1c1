//! Kernel-wide types of the Karnal64 system-call interface: errors,
//! resource access modes, seek positions and resource status.
use vstd::prelude::*;

verus! {

/// Errors returned to user space by the kernel API.
#[derive(Debug, Copy, Clone, PartialEq, Eq, Structural)]
pub enum KError {
    PermissionDenied,
    NotFound,
    InvalidArgument,
    Interrupted,
    BadHandle,
    Busy,
    OutOfMemory,
    BadAddress,
    AlreadyExists,
    NotSupported,
    NoMessage,
    InternalError,
}

/// The negative code of `e` in the system-call ABI.
pub open spec fn error_code(e: KError) -> i64 {
    match e {
        KError::PermissionDenied => -1i64,
        KError::NotFound => -2i64,
        KError::InvalidArgument => -3i64,
        KError::Interrupted => -4i64,
        KError::BadHandle => -9i64,
        KError::Busy => -11i64,
        KError::OutOfMemory => -12i64,
        KError::BadAddress => -14i64,
        KError::AlreadyExists => -17i64,
        KError::NotSupported => -38i64,
        KError::NoMessage => -61i64,
        KError::InternalError => -255i64,
    }
}

impl KError {
    /// The negative code handed back through the system-call return register.
    pub fn code(&self) -> (r: i64)
        ensures
            r == error_code(*self),
    {
        match *self {
            KError::PermissionDenied => -1,
            KError::NotFound => -2,
            KError::InvalidArgument => -3,
            KError::Interrupted => -4,
            KError::BadHandle => -9,
            KError::Busy => -11,
            KError::OutOfMemory => -12,
            KError::BadAddress => -14,
            KError::AlreadyExists => -17,
            KError::NotSupported => -38,
            KError::NoMessage => -61,
            KError::InternalError => -255,
        }
    }
}

/// Access mode bit: the resource may be read.
pub const MODE_READ: u32 = 1;
/// Access mode bit: the resource may be written.
pub const MODE_WRITE: u32 = 2;

/// The state of a resource.
#[derive(Debug, Copy, Clone, PartialEq, Eq, Structural)]
pub enum KResourceStatus {
    Ready,
    NotReady,
}

/// A position to seek a resource to.
#[derive(Debug, Copy, Clone, PartialEq, Eq, Structural)]
pub enum KseekFrom {
    /// That many bytes from the start.
    Start(u64),
    /// That many bytes from the current position.
    Current(i64),
    /// That many bytes from the end.
    End(i64),
}

} // verus!
