//! TrustZone on armv9, switched and queried through the kernel's security
//! resource.
use vstd::prelude::*;
use crate::resource::{ResourceName, ResourceSession, SessionOutcome, fresh_session};

verus! {

/// The security mechanisms of the platform.
#[derive(Debug, Copy, Clone, PartialEq, Eq, Structural)]
pub enum SecurityMechanism {
    TrustZone,
}

/// Why a security request failed.
#[derive(Debug, Copy, Clone, PartialEq, Eq, Structural)]
pub enum SecurityError {
    NotSupported,
    InternalError,
    InvalidOperation,
}

impl SecurityError {
    /// The error's numeric code in the kernel ABI.
    pub fn code(&self) -> (r: i64)
        ensures
            r == match *self {
                SecurityError::NotSupported => -1i64,
                SecurityError::InternalError => -2i64,
                SecurityError::InvalidOperation => -3i64,
            },
    {
        match self {
            SecurityError::NotSupported => -1,
            SecurityError::InternalError => -2,
            SecurityError::InvalidOperation => -3,
        }
    }
}

/// The command that switches TrustZone on (`enable`) or off.
pub open spec fn trustzone_command(enable: bool) -> &'static str {
    if enable { "enable_trustzone" } else { "disable_trustzone" }
}

/// The result of a finished switch request: `Ok` once the command was
/// written, `InternalError` when a system call failed.
pub open spec fn switch_result(outcome: SessionOutcome) -> Result<(), SecurityError> {
    match outcome {
        SessionOutcome::Done => Ok(()),
        SessionOutcome::Status(_) => Ok(()),
        SessionOutcome::NotSupported => Err(SecurityError::NotSupported),
        SessionOutcome::Failed => Err(SecurityError::InternalError),
    }
}

/// The result of a finished query: the status byte read back (non-zero
/// means on), or `InternalError` when no byte could be read.
pub open spec fn query_result(outcome: SessionOutcome) -> Result<bool, SecurityError> {
    match outcome {
        SessionOutcome::Status(on) => Ok(on),
        SessionOutcome::NotSupported => Err(SecurityError::NotSupported),
        _ => Err(SecurityError::InternalError),
    }
}

/// Maps how a switch request ended to its result.
pub fn finish_switch_request(outcome: SessionOutcome) -> (r: Result<(), SecurityError>)
    ensures
        r == switch_result(outcome),
        (outcome is Done || outcome is Status) <==> r is Ok,
        outcome is NotSupported ==> r == Err::<(), SecurityError>(SecurityError::NotSupported),
        outcome is Failed ==> r == Err::<(), SecurityError>(SecurityError::InternalError),
{
    match outcome {
        SessionOutcome::Done => Ok(()),
        SessionOutcome::Status(_) => Ok(()),
        SessionOutcome::NotSupported => Err(SecurityError::NotSupported),
        SessionOutcome::Failed => Err(SecurityError::InternalError),
    }
}

/// Maps how a query ended to its result.
pub fn finish_query_request(outcome: SessionOutcome) -> (r: Result<bool, SecurityError>)
    ensures
        r == query_result(outcome),
        outcome matches SessionOutcome::Status(on) ==> r == Ok::<bool, SecurityError>(on),
        outcome is NotSupported ==> r == Err::<bool, SecurityError>(SecurityError::NotSupported),
        (outcome is Done || outcome is Failed) ==> r == Err::<bool, SecurityError>(SecurityError::InternalError),
{
    match outcome {
        SessionOutcome::Status(on) => Ok(on),
        SessionOutcome::NotSupported => Err(SecurityError::NotSupported),
        _ => Err(SecurityError::InternalError),
    }
}

/// The security driver.
#[derive(Debug, Copy, Clone)]
pub struct ArmSecurityManager;

impl ArmSecurityManager {
    /// The request that switches TrustZone on (`enable`) or off.
    pub fn set_trustzone(&self, enable: bool) -> (r: ResourceSession)
        ensures
            r == fresh_session(ResourceName::Security, Some(trustzone_command(enable)), false),
    {
        let cmd = if enable { "enable_trustzone" } else { "disable_trustzone" };
        ResourceSession::command(ResourceName::Security, Some(cmd))
    }

    /// The request that asks whether TrustZone is on.
    pub fn is_trustzone_enabled(&self) -> (r: ResourceSession)
        ensures
            r == fresh_session(ResourceName::Security, Some("query_trustzone"), true),
    {
        ResourceSession::query(ResourceName::Security, "query_trustzone")
    }
}

/// The request that switches TrustZone on.
pub fn enable_trustzone() -> (r: ResourceSession)
    ensures
        r == fresh_session(ResourceName::Security, Some(trustzone_command(true)), false),
{
    ArmSecurityManager.set_trustzone(true)
}

/// The request that switches TrustZone off.
pub fn disable_trustzone() -> (r: ResourceSession)
    ensures
        r == fresh_session(ResourceName::Security, Some(trustzone_command(false)), false),
{
    ArmSecurityManager.set_trustzone(false)
}

/// The request that asks whether TrustZone is on.
pub fn is_trustzone_enabled() -> (r: ResourceSession)
    ensures
        r == fresh_session(ResourceName::Security, Some("query_trustzone"), true),
{
    ArmSecurityManager.is_trustzone_enabled()
}

} // verus!
