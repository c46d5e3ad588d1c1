//! Security mechanisms on loongarch64 (secure boot, the secure monitor, NX,
//! TPM, crypto acceleration), switched and queried through the kernel's
//! security resource.
use vstd::prelude::*;
use crate::resource::{ResourceName, ResourceSession, SessionOutcome, fresh_session};

verus! {

/// The security mechanisms of the platform.
#[derive(Debug, Copy, Clone, PartialEq, Eq, Structural)]
pub enum SecurityMechanism {
    SecureBoot,
    SecureMonitor,
    NxBit,
    Tpm,
    CryptoAccel,
}

/// Why a security request failed.
#[derive(Debug, Copy, Clone, PartialEq, Eq, Structural)]
pub enum SecurityError {
    NotSupported,
    InternalError,
    InvalidOperation,
}

impl SecurityError {
    /// The error's numeric code in the kernel ABI.
    pub fn code(&self) -> (r: i64)
        ensures
            r == match *self {
                SecurityError::NotSupported => -1i64,
                SecurityError::InternalError => -2i64,
                SecurityError::InvalidOperation => -3i64,
            },
    {
        match self {
            SecurityError::NotSupported => -1,
            SecurityError::InternalError => -2,
            SecurityError::InvalidOperation => -3,
        }
    }
}

/// The command that switches `mech` on (`enable`) or off.
pub open spec fn mechanism_command(mech: SecurityMechanism, enable: bool) -> &'static str {
    match mech {
        SecurityMechanism::SecureBoot => if enable { "enable_secureboot" } else { "disable_secureboot" },
        SecurityMechanism::SecureMonitor => if enable { "enable_smon" } else { "disable_smon" },
        SecurityMechanism::NxBit => if enable { "enable_nxbit" } else { "disable_nxbit" },
        SecurityMechanism::Tpm => if enable { "enable_tpm" } else { "disable_tpm" },
        SecurityMechanism::CryptoAccel => if enable { "enable_crypto" } else { "disable_crypto" },
    }
}

/// The command that asks whether `mech` is on.
pub open spec fn mechanism_query(mech: SecurityMechanism) -> &'static str {
    match mech {
        SecurityMechanism::SecureBoot => "query_secureboot",
        SecurityMechanism::SecureMonitor => "query_smon",
        SecurityMechanism::NxBit => "query_nxbit",
        SecurityMechanism::Tpm => "query_tpm",
        SecurityMechanism::CryptoAccel => "query_crypto",
    }
}

/// The result of a finished switch request: `Ok` once the command was
/// written, `InternalError` when a system call failed.
pub open spec fn switch_result(outcome: SessionOutcome) -> Result<(), SecurityError> {
    match outcome {
        SessionOutcome::Done => Ok(()),
        SessionOutcome::Status(_) => Ok(()),
        SessionOutcome::NotSupported => Err(SecurityError::NotSupported),
        SessionOutcome::Failed => Err(SecurityError::InternalError),
    }
}

/// The result of a finished query: the status byte read back (non-zero
/// means on), or `InternalError` when no byte could be read.
pub open spec fn query_result(outcome: SessionOutcome) -> Result<bool, SecurityError> {
    match outcome {
        SessionOutcome::Status(on) => Ok(on),
        SessionOutcome::NotSupported => Err(SecurityError::NotSupported),
        _ => Err(SecurityError::InternalError),
    }
}

/// Maps how a switch request ended to its result.
pub fn finish_switch_request(outcome: SessionOutcome) -> (r: Result<(), SecurityError>)
    ensures
        r == switch_result(outcome),
        (outcome is Done || outcome is Status) <==> r is Ok,
        outcome is NotSupported ==> r == Err::<(), SecurityError>(SecurityError::NotSupported),
        outcome is Failed ==> r == Err::<(), SecurityError>(SecurityError::InternalError),
{
    match outcome {
        SessionOutcome::Done => Ok(()),
        SessionOutcome::Status(_) => Ok(()),
        SessionOutcome::NotSupported => Err(SecurityError::NotSupported),
        SessionOutcome::Failed => Err(SecurityError::InternalError),
    }
}

/// Maps how a query ended to its result.
pub fn finish_query_request(outcome: SessionOutcome) -> (r: Result<bool, SecurityError>)
    ensures
        r == query_result(outcome),
        outcome matches SessionOutcome::Status(on) ==> r == Ok::<bool, SecurityError>(on),
        outcome is NotSupported ==> r == Err::<bool, SecurityError>(SecurityError::NotSupported),
        (outcome is Done || outcome is Failed) ==> r == Err::<bool, SecurityError>(SecurityError::InternalError),
{
    match outcome {
        SessionOutcome::Status(on) => Ok(on),
        SessionOutcome::NotSupported => Err(SecurityError::NotSupported),
        _ => Err(SecurityError::InternalError),
    }
}

/// The security driver.
#[derive(Debug, Copy, Clone)]
pub struct LoongarchSecurityManager;

impl LoongarchSecurityManager {
    /// The request that switches `mech` on (`enable`) or off.
    pub fn set_mechanism(&self, mech: SecurityMechanism, enable: bool) -> (r: ResourceSession)
        ensures
            r == fresh_session(ResourceName::Security, Some(mechanism_command(mech, enable)), false),
    {
        let cmd = match (mech, enable) {
            (SecurityMechanism::SecureBoot, true) => "enable_secureboot",
            (SecurityMechanism::SecureBoot, false) => "disable_secureboot",
            (SecurityMechanism::SecureMonitor, true) => "enable_smon",
            (SecurityMechanism::SecureMonitor, false) => "disable_smon",
            (SecurityMechanism::NxBit, true) => "enable_nxbit",
            (SecurityMechanism::NxBit, false) => "disable_nxbit",
            (SecurityMechanism::Tpm, true) => "enable_tpm",
            (SecurityMechanism::Tpm, false) => "disable_tpm",
            (SecurityMechanism::CryptoAccel, true) => "enable_crypto",
            (SecurityMechanism::CryptoAccel, false) => "disable_crypto",
        };
        ResourceSession::command(ResourceName::Security, Some(cmd))
    }

    /// The request that asks whether `mech` is on.
    pub fn query_mechanism(&self, mech: SecurityMechanism) -> (r: ResourceSession)
        ensures
            r == fresh_session(ResourceName::Security, Some(mechanism_query(mech)), true),
    {
        let cmd = match mech {
            SecurityMechanism::SecureBoot => "query_secureboot",
            SecurityMechanism::SecureMonitor => "query_smon",
            SecurityMechanism::NxBit => "query_nxbit",
            SecurityMechanism::Tpm => "query_tpm",
            SecurityMechanism::CryptoAccel => "query_crypto",
        };
        ResourceSession::query(ResourceName::Security, cmd)
    }
}

/// The request that switches `mech` on.
pub fn enable_security_mechanism(mech: SecurityMechanism) -> (r: ResourceSession)
    ensures
        r == fresh_session(ResourceName::Security, Some(mechanism_command(mech, true)), false),
{
    LoongarchSecurityManager.set_mechanism(mech, true)
}

/// The request that switches `mech` off.
pub fn disable_security_mechanism(mech: SecurityMechanism) -> (r: ResourceSession)
    ensures
        r == fresh_session(ResourceName::Security, Some(mechanism_command(mech, false)), false),
{
    LoongarchSecurityManager.set_mechanism(mech, false)
}

/// The request that asks whether `mech` is on.
pub fn is_security_mechanism_enabled(mech: SecurityMechanism) -> (r: ResourceSession)
    ensures
        r == fresh_session(ResourceName::Security, Some(mechanism_query(mech)), true),
{
    LoongarchSecurityManager.query_mechanism(mech)
}

} // verus!
