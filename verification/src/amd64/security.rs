//! Processor security features on amd64 (VT-x, AMD-V, SGX, SEV, the
//! management engines, NX, TPM, vPro), switched and queried through the
//! kernel's security resource.
use vstd::prelude::*;
use crate::resource::{ResourceName, ResourceSession, SessionOutcome, fresh_session};

verus! {

/// The security features a driver can switch.
#[derive(Debug, Copy, Clone, PartialEq, Eq, Structural)]
pub enum SecurityFeature {
    IntelVtx,
    AmdV,
    IntelSgx,
    AmdSev,
    IntelMe,
    AmdPsp,
    NxBit,
    Tpm,
    IntelVpro,
}

/// Why a security request failed.
#[derive(Debug, Copy, Clone, PartialEq, Eq, Structural)]
pub enum SecurityError {
    NotSupported,
    InternalError,
    InvalidOperation,
}

impl SecurityError {
    /// The error's numeric code in the kernel ABI.
    pub fn code(&self) -> (r: i64)
        ensures
            r == match *self {
                SecurityError::NotSupported => -1i64,
                SecurityError::InternalError => -2i64,
                SecurityError::InvalidOperation => -3i64,
            },
    {
        match self {
            SecurityError::NotSupported => -1,
            SecurityError::InternalError => -2,
            SecurityError::InvalidOperation => -3,
        }
    }
}

/// The command that switches `feature` on (`enable`) or off.
pub open spec fn feature_command(feature: SecurityFeature, enable: bool) -> &'static str {
    match feature {
        SecurityFeature::IntelVtx => if enable { "enable_vtx" } else { "disable_vtx" },
        SecurityFeature::AmdV => if enable { "enable_amdv" } else { "disable_amdv" },
        SecurityFeature::IntelSgx => if enable { "enable_sgx" } else { "disable_sgx" },
        SecurityFeature::AmdSev => if enable { "enable_sev" } else { "disable_sev" },
        SecurityFeature::IntelMe => if enable { "enable_me" } else { "disable_me" },
        SecurityFeature::AmdPsp => if enable { "enable_psp" } else { "disable_psp" },
        SecurityFeature::NxBit => if enable { "enable_nx" } else { "disable_nx" },
        SecurityFeature::Tpm => if enable { "enable_tpm" } else { "disable_tpm" },
        SecurityFeature::IntelVpro => if enable { "enable_vpro" } else { "disable_vpro" },
    }
}

/// The command that asks whether `feature` is on.
pub open spec fn feature_query(feature: SecurityFeature) -> &'static str {
    match feature {
        SecurityFeature::IntelVtx => "query_vtx",
        SecurityFeature::AmdV => "query_amdv",
        SecurityFeature::IntelSgx => "query_sgx",
        SecurityFeature::AmdSev => "query_sev",
        SecurityFeature::IntelMe => "query_me",
        SecurityFeature::AmdPsp => "query_psp",
        SecurityFeature::NxBit => "query_nx",
        SecurityFeature::Tpm => "query_tpm",
        SecurityFeature::IntelVpro => "query_vpro",
    }
}

/// The command that switches `feature` on (`enable`) or off.
pub fn security_feature_cmd(feature: SecurityFeature, enable: bool) -> (r: &'static str)
    ensures
        r == feature_command(feature, enable),
{
    match feature {
        SecurityFeature::IntelVtx => if enable { "enable_vtx" } else { "disable_vtx" },
        SecurityFeature::AmdV => if enable { "enable_amdv" } else { "disable_amdv" },
        SecurityFeature::IntelSgx => if enable { "enable_sgx" } else { "disable_sgx" },
        SecurityFeature::AmdSev => if enable { "enable_sev" } else { "disable_sev" },
        SecurityFeature::IntelMe => if enable { "enable_me" } else { "disable_me" },
        SecurityFeature::AmdPsp => if enable { "enable_psp" } else { "disable_psp" },
        SecurityFeature::NxBit => if enable { "enable_nx" } else { "disable_nx" },
        SecurityFeature::Tpm => if enable { "enable_tpm" } else { "disable_tpm" },
        SecurityFeature::IntelVpro => if enable { "enable_vpro" } else { "disable_vpro" },
    }
}

/// The result of a finished switch request: `Ok` once the command was
/// written, `InternalError` when a system call failed.
pub open spec fn switch_result(outcome: SessionOutcome) -> Result<(), SecurityError> {
    match outcome {
        SessionOutcome::Done => Ok(()),
        SessionOutcome::Status(_) => Ok(()),
        SessionOutcome::NotSupported => Err(SecurityError::NotSupported),
        SessionOutcome::Failed => Err(SecurityError::InternalError),
    }
}

/// The result of a finished query: the status byte read back (non-zero
/// means on), or `InternalError` when no byte could be read.
pub open spec fn query_result(outcome: SessionOutcome) -> Result<bool, SecurityError> {
    match outcome {
        SessionOutcome::Status(on) => Ok(on),
        SessionOutcome::NotSupported => Err(SecurityError::NotSupported),
        _ => Err(SecurityError::InternalError),
    }
}

/// Maps how a switch request ended to its result.
pub fn finish_switch_request(outcome: SessionOutcome) -> (r: Result<(), SecurityError>)
    ensures
        r == switch_result(outcome),
        (outcome is Done || outcome is Status) <==> r is Ok,
        outcome is NotSupported ==> r == Err::<(), SecurityError>(SecurityError::NotSupported),
        outcome is Failed ==> r == Err::<(), SecurityError>(SecurityError::InternalError),
{
    match outcome {
        SessionOutcome::Done => Ok(()),
        SessionOutcome::Status(_) => Ok(()),
        SessionOutcome::NotSupported => Err(SecurityError::NotSupported),
        SessionOutcome::Failed => Err(SecurityError::InternalError),
    }
}

/// Maps how a query ended to its result.
pub fn finish_query_request(outcome: SessionOutcome) -> (r: Result<bool, SecurityError>)
    ensures
        r == query_result(outcome),
        outcome matches SessionOutcome::Status(on) ==> r == Ok::<bool, SecurityError>(on),
        outcome is NotSupported ==> r == Err::<bool, SecurityError>(SecurityError::NotSupported),
        (outcome is Done || outcome is Failed) ==> r == Err::<bool, SecurityError>(SecurityError::InternalError),
{
    match outcome {
        SessionOutcome::Status(on) => Ok(on),
        SessionOutcome::NotSupported => Err(SecurityError::NotSupported),
        _ => Err(SecurityError::InternalError),
    }
}

/// The security driver.
#[derive(Debug, Copy, Clone)]
pub struct X86SecurityManager;

impl X86SecurityManager {
    /// The request that switches `feature` on (`enable`) or off.
    pub fn set_feature(&self, feature: SecurityFeature, enable: bool) -> (r: ResourceSession)
        ensures
            r == fresh_session(ResourceName::Security, Some(feature_command(feature, enable)), false),
    {
        let cmd = security_feature_cmd(feature, enable);
        ResourceSession::command(ResourceName::Security, Some(cmd))
    }

    /// The request that asks whether `feature` is on.
    pub fn query_feature(&self, feature: SecurityFeature) -> (r: ResourceSession)
        ensures
            r == fresh_session(ResourceName::Security, Some(feature_query(feature)), true),
    {
        let cmd = match feature {
            SecurityFeature::IntelVtx => "query_vtx",
            SecurityFeature::AmdV => "query_amdv",
            SecurityFeature::IntelSgx => "query_sgx",
            SecurityFeature::AmdSev => "query_sev",
            SecurityFeature::IntelMe => "query_me",
            SecurityFeature::AmdPsp => "query_psp",
            SecurityFeature::NxBit => "query_nx",
            SecurityFeature::Tpm => "query_tpm",
            SecurityFeature::IntelVpro => "query_vpro",
        };
        ResourceSession::query(ResourceName::Security, cmd)
    }
}

/// The request that switches `feature` on.
pub fn enable_security_feature(feature: SecurityFeature) -> (r: ResourceSession)
    ensures
        r == fresh_session(ResourceName::Security, Some(feature_command(feature, true)), false),
{
    X86SecurityManager.set_feature(feature, true)
}

/// The request that switches `feature` off.
pub fn disable_security_feature(feature: SecurityFeature) -> (r: ResourceSession)
    ensures
        r == fresh_session(ResourceName::Security, Some(feature_command(feature, false)), false),
{
    X86SecurityManager.set_feature(feature, false)
}

/// The request that asks whether `feature` is on.
pub fn is_security_feature_enabled(feature: SecurityFeature) -> (r: ResourceSession)
    ensures
        r == fresh_session(ResourceName::Security, Some(feature_query(feature)), true),
{
    X86SecurityManager.query_feature(feature)
}

} // verus!
