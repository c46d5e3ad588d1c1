//! Power-state requests on loongarch64 through the kernel's power resource.
use vstd::prelude::*;
use crate::resource::{ResourceName, ResourceSession, SessionOutcome, fresh_session};

verus! {

/// The power states the platform can be asked for.
#[derive(Debug, Copy, Clone, PartialEq, Eq, Structural)]
pub enum PowerState {
    Sleep,
    Hibernate,
    PowerOff,
    Performance,
    Powersave,
}

/// Why a power request failed.
#[derive(Debug, Copy, Clone, PartialEq, Eq, Structural)]
pub enum PowerError {
    NotSupported,
    InternalError,
    InvalidState,
}

impl PowerError {
    /// The error's numeric code in the kernel ABI.
    pub fn code(&self) -> (r: i64)
        ensures
            r == match *self {
                PowerError::NotSupported => -1i64,
                PowerError::InternalError => -2i64,
                PowerError::InvalidState => -3i64,
            },
    {
        match self {
            PowerError::NotSupported => -1,
            PowerError::InternalError => -2,
            PowerError::InvalidState => -3,
        }
    }
}

/// The command that enters `state`.
pub open spec fn power_command(state: PowerState) -> &'static str {
    match state {
        PowerState::Sleep => "sleep",
        PowerState::Hibernate => "hibernate",
        PowerState::PowerOff => "poweroff",
        PowerState::Performance => "performance",
        PowerState::Powersave => "powersave",
    }
}

/// The result of a finished power request: `Ok` once the command was
/// written, `InternalError` when a system call failed.
pub open spec fn power_result(outcome: SessionOutcome) -> Result<(), PowerError> {
    match outcome {
        SessionOutcome::Done => Ok(()),
        SessionOutcome::Status(_) => Ok(()),
        SessionOutcome::NotSupported => Err(PowerError::NotSupported),
        SessionOutcome::Failed => Err(PowerError::InternalError),
    }
}

/// Maps how a power request ended to its result.
pub fn finish_power_request(outcome: SessionOutcome) -> (r: Result<(), PowerError>)
    ensures
        r == power_result(outcome),
        (outcome is Done || outcome is Status) <==> r is Ok,
        outcome is NotSupported ==> r == Err::<(), PowerError>(PowerError::NotSupported),
        outcome is Failed ==> r == Err::<(), PowerError>(PowerError::InternalError),
{
    match outcome {
        SessionOutcome::Done => Ok(()),
        SessionOutcome::Status(_) => Ok(()),
        SessionOutcome::NotSupported => Err(PowerError::NotSupported),
        SessionOutcome::Failed => Err(PowerError::InternalError),
    }
}

/// The power driver.
#[derive(Debug, Copy, Clone)]
pub struct LoongarchPowerManager;

impl LoongarchPowerManager {
    /// The request that enters `state`.
    pub fn set_power_state(&self, state: PowerState) -> (r: ResourceSession)
        ensures
            r == fresh_session(ResourceName::Power, Some(power_command(state)), false),
    {
        let cmd = match state {
            PowerState::Sleep => "sleep",
            PowerState::Hibernate => "hibernate",
            PowerState::PowerOff => "poweroff",
            PowerState::Performance => "performance",
            PowerState::Powersave => "powersave",
        };
        ResourceSession::command(ResourceName::Power, Some(cmd))
    }
}

/// The request that enters `state`.
pub fn set_loongarch_power(state: PowerState) -> (r: ResourceSession)
    ensures
        r == fresh_session(ResourceName::Power, Some(power_command(state)), false),
{
    LoongarchPowerManager.set_power_state(state)
}

} // verus!
