//! Power-state requests on amd64: ACPI, Intel SpeedStep and AMD PowerNow!
//! drivers that ask the kernel's power resource to change state.
use vstd::prelude::*;
use crate::resource::{ResourceName, ResourceSession, SessionOutcome, fresh_session};

verus! {

/// The power-management standards of the platform.
#[derive(Debug, Copy, Clone, PartialEq, Eq, Structural)]
pub enum PowerStandard {
    Acpi,
    IntelSpeedStep,
    AmdPowerNow,
}

/// The power states a driver can be asked for.
#[derive(Debug, Copy, Clone, PartialEq, Eq, Structural)]
pub enum PowerState {
    Performance,
    Powersave,
    Sleep,
    Hibernate,
    PowerOff,
}

/// Why a power request failed.
#[derive(Debug, Copy, Clone, PartialEq, Eq, Structural)]
pub enum PowerError {
    NotSupported,
    InternalError,
    InvalidState,
}

impl PowerError {
    /// The error's numeric code in the kernel ABI.
    pub fn code(&self) -> (r: i64)
        ensures
            r == match *self {
                PowerError::NotSupported => -1i64,
                PowerError::InternalError => -2i64,
                PowerError::InvalidState => -3i64,
            },
    {
        match self {
            PowerError::NotSupported => -1,
            PowerError::InternalError => -2,
            PowerError::InvalidState => -3,
        }
    }
}

/// The command the ACPI driver writes for `state`.
pub open spec fn acpi_command(state: PowerState) -> Option<&'static str> {
    match state {
        PowerState::Sleep => Some("acpi_sleep"),
        PowerState::Hibernate => Some("acpi_hibernate"),
        PowerState::PowerOff => Some("acpi_poweroff"),
        _ => None,
    }
}

/// The command the SpeedStep driver writes for `state`.
pub open spec fn speedstep_command(state: PowerState) -> Option<&'static str> {
    match state {
        PowerState::Performance => Some("speedstep_performance"),
        PowerState::Powersave => Some("speedstep_powersave"),
        _ => None,
    }
}

/// The command the PowerNow! driver writes for `state`.
pub open spec fn powernow_command(state: PowerState) -> Option<&'static str> {
    match state {
        PowerState::Performance => Some("powernow_performance"),
        PowerState::Powersave => Some("powernow_powersave"),
        _ => None,
    }
}

/// The result of a finished power request: `Ok` once the command was
/// written, `NotSupported` when the driver has no command for the state,
/// `InternalError` when a system call failed.
pub open spec fn power_result(outcome: SessionOutcome) -> Result<(), PowerError> {
    match outcome {
        SessionOutcome::Done => Ok(()),
        SessionOutcome::Status(_) => Ok(()),
        SessionOutcome::NotSupported => Err(PowerError::NotSupported),
        SessionOutcome::Failed => Err(PowerError::InternalError),
    }
}

/// Maps how a power request ended to its result.
pub fn finish_power_request(outcome: SessionOutcome) -> (r: Result<(), PowerError>)
    ensures
        r == power_result(outcome),
        (outcome is Done || outcome is Status) <==> r is Ok,
        outcome is NotSupported ==> r == Err::<(), PowerError>(PowerError::NotSupported),
        outcome is Failed ==> r == Err::<(), PowerError>(PowerError::InternalError),
{
    match outcome {
        SessionOutcome::Done => Ok(()),
        SessionOutcome::Status(_) => Ok(()),
        SessionOutcome::NotSupported => Err(PowerError::NotSupported),
        SessionOutcome::Failed => Err(PowerError::InternalError),
    }
}

/// The ACPI driver.
#[derive(Debug, Copy, Clone)]
pub struct AcpiManager;

/// The Intel SpeedStep driver.
#[derive(Debug, Copy, Clone)]
pub struct SpeedStepManager;

/// The AMD PowerNow! driver.
#[derive(Debug, Copy, Clone)]
pub struct PowerNowManager;

impl AcpiManager {
    /// The request that puts the machine into `state` through ACPI.
    pub fn set_power_state(&self, state: PowerState) -> (r: ResourceSession)
        ensures
            r == fresh_session(ResourceName::Power, acpi_command(state), false),
    {
        let cmd = match state {
            PowerState::Sleep => Some("acpi_sleep"),
            PowerState::Hibernate => Some("acpi_hibernate"),
            PowerState::PowerOff => Some("acpi_poweroff"),
            _ => None,
        };
        ResourceSession::command(ResourceName::Power, cmd)
    }
}

impl SpeedStepManager {
    /// The request that puts the processor into `state` through SpeedStep.
    pub fn set_power_state(&self, state: PowerState) -> (r: ResourceSession)
        ensures
            r == fresh_session(ResourceName::Power, speedstep_command(state), false),
    {
        let cmd = match state {
            PowerState::Performance => Some("speedstep_performance"),
            PowerState::Powersave => Some("speedstep_powersave"),
            _ => None,
        };
        ResourceSession::command(ResourceName::Power, cmd)
    }
}

impl PowerNowManager {
    /// The request that puts the processor into `state` through PowerNow!.
    pub fn set_power_state(&self, state: PowerState) -> (r: ResourceSession)
        ensures
            r == fresh_session(ResourceName::Power, powernow_command(state), false),
    {
        let cmd = match state {
            PowerState::Performance => Some("powernow_performance"),
            PowerState::Powersave => Some("powernow_powersave"),
            _ => None,
        };
        ResourceSession::command(ResourceName::Power, cmd)
    }
}

/// Selects among the enabled power drivers.
#[derive(Debug, Copy, Clone)]
pub struct X86PowerController {
    pub acpi: Option<AcpiManager>,
    pub speedstep: Option<SpeedStepManager>,
    pub powernow: Option<PowerNowManager>,
}

/// The command written for `state` through `standard`.
pub open spec fn standard_command(standard: PowerStandard, state: PowerState) -> Option<&'static str> {
    match standard {
        PowerStandard::Acpi => acpi_command(state),
        PowerStandard::IntelSpeedStep => speedstep_command(state),
        PowerStandard::AmdPowerNow => powernow_command(state),
    }
}

impl X86PowerController {
    /// Whether the driver of `standard` is enabled.
    pub open spec fn enabled(&self, standard: PowerStandard) -> bool {
        match standard {
            PowerStandard::Acpi => self.acpi is Some,
            PowerStandard::IntelSpeedStep => self.speedstep is Some,
            PowerStandard::AmdPowerNow => self.powernow is Some,
        }
    }

    /// A controller with the drivers that are enabled.
    pub fn new(enable_acpi: bool, enable_speedstep: bool, enable_powernow: bool) -> (r: Self)
        ensures
            r.enabled(PowerStandard::Acpi) == enable_acpi,
            r.enabled(PowerStandard::IntelSpeedStep) == enable_speedstep,
            r.enabled(PowerStandard::AmdPowerNow) == enable_powernow,
    {
        X86PowerController {
            acpi: if enable_acpi { Some(AcpiManager) } else { None },
            speedstep: if enable_speedstep { Some(SpeedStepManager) } else { None },
            powernow: if enable_powernow { Some(PowerNowManager) } else { None },
        }
    }

    /// The request for `state` through `standard`, or `NotSupported`
    /// without any system call when that driver is not enabled.
    pub fn set_power_state(&self, standard: PowerStandard, state: PowerState) -> (r: Result<ResourceSession, PowerError>)
        ensures
            self.enabled(standard) ==> r == Ok::<ResourceSession, PowerError>(
                fresh_session(ResourceName::Power, standard_command(standard, state), false)),
            !self.enabled(standard) ==> r == Err::<ResourceSession, PowerError>(PowerError::NotSupported),
    {
        match standard {
            PowerStandard::Acpi => match &self.acpi {
                Some(m) => Ok(m.set_power_state(state)),
                None => Err(PowerError::NotSupported),
            },
            PowerStandard::IntelSpeedStep => match &self.speedstep {
                Some(m) => Ok(m.set_power_state(state)),
                None => Err(PowerError::NotSupported),
            },
            PowerStandard::AmdPowerNow => match &self.powernow {
                Some(m) => Ok(m.set_power_state(state)),
                None => Err(PowerError::NotSupported),
            },
        }
    }
}

/// The request for `state` through `standard` with every driver enabled.
pub fn set_x86_power(standard: PowerStandard, state: PowerState) -> (r: ResourceSession)
    ensures
        r == fresh_session(ResourceName::Power, standard_command(standard, state), false),
{
    let mgr = X86PowerController::new(true, true, true);
    match mgr.set_power_state(standard, state) {
        Ok(s) => s,
        Err(_) => {
            assert(false);
            ResourceSession::command(ResourceName::Power, None)
        },
    }
}

} // verus!
