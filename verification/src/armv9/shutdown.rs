//! Power requests on armv9 through ACPI, SCMI, PSCI, BSA and BBR drivers
//! that ask the kernel's power resource to change state.
use vstd::prelude::*;
use crate::resource::{ResourceName, ResourceSession, SessionOutcome, fresh_session};

verus! {

/// The power-management standards of the platform.
#[derive(Debug, Copy, Clone, PartialEq, Eq, Structural)]
pub enum PowerStandard {
    Acpi,
    Scmi,
    Psci,
    Bsa,
    Bbr,
}

/// The power states a driver can be asked for.
#[derive(Debug, Copy, Clone, PartialEq, Eq, Structural)]
pub enum PowerState {
    Sleep,
    Hibernate,
    PowerOff,
}

/// Why a power request failed.
#[derive(Debug, Copy, Clone, PartialEq, Eq, Structural)]
pub enum PowerError {
    NotSupported,
    InternalError,
    InvalidState,
}

impl PowerError {
    /// The error's numeric code in the kernel ABI.
    pub fn code(&self) -> (r: i64)
        ensures
            r == match *self {
                PowerError::NotSupported => -1i64,
                PowerError::InternalError => -2i64,
                PowerError::InvalidState => -3i64,
            },
    {
        match self {
            PowerError::NotSupported => -1,
            PowerError::InternalError => -2,
            PowerError::InvalidState => -3,
        }
    }
}

/// The result of a finished power request: `Ok` once the command was
/// written, `NotSupported` when there is no command for the request,
/// `InternalError` when a system call failed.
pub open spec fn power_result(outcome: SessionOutcome) -> Result<(), PowerError> {
    match outcome {
        SessionOutcome::Done => Ok(()),
        SessionOutcome::Status(_) => Ok(()),
        SessionOutcome::NotSupported => Err(PowerError::NotSupported),
        SessionOutcome::Failed => Err(PowerError::InternalError),
    }
}

/// Maps how a power request ended to its result.
pub fn finish_power_request(outcome: SessionOutcome) -> (r: Result<(), PowerError>)
    ensures
        r == power_result(outcome),
        (outcome is Done || outcome is Status) <==> r is Ok,
        outcome is NotSupported ==> r == Err::<(), PowerError>(PowerError::NotSupported),
        outcome is Failed ==> r == Err::<(), PowerError>(PowerError::InternalError),
{
    match outcome {
        SessionOutcome::Done => Ok(()),
        SessionOutcome::Status(_) => Ok(()),
        SessionOutcome::NotSupported => Err(PowerError::NotSupported),
        SessionOutcome::Failed => Err(PowerError::InternalError),
    }
}

/// The command that switches the machine off through `standard`.
pub open spec fn poweroff_command(standard: PowerStandard) -> &'static str {
    match standard {
        PowerStandard::Acpi => "acpi_poweroff",
        PowerStandard::Scmi => "scmi_poweroff",
        PowerStandard::Psci => "psci_poweroff",
        PowerStandard::Bsa => "bsa_poweroff",
        PowerStandard::Bbr => "bbr_poweroff",
    }
}

/// The command that enters `state` through `standard`, where there is one.
pub open spec fn state_command(standard: PowerStandard, state: PowerState) -> Option<&'static str> {
    match (standard, state) {
        (PowerStandard::Acpi, PowerState::Sleep) => Some("acpi_sleep"),
        (PowerStandard::Acpi, PowerState::Hibernate) => Some("acpi_hibernate"),
        (PowerStandard::Psci, PowerState::Sleep) => Some("psci_suspend"),
        (_, PowerState::PowerOff) => Some(poweroff_command(standard)),
        _ => None,
    }
}

/// The ACPI driver.
#[derive(Debug, Copy, Clone)]
pub struct AcpiManager;

/// The SCMI driver.
#[derive(Debug, Copy, Clone)]
pub struct ScmiManager;

/// The PSCI driver.
#[derive(Debug, Copy, Clone)]
pub struct PsciManager;

/// The BSA driver.
#[derive(Debug, Copy, Clone)]
pub struct BsaManager;

/// The BBR driver.
#[derive(Debug, Copy, Clone)]
pub struct BbrManager;

impl AcpiManager {
    /// The request that switches the machine off through ACPI.
    pub fn shutdown(&self) -> (r: ResourceSession)
        ensures
            r == fresh_session(ResourceName::Power, Some(poweroff_command(PowerStandard::Acpi)), false),
    {
        ResourceSession::command(ResourceName::Power, Some("acpi_poweroff"))
    }
}

impl ScmiManager {
    /// The request that switches the machine off through SCMI.
    pub fn shutdown(&self) -> (r: ResourceSession)
        ensures
            r == fresh_session(ResourceName::Power, Some(poweroff_command(PowerStandard::Scmi)), false),
    {
        ResourceSession::command(ResourceName::Power, Some("scmi_poweroff"))
    }
}

impl PsciManager {
    /// The request that switches the machine off through PSCI.
    pub fn shutdown(&self) -> (r: ResourceSession)
        ensures
            r == fresh_session(ResourceName::Power, Some(poweroff_command(PowerStandard::Psci)), false),
    {
        ResourceSession::command(ResourceName::Power, Some("psci_poweroff"))
    }
}

impl BsaManager {
    /// The request that switches the machine off through BSA.
    pub fn shutdown(&self) -> (r: ResourceSession)
        ensures
            r == fresh_session(ResourceName::Power, Some(poweroff_command(PowerStandard::Bsa)), false),
    {
        ResourceSession::command(ResourceName::Power, Some("bsa_poweroff"))
    }
}

impl BbrManager {
    /// The request that switches the machine off through BBR.
    pub fn shutdown(&self) -> (r: ResourceSession)
        ensures
            r == fresh_session(ResourceName::Power, Some(poweroff_command(PowerStandard::Bbr)), false),
    {
        ResourceSession::command(ResourceName::Power, Some("bbr_poweroff"))
    }
}

/// Selects among the enabled power drivers.
#[derive(Debug, Copy, Clone)]
pub struct ArmPowerController {
    pub acpi: Option<AcpiManager>,
    pub scmi: Option<ScmiManager>,
    pub psci: Option<PsciManager>,
    pub bsa: Option<BsaManager>,
    pub bbr: Option<BbrManager>,
}

impl ArmPowerController {
    /// Whether the driver of `standard` is enabled.
    pub open spec fn enabled(&self, standard: PowerStandard) -> bool {
        match standard {
            PowerStandard::Acpi => self.acpi is Some,
            PowerStandard::Scmi => self.scmi is Some,
            PowerStandard::Psci => self.psci is Some,
            PowerStandard::Bsa => self.bsa is Some,
            PowerStandard::Bbr => self.bbr is Some,
        }
    }

    /// A controller with the drivers that are enabled.
    pub fn new(enable_acpi: bool, enable_scmi: bool, enable_psci: bool, enable_bsa: bool, enable_bbr: bool) -> (r: Self)
        ensures
            r.enabled(PowerStandard::Acpi) == enable_acpi,
            r.enabled(PowerStandard::Scmi) == enable_scmi,
            r.enabled(PowerStandard::Psci) == enable_psci,
            r.enabled(PowerStandard::Bsa) == enable_bsa,
            r.enabled(PowerStandard::Bbr) == enable_bbr,
    {
        ArmPowerController {
            acpi: if enable_acpi { Some(AcpiManager) } else { None },
            scmi: if enable_scmi { Some(ScmiManager) } else { None },
            psci: if enable_psci { Some(PsciManager) } else { None },
            bsa: if enable_bsa { Some(BsaManager) } else { None },
            bbr: if enable_bbr { Some(BbrManager) } else { None },
        }
    }

    /// The request that switches the machine off through `standard`, or
    /// `NotSupported` without any system call when that driver is not
    /// enabled.
    pub fn shutdown(&self, standard: PowerStandard) -> (r: Result<ResourceSession, PowerError>)
        ensures
            self.enabled(standard) ==> r == Ok::<ResourceSession, PowerError>(
                fresh_session(ResourceName::Power, Some(poweroff_command(standard)), false)),
            !self.enabled(standard) ==> r == Err::<ResourceSession, PowerError>(PowerError::NotSupported),
    {
        match standard {
            PowerStandard::Acpi => match &self.acpi {
                Some(m) => Ok(m.shutdown()),
                None => Err(PowerError::NotSupported),
            },
            PowerStandard::Scmi => match &self.scmi {
                Some(m) => Ok(m.shutdown()),
                None => Err(PowerError::NotSupported),
            },
            PowerStandard::Psci => match &self.psci {
                Some(m) => Ok(m.shutdown()),
                None => Err(PowerError::NotSupported),
            },
            PowerStandard::Bsa => match &self.bsa {
                Some(m) => Ok(m.shutdown()),
                None => Err(PowerError::NotSupported),
            },
            PowerStandard::Bbr => match &self.bbr {
                Some(m) => Ok(m.shutdown()),
                None => Err(PowerError::NotSupported),
            },
        }
    }

    /// The request that resets the machine through PSCI, or `NotSupported`
    /// without any system call when PSCI is not enabled.
    pub fn reboot(&self) -> (r: Result<ResourceSession, PowerError>)
        ensures
            self.enabled(PowerStandard::Psci) ==> r == Ok::<ResourceSession, PowerError>(
                fresh_session(ResourceName::Power, Some("psci_reboot"), false)),
            !self.enabled(PowerStandard::Psci) ==> r == Err::<ResourceSession, PowerError>(PowerError::NotSupported),
    {
        if self.psci.is_some() {
            Ok(ResourceSession::command(ResourceName::Power, Some("psci_reboot")))
        } else {
            Err(PowerError::NotSupported)
        }
    }

    /// The request that enters `state` through `standard`. The resource is
    /// acquired whether or not the driver is enabled; a combination with no
    /// command ends as `NotSupported` once acquired.
    pub fn set_power_state(&self, standard: PowerStandard, state: PowerState) -> (r: ResourceSession)
        ensures
            r == fresh_session(ResourceName::Power, state_command(standard, state), false),
    {
        let cmd = match (standard, state) {
            (PowerStandard::Acpi, PowerState::Sleep) => Some("acpi_sleep"),
            (PowerStandard::Acpi, PowerState::Hibernate) => Some("acpi_hibernate"),
            (PowerStandard::Acpi, PowerState::PowerOff) => Some("acpi_poweroff"),
            (PowerStandard::Scmi, PowerState::PowerOff) => Some("scmi_poweroff"),
            (PowerStandard::Psci, PowerState::Sleep) => Some("psci_suspend"),
            (PowerStandard::Psci, PowerState::PowerOff) => Some("psci_poweroff"),
            (PowerStandard::Bsa, PowerState::PowerOff) => Some("bsa_poweroff"),
            (PowerStandard::Bbr, PowerState::PowerOff) => Some("bbr_poweroff"),
            _ => None,
        };
        ResourceSession::command(ResourceName::Power, cmd)
    }
}

/// The kernel's shutdown request through `standard`, with every driver
/// enabled.
pub fn karnal_shutdown(standard: PowerStandard) -> (r: Result<ResourceSession, PowerError>)
    ensures
        r == Ok::<ResourceSession, PowerError>(
            fresh_session(ResourceName::Power, Some(poweroff_command(standard)), false)),
{
    let ctrl = ArmPowerController::new(true, true, true, true, true);
    ctrl.shutdown(standard)
}

/// The kernel's reboot request, with every driver enabled.
pub fn karnal_reboot() -> (r: Result<ResourceSession, PowerError>)
    ensures
        r == Ok::<ResourceSession, PowerError>(fresh_session(ResourceName::Power, Some("psci_reboot"), false)),
{
    let ctrl = ArmPowerController::new(true, true, true, true, true);
    ctrl.reboot()
}

} // verus!
