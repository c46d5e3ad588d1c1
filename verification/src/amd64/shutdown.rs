//! Shutting down and rebooting an amd64 machine. The drivers decide which
//! port write performs the request; the platform layer performs it.
use vstd::prelude::*;

verus! {

/// The power-management standards of the platform.
#[derive(Debug, Copy, Clone, PartialEq, Eq, Structural)]
pub enum PowerStandard {
    Acpi,
    IntelSpeedStep,
    AmdPowerNow,
}

/// Why a power request failed.
#[derive(Debug, Copy, Clone, PartialEq, Eq, Structural)]
pub enum PowerError {
    NotSupported,
    InternalError,
    InvalidState,
}

impl PowerError {
    /// The error's numeric code in the kernel ABI.
    pub fn code(&self) -> (r: i64)
        ensures
            r == match *self {
                PowerError::NotSupported => -1i64,
                PowerError::InternalError => -2i64,
                PowerError::InvalidState => -3i64,
            },
    {
        match self {
            PowerError::NotSupported => -1,
            PowerError::InternalError => -2,
            PowerError::InvalidState => -3,
        }
    }
}

/// The power states a driver can be asked for.
#[derive(Debug, Copy, Clone, PartialEq, Eq, Structural)]
pub enum PowerState {
    Sleep,
    Hibernate,
    PowerOff,
}

/// An I/O port write that carries out a power request.
#[derive(Debug, Copy, Clone, PartialEq, Eq, Structural)]
pub enum PortWrite {
    /// Write the byte `byte` to `port`.
    Byte { port: u16, byte: u8 },
    /// Write the 16-bit word `word` to `port`.
    Word { port: u16, word: u16 },
}

/// The ACPI PM1a control port that takes the sleep-type word.
pub const ACPI_PM1A_CONTROL_PORT: u16 = 0xB004;
/// The PM1a control word that enters S5 (soft off).
pub const ACPI_S5_SLEEP_WORD: u16 = 0x2000;
/// The keyboard controller's command port.
pub const KBC_COMMAND_PORT: u16 = 0x64;
/// The keyboard controller command that pulses the CPU reset line.
pub const KBC_RESET_COMMAND: u8 = 0xFE;

/// The port write that switches the machine off through ACPI.
pub open spec fn acpi_shutdown_write() -> PortWrite {
    PortWrite::Word { port: ACPI_PM1A_CONTROL_PORT, word: ACPI_S5_SLEEP_WORD }
}

/// The port write that resets the machine.
pub open spec fn reset_write() -> PortWrite {
    PortWrite::Byte { port: KBC_COMMAND_PORT, byte: KBC_RESET_COMMAND }
}

/// A power driver: each request yields the port write that performs it.
pub trait PowerManager {
    /// Switch the machine off.
    fn shutdown(&self) -> Result<PortWrite, PowerError>;

    /// Reset the machine.
    fn reboot(&self) -> Result<PortWrite, PowerError>;

    /// Enter `state`.
    fn set_power_state(&self, state: PowerState) -> Result<PortWrite, PowerError>;
}

/// The ACPI driver.
#[derive(Debug, Copy, Clone)]
pub struct AcpiManager;

/// The Intel SpeedStep driver: frequency scaling only.
#[derive(Debug, Copy, Clone)]
pub struct SpeedStepManager;

/// The AMD PowerNow! driver: frequency scaling only.
#[derive(Debug, Copy, Clone)]
pub struct PowerNowManager;

impl PowerManager for AcpiManager {
    fn shutdown(&self) -> (r: Result<PortWrite, PowerError>)
        ensures
            r == Ok::<PortWrite, PowerError>(acpi_shutdown_write()),
    {
        Ok(PortWrite::Word { port: ACPI_PM1A_CONTROL_PORT, word: ACPI_S5_SLEEP_WORD })
    }

    fn reboot(&self) -> (r: Result<PortWrite, PowerError>)
        ensures
            r == Ok::<PortWrite, PowerError>(reset_write()),
    {
        Ok(PortWrite::Byte { port: KBC_COMMAND_PORT, byte: KBC_RESET_COMMAND })
    }

    fn set_power_state(&self, state: PowerState) -> (r: Result<PortWrite, PowerError>)
        ensures
            state == PowerState::PowerOff ==> r == Ok::<PortWrite, PowerError>(acpi_shutdown_write()),
            state != PowerState::PowerOff ==> r == Err::<PortWrite, PowerError>(PowerError::NotSupported),
    {
        match state {
            PowerState::Sleep | PowerState::Hibernate => Err(PowerError::NotSupported),
            PowerState::PowerOff => self.shutdown(),
        }
    }
}

impl PowerManager for SpeedStepManager {
    fn shutdown(&self) -> (r: Result<PortWrite, PowerError>)
        ensures
            r == Err::<PortWrite, PowerError>(PowerError::NotSupported),
    {
        Err(PowerError::NotSupported)
    }

    fn reboot(&self) -> (r: Result<PortWrite, PowerError>)
        ensures
            r == Err::<PortWrite, PowerError>(PowerError::NotSupported),
    {
        Err(PowerError::NotSupported)
    }

    fn set_power_state(&self, state: PowerState) -> (r: Result<PortWrite, PowerError>)
        ensures
            r == Err::<PortWrite, PowerError>(PowerError::NotSupported),
    {
        Err(PowerError::NotSupported)
    }
}

impl PowerManager for PowerNowManager {
    fn shutdown(&self) -> (r: Result<PortWrite, PowerError>)
        ensures
            r == Err::<PortWrite, PowerError>(PowerError::NotSupported),
    {
        Err(PowerError::NotSupported)
    }

    fn reboot(&self) -> (r: Result<PortWrite, PowerError>)
        ensures
            r == Err::<PortWrite, PowerError>(PowerError::NotSupported),
    {
        Err(PowerError::NotSupported)
    }

    fn set_power_state(&self, state: PowerState) -> (r: Result<PortWrite, PowerError>)
        ensures
            r == Err::<PortWrite, PowerError>(PowerError::NotSupported),
    {
        Err(PowerError::NotSupported)
    }
}

/// Selects among the enabled power drivers.
#[derive(Debug, Copy, Clone)]
pub struct X86PowerController {
    pub acpi: Option<AcpiManager>,
    pub speedstep: Option<SpeedStepManager>,
    pub powernow: Option<PowerNowManager>,
}

/// What the enabled driver of `standard` answers to a request for `state`:
/// only ACPI can switch the machine off; nothing else is supported.
pub open spec fn standard_state_write(standard: PowerStandard, state: PowerState) -> Result<PortWrite, PowerError> {
    if standard == PowerStandard::Acpi && state == PowerState::PowerOff {
        Ok(acpi_shutdown_write())
    } else {
        Err(PowerError::NotSupported)
    }
}

impl X86PowerController {
    /// Whether the driver of `standard` is enabled.
    pub open spec fn enabled(&self, standard: PowerStandard) -> bool {
        match standard {
            PowerStandard::Acpi => self.acpi is Some,
            PowerStandard::IntelSpeedStep => self.speedstep is Some,
            PowerStandard::AmdPowerNow => self.powernow is Some,
        }
    }

    /// A controller with the drivers that are enabled.
    pub fn new(enable_acpi: bool, enable_speedstep: bool, enable_powernow: bool) -> (r: Self)
        ensures
            r.enabled(PowerStandard::Acpi) == enable_acpi,
            r.enabled(PowerStandard::IntelSpeedStep) == enable_speedstep,
            r.enabled(PowerStandard::AmdPowerNow) == enable_powernow,
    {
        X86PowerController {
            acpi: if enable_acpi { Some(AcpiManager) } else { None },
            speedstep: if enable_speedstep { Some(SpeedStepManager) } else { None },
            powernow: if enable_powernow { Some(PowerNowManager) } else { None },
        }
    }

    /// Switches the machine off through ACPI.
    pub fn shutdown(&self) -> (r: Result<PortWrite, PowerError>)
        ensures
            self.enabled(PowerStandard::Acpi) ==> r == Ok::<PortWrite, PowerError>(acpi_shutdown_write()),
            !self.enabled(PowerStandard::Acpi) ==> r == Err::<PortWrite, PowerError>(PowerError::NotSupported),
    {
        match &self.acpi {
            Some(acpi) => acpi.shutdown(),
            None => Err(PowerError::NotSupported),
        }
    }

    /// Resets the machine; needs the ACPI driver.
    pub fn reboot(&self) -> (r: Result<PortWrite, PowerError>)
        ensures
            self.enabled(PowerStandard::Acpi) ==> r == Ok::<PortWrite, PowerError>(reset_write()),
            !self.enabled(PowerStandard::Acpi) ==> r == Err::<PortWrite, PowerError>(PowerError::NotSupported),
    {
        match &self.acpi {
            Some(acpi) => acpi.reboot(),
            None => Err(PowerError::NotSupported),
        }
    }

    /// Enters `state` through `standard`.
    pub fn set_power_state(&self, standard: PowerStandard, state: PowerState) -> (r: Result<PortWrite, PowerError>)
        ensures
            self.enabled(standard) ==> r == standard_state_write(standard, state),
            !self.enabled(standard) ==> r == Err::<PortWrite, PowerError>(PowerError::NotSupported),
    {
        match standard {
            PowerStandard::Acpi => match &self.acpi {
                Some(m) => m.set_power_state(state),
                None => Err(PowerError::NotSupported),
            },
            PowerStandard::IntelSpeedStep => match &self.speedstep {
                Some(m) => m.set_power_state(state),
                None => Err(PowerError::NotSupported),
            },
            PowerStandard::AmdPowerNow => match &self.powernow {
                Some(m) => m.set_power_state(state),
                None => Err(PowerError::NotSupported),
            },
        }
    }
}

/// The controller used at boot: every driver enabled.
pub fn init_x86_power_management() -> (r: X86PowerController)
    ensures
        r.enabled(PowerStandard::Acpi),
        r.enabled(PowerStandard::IntelSpeedStep),
        r.enabled(PowerStandard::AmdPowerNow),
{
    X86PowerController::new(true, true, true)
}

/// The kernel's shutdown request.
pub fn karnal_shutdown() -> (r: Result<PortWrite, PowerError>)
    ensures
        r == Ok::<PortWrite, PowerError>(acpi_shutdown_write()),
{
    let power = init_x86_power_management();
    power.shutdown()
}

/// The kernel's reboot request.
pub fn karnal_reboot() -> (r: Result<PortWrite, PowerError>)
    ensures
        r == Ok::<PortWrite, PowerError>(reset_write()),
{
    let power = init_x86_power_management();
    power.reboot()
}

} // verus!
