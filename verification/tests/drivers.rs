use karnal_arch::amd64::power as xpower;
use karnal_arch::amd64::security as xsec;
use karnal_arch::amd64::shutdown as xshut;
use karnal_arch::amd64::shutdown::PowerManager;
use karnal_arch::armv9::security as asec;
use karnal_arch::armv9::shutdown as ashut;
use karnal_arch::loongarch64::power as lpower;
use karnal_arch::loongarch64::security as lsec;
use karnal_arch::resource::{ResourceName, ResourceSession, SessionOutcome, SessionPhase};

fn is_fresh(s: &ResourceSession, resource: ResourceName, command: Option<&str>, query: bool) -> bool {
    s.resource == resource && s.command == command && s.query == query && s.phase == SessionPhase::Idle
}

#[test]
fn amd64_acpi_commands() {
    let m = xpower::AcpiManager;
    assert!(is_fresh(&m.set_power_state(xpower::PowerState::Sleep), ResourceName::Power, Some("acpi_sleep"), false));
    assert!(is_fresh(&m.set_power_state(xpower::PowerState::Hibernate), ResourceName::Power, Some("acpi_hibernate"), false));
    assert!(is_fresh(&m.set_power_state(xpower::PowerState::PowerOff), ResourceName::Power, Some("acpi_poweroff"), false));
    assert!(is_fresh(&m.set_power_state(xpower::PowerState::Performance), ResourceName::Power, None, false));
}

#[test]
fn amd64_speedstep_and_powernow_commands() {
    let s = xpower::SpeedStepManager;
    assert_eq!(s.set_power_state(xpower::PowerState::Performance).command, Some("speedstep_performance"));
    assert_eq!(s.set_power_state(xpower::PowerState::Powersave).command, Some("speedstep_powersave"));
    assert_eq!(s.set_power_state(xpower::PowerState::Sleep).command, None);
    let p = xpower::PowerNowManager;
    assert_eq!(p.set_power_state(xpower::PowerState::Performance).command, Some("powernow_performance"));
    assert_eq!(p.set_power_state(xpower::PowerState::Powersave).command, Some("powernow_powersave"));
    assert_eq!(p.set_power_state(xpower::PowerState::PowerOff).command, None);
}

#[test]
fn amd64_disabled_driver_is_not_supported() {
    let c = xpower::X86PowerController::new(false, true, false);
    assert!(matches!(
        c.set_power_state(xpower::PowerStandard::Acpi, xpower::PowerState::Sleep),
        Err(xpower::PowerError::NotSupported)
    ));
    let s = c.set_power_state(xpower::PowerStandard::IntelSpeedStep, xpower::PowerState::Powersave).unwrap();
    assert_eq!(s.command, Some("speedstep_powersave"));
    assert_eq!(xpower::set_x86_power(xpower::PowerStandard::AmdPowerNow, xpower::PowerState::Performance).command,
        Some("powernow_performance"));
}

#[test]
fn amd64_power_results_and_codes() {
    assert_eq!(xpower::finish_power_request(SessionOutcome::Done), Ok(()));
    assert_eq!(xpower::finish_power_request(SessionOutcome::NotSupported), Err(xpower::PowerError::NotSupported));
    assert_eq!(xpower::finish_power_request(SessionOutcome::Failed), Err(xpower::PowerError::InternalError));
    assert_eq!(xpower::PowerError::NotSupported.code(), -1);
    assert_eq!(xpower::PowerError::InternalError.code(), -2);
    assert_eq!(xpower::PowerError::InvalidState.code(), -3);
}

#[test]
fn amd64_security_commands() {
    assert_eq!(xsec::security_feature_cmd(xsec::SecurityFeature::IntelVtx, true), "enable_vtx");
    assert_eq!(xsec::security_feature_cmd(xsec::SecurityFeature::AmdSev, false), "disable_sev");
    assert_eq!(xsec::security_feature_cmd(xsec::SecurityFeature::NxBit, true), "enable_nx");
    let e = xsec::enable_security_feature(xsec::SecurityFeature::Tpm);
    assert!(is_fresh(&e, ResourceName::Security, Some("enable_tpm"), false));
    let d = xsec::disable_security_feature(xsec::SecurityFeature::IntelVpro);
    assert!(is_fresh(&d, ResourceName::Security, Some("disable_vpro"), false));
    let q = xsec::is_security_feature_enabled(xsec::SecurityFeature::AmdPsp);
    assert!(is_fresh(&q, ResourceName::Security, Some("query_psp"), true));
    assert_eq!(xsec::X86SecurityManager.query_feature(xsec::SecurityFeature::IntelMe).command, Some("query_me"));
}

#[test]
fn amd64_security_results() {
    assert_eq!(xsec::finish_query_request(SessionOutcome::Status(true)), Ok(true));
    assert_eq!(xsec::finish_query_request(SessionOutcome::Status(false)), Ok(false));
    assert_eq!(xsec::finish_query_request(SessionOutcome::Failed), Err(xsec::SecurityError::InternalError));
    assert_eq!(xsec::finish_switch_request(SessionOutcome::Done), Ok(()));
    assert_eq!(xsec::finish_switch_request(SessionOutcome::Failed), Err(xsec::SecurityError::InternalError));
    assert_eq!(xsec::SecurityError::InvalidOperation.code(), -3);
}

#[test]
fn amd64_shutdown_and_reboot_writes() {
    assert_eq!(xshut::karnal_shutdown(), Ok(xshut::PortWrite::Word { port: 0xB004, word: 0x2000 }));
    assert_eq!(xshut::karnal_reboot(), Ok(xshut::PortWrite::Byte { port: 0x64, byte: 0xFE }));
    let c = xshut::X86PowerController::new(false, true, true);
    assert_eq!(c.shutdown(), Err(xshut::PowerError::NotSupported));
    assert_eq!(c.reboot(), Err(xshut::PowerError::NotSupported));
}

#[test]
fn amd64_shutdown_power_states() {
    let c = xshut::init_x86_power_management();
    assert_eq!(
        c.set_power_state(xshut::PowerStandard::Acpi, xshut::PowerState::PowerOff),
        Ok(xshut::PortWrite::Word { port: 0xB004, word: 0x2000 })
    );
    assert_eq!(c.set_power_state(xshut::PowerStandard::Acpi, xshut::PowerState::Sleep), Err(xshut::PowerError::NotSupported));
    assert_eq!(
        c.set_power_state(xshut::PowerStandard::IntelSpeedStep, xshut::PowerState::PowerOff),
        Err(xshut::PowerError::NotSupported)
    );
    assert_eq!(xshut::PowerNowManager.reboot(), Err(xshut::PowerError::NotSupported));
    assert_eq!(xshut::AcpiManager.set_power_state(xshut::PowerState::Hibernate), Err(xshut::PowerError::NotSupported));
}

#[test]
fn armv9_trustzone_requests() {
    assert!(is_fresh(&asec::enable_trustzone(), ResourceName::Security, Some("enable_trustzone"), false));
    assert!(is_fresh(&asec::disable_trustzone(), ResourceName::Security, Some("disable_trustzone"), false));
    assert!(is_fresh(&asec::is_trustzone_enabled(), ResourceName::Security, Some("query_trustzone"), true));
    assert_eq!(asec::finish_query_request(SessionOutcome::Status(true)), Ok(true));
    assert_eq!(asec::finish_switch_request(SessionOutcome::Failed), Err(asec::SecurityError::InternalError));
}

#[test]
fn armv9_shutdown_per_standard() {
    let c = ashut::ArmPowerController::new(true, false, true, true, false);
    assert_eq!(c.shutdown(ashut::PowerStandard::Acpi).unwrap().command, Some("acpi_poweroff"));
    assert!(matches!(c.shutdown(ashut::PowerStandard::Scmi), Err(ashut::PowerError::NotSupported)));
    assert_eq!(c.shutdown(ashut::PowerStandard::Bsa).unwrap().command, Some("bsa_poweroff"));
    assert!(matches!(c.shutdown(ashut::PowerStandard::Bbr), Err(ashut::PowerError::NotSupported)));
    assert_eq!(c.reboot().unwrap().command, Some("psci_reboot"));
    let no_psci = ashut::ArmPowerController::new(true, true, false, true, true);
    assert!(matches!(no_psci.reboot(), Err(ashut::PowerError::NotSupported)));
    assert_eq!(ashut::karnal_shutdown(ashut::PowerStandard::Scmi).unwrap().command, Some("scmi_poweroff"));
    assert_eq!(ashut::karnal_reboot().unwrap().command, Some("psci_reboot"));
    assert_eq!(ashut::PsciManager.shutdown().command, Some("psci_poweroff"));
    assert_eq!(ashut::BbrManager.shutdown().command, Some("bbr_poweroff"));
}

#[test]
fn armv9_power_states() {
    let c = ashut::ArmPowerController::new(false, false, false, false, false);
    assert_eq!(c.set_power_state(ashut::PowerStandard::Acpi, ashut::PowerState::Sleep).command, Some("acpi_sleep"));
    assert_eq!(c.set_power_state(ashut::PowerStandard::Acpi, ashut::PowerState::Hibernate).command, Some("acpi_hibernate"));
    assert_eq!(c.set_power_state(ashut::PowerStandard::Psci, ashut::PowerState::Sleep).command, Some("psci_suspend"));
    assert_eq!(c.set_power_state(ashut::PowerStandard::Bsa, ashut::PowerState::PowerOff).command, Some("bsa_poweroff"));
    assert_eq!(c.set_power_state(ashut::PowerStandard::Scmi, ashut::PowerState::Sleep).command, None);
    assert_eq!(c.set_power_state(ashut::PowerStandard::Bbr, ashut::PowerState::Hibernate).command, None);
    assert_eq!(ashut::finish_power_request(SessionOutcome::NotSupported), Err(ashut::PowerError::NotSupported));
}

#[test]
fn loongarch_power_commands() {
    assert_eq!(lpower::set_loongarch_power(lpower::PowerState::Sleep).command, Some("sleep"));
    assert_eq!(lpower::set_loongarch_power(lpower::PowerState::Hibernate).command, Some("hibernate"));
    assert_eq!(lpower::set_loongarch_power(lpower::PowerState::PowerOff).command, Some("poweroff"));
    assert_eq!(lpower::LoongarchPowerManager.set_power_state(lpower::PowerState::Performance).command, Some("performance"));
    assert_eq!(lpower::LoongarchPowerManager.set_power_state(lpower::PowerState::Powersave).command, Some("powersave"));
    assert_eq!(lpower::finish_power_request(SessionOutcome::Failed), Err(lpower::PowerError::InternalError));
}

#[test]
fn loongarch_security_commands() {
    assert_eq!(lsec::enable_security_mechanism(lsec::SecurityMechanism::SecureMonitor).command, Some("enable_smon"));
    assert_eq!(lsec::disable_security_mechanism(lsec::SecurityMechanism::CryptoAccel).command, Some("disable_crypto"));
    assert_eq!(lsec::disable_security_mechanism(lsec::SecurityMechanism::SecureBoot).command, Some("disable_secureboot"));
    let q = lsec::is_security_mechanism_enabled(lsec::SecurityMechanism::NxBit);
    assert!(is_fresh(&q, ResourceName::Security, Some("query_nxbit"), true));
    assert_eq!(lsec::finish_query_request(SessionOutcome::Status(false)), Ok(false));
    assert_eq!(lsec::SecurityError::NotSupported.code(), -1);
}
