use supergfxctl::actions::{
    graphical_user_sessions_exist, logout_wait_step, rescan_pci, Action, LogoutWait, PciRescan,
    SessionClassKind, SessionFacts, SessionKind, SessionStateKind, StagedAction, UserActionRequired,
};
use supergfxctl::config::{GfxConfig, GfxConfigDbus};
use supergfxctl::controller::{
    action_failure_stops, apply_dbus_config, begin_mode_change, boot_tasks, dbus_config, dbus_mode, dbus_power,
    dbus_supported, disable_dgpu_on_wake, finish_mode_change, get_gfx_mode, get_pending_mode,
    get_pending_user_action, get_supported_modes, mode_support_check, reload_mode, PlatformSupport,
};
use supergfxctl::error::GfxError;
use supergfxctl::pci_device::{Device, DiscreetGpu, GfxMode, GfxPower, GfxVendor, HotplugType, PciEntry};
use supergfxctl::special_asus::{AsusGpuMuxMode, AsusState};
use supergfxctl::systemd::{
    check_systemd_unit_active, check_systemd_unit_enabled, is_systemd_unit_state, unit_wait_step,
    SystemdUnitAction, SystemdUnitState, UnitWait,
};

fn asus() -> AsusState {
    AsusState {
        dgpu_disable_exists: false,
        dgpu_disabled: Ok(false),
        gpu_mux_exists: false,
        gpu_mux_mode: Ok(AsusGpuMuxMode::Optimus),
        egpu_enable_exists: false,
        egpu_enabled: Ok(false),
    }
}

fn platform() -> PlatformSupport {
    PlatformSupport { dgpu_disable_exists: false, egpu_enable_exists: false, gpu_mux_exists: false, nvidia_modeset: None }
}

fn session(class: SessionClassKind, kind: SessionKind, state: SessionStateKind) -> SessionFacts {
    SessionFacts { class: Some(class), kind: Some(kind), state: Some(state) }
}

#[test]
fn current_and_pending() {
    let mut c = GfxConfig::new("/p".to_string());
    assert_eq!(get_gfx_mode(&c), GfxMode::Hybrid);
    c.tmp_mode = Some(GfxMode::Vfio);
    assert_eq!(get_gfx_mode(&c), GfxMode::Vfio);
    assert_eq!(get_pending_mode(&c), GfxMode::Unknown);
    assert_eq!(get_pending_user_action(&c), UserActionRequired::Nothing);
}

#[test]
fn supported_modes() {
    let mut c = GfxConfig::new("/p".to_string());
    assert_eq!(get_supported_modes(GfxVendor::Unknown, platform(), &c), vec![GfxMode::Integrated]);
    c.vfio_enable = true;
    let p = PlatformSupport { dgpu_disable_exists: true, egpu_enable_exists: true, gpu_mux_exists: true, nvidia_modeset: Some(false) };
    assert_eq!(
        get_supported_modes(GfxVendor::Unknown, p, &c),
        vec![GfxMode::Integrated, GfxMode::Hybrid, GfxMode::Vfio, GfxMode::AsusEgpu, GfxMode::AsusMuxDgpu, GfxMode::NvidiaNoModeset]
    );
    let p = PlatformSupport { nvidia_modeset: Some(true), ..platform() };
    c.vfio_enable = false;
    assert_eq!(get_supported_modes(GfxVendor::Nvidia, p, &c), vec![GfxMode::Integrated, GfxMode::Hybrid]);
    assert_eq!(
        dbus_supported(Some(AsusGpuMuxMode::Discreet), GfxVendor::Nvidia, p, &c),
        vec![GfxMode::AsusMuxDgpu, GfxMode::Integrated, GfxMode::Hybrid]
    );
}

#[test]
fn egpu_support_check() {
    assert!(mode_support_check(GfxMode::AsusEgpu, true).is_ok());
    assert!(mode_support_check(GfxMode::Hybrid, false).is_ok());
    assert!(matches!(mode_support_check(GfxMode::AsusEgpu, false), Err(GfxError::NotSupported(_))));
}

#[test]
fn reload() {
    let mut c = GfxConfig::new("/p".to_string());
    assert_eq!(reload_mode(&mut c, None, false), Some(GfxMode::Hybrid));
    assert_eq!(reload_mode(&mut c, Some(GfxMode::Integrated), false), Some(GfxMode::Integrated));
    assert_eq!(c.mode, GfxMode::Integrated);
    assert_eq!(reload_mode(&mut c, Some(GfxMode::Vfio), false), None);
    assert_eq!(c.mode, GfxMode::Vfio);
    c.vfio_enable = true;
    assert_eq!(reload_mode(&mut c, None, false), Some(GfxMode::Vfio));
    assert_eq!(reload_mode(&mut c, Some(GfxMode::AsusEgpu), false), None);
    assert_eq!(reload_mode(&mut c, Some(GfxMode::AsusEgpu), true), Some(GfxMode::AsusEgpu));
}

#[test]
fn boot() {
    let mut c = GfxConfig::new("/p".to_string());
    let (mode, actions) = boot_tasks(&mut c, GfxVendor::Nvidia, GfxMode::Hybrid, Some(GfxMode::Integrated));
    assert_eq!(mode, GfxMode::Integrated);
    assert_eq!(c.mode, GfxMode::Integrated);
    assert_eq!(actions, StagedAction::action_list_for_boot(&c, GfxVendor::Nvidia, GfxMode::Integrated));
    let (mode, _) = boot_tasks(&mut c, GfxVendor::Nvidia, GfxMode::Hybrid, None);
    assert_eq!(mode, GfxMode::Hybrid);
    assert_eq!(c.mode, GfxMode::Integrated);
}

#[test]
fn mode_change_success_and_failure() {
    let mut c = GfxConfig::new("/p".to_string());
    let (ua, actions) = begin_mode_change(&mut c, GfxVendor::Nvidia, GfxMode::Integrated);
    assert_eq!(ua, UserActionRequired::Logout);
    assert!(matches!(actions, Action::StagedActions(_)));
    assert_eq!(c.pending_mode, Some(GfxMode::Integrated));
    assert_eq!(c.pending_action, Some(UserActionRequired::Logout));
    assert!(finish_mode_change(&mut c, GfxVendor::Nvidia, GfxMode::Integrated, false).is_none());
    assert_eq!(c.mode, GfxMode::Integrated);
    assert!(c.pending_mode.is_none() && c.pending_action.is_none());

    let mut c = GfxConfig::new("/p".to_string());
    c.always_reboot = true;
    let (ua, _) = begin_mode_change(&mut c, GfxVendor::Nvidia, GfxMode::Integrated);
    assert_eq!(ua, UserActionRequired::Reboot);
    match finish_mode_change(&mut c, GfxVendor::Nvidia, GfxMode::Integrated, true) {
        Some(back) => {
            let expected = StagedAction::action_list_for_switch(&c, GfxVendor::Nvidia, GfxMode::Integrated, GfxMode::Hybrid);
            match (back, expected) {
                (Action::StagedActions(a), Action::StagedActions(b)) => assert_eq!(a, b),
                _ => panic!("expected staged actions"),
            }
        }
        None => panic!("expected a way back"),
    }
    assert_eq!(c.mode, GfxMode::Hybrid);
    assert!(c.pending_mode.is_none());
    assert!(action_failure_stops(&GfxError::SystemdUnitWaitTimeout("x".to_string())));
    assert!(!action_failure_stops(&GfxError::DgpuNotFound));
}

#[test]
fn dbus_answers() {
    let c = GfxConfig::new("/p".to_string());
    assert_eq!(dbus_mode(Some(AsusGpuMuxMode::Discreet), &c), GfxMode::AsusMuxDgpu);
    assert_eq!(dbus_mode(Some(AsusGpuMuxMode::Optimus), &c), GfxMode::Hybrid);
    assert_eq!(dbus_mode(None, &c), GfxMode::Hybrid);
    let gpu = DiscreetGpu::new(Err(GfxError::DgpuNotFound), &asus());
    assert!(matches!(dbus_power(Some(AsusGpuMuxMode::Discreet), &gpu, &asus(), None), Ok(GfxPower::AsusMuxDiscreet)));
    assert!(dbus_power(None, &gpu, &asus(), None).is_err());
}

#[test]
fn dbus_config_update() {
    let mut c = GfxConfig::new("/p".to_string());
    let d = GfxConfigDbus {
        mode: GfxMode::Hybrid,
        vfio_enable: true,
        vfio_save: true,
        always_reboot: true,
        no_logind: true,
        logout_timeout_s: 7,
        hotplug_type: HotplugType::Asus,
    };
    assert_eq!(apply_dbus_config(&mut c, &d), GfxMode::Hybrid);
    assert!(c.vfio_enable && c.vfio_save && c.always_reboot && c.no_logind);
    assert_eq!(c.logout_timeout_s, 7);
    assert_eq!(c.hotplug_type, HotplugType::NoHotplug);
    let d2 = GfxConfigDbus { mode: GfxMode::Integrated, ..d };
    assert_eq!(apply_dbus_config(&mut c, &d2), GfxMode::Integrated);
    assert_eq!(c.mode, GfxMode::Hybrid);
}

#[test]
fn wake_from_suspend() {
    let mut c = GfxConfig::new("/p".to_string());
    c.mode = GfxMode::Integrated;
    assert!(!disable_dgpu_on_wake(&c, true));
    c.hotplug_type = HotplugType::Asus;
    assert!(disable_dgpu_on_wake(&c, true));
    assert!(!disable_dgpu_on_wake(&c, false));
}

#[test]
fn graphical_sessions() {
    assert!(!graphical_user_sessions_exist(&vec![]));
    assert!(!graphical_user_sessions_exist(&vec![
        session(SessionClassKind::User, SessionKind::Other, SessionStateKind::Active),
        session(SessionClassKind::Other, SessionKind::Wayland, SessionStateKind::Active),
        session(SessionClassKind::User, SessionKind::X11, SessionStateKind::Closing),
        SessionFacts { class: Some(SessionClassKind::User), kind: None, state: Some(SessionStateKind::Active) },
    ]));
    assert!(graphical_user_sessions_exist(&vec![
        session(SessionClassKind::User, SessionKind::X11, SessionStateKind::Closing),
        session(SessionClassKind::User, SessionKind::Wayland, SessionStateKind::Online),
    ]));
}

#[test]
fn logout_wait() {
    assert!(matches!(logout_wait_step(false, 100, 180), LogoutWait::LoggedOut));
    assert!(matches!(logout_wait_step(true, 180, 180), LogoutWait::KeepWaiting));
    match logout_wait_step(true, 181, 180) {
        LogoutWait::TimedOut(GfxError::SystemdUnitWaitTimeout(m)) => {
            assert_eq!(m, "Time (180 seconds) for logout exceeded")
        }
        _ => panic!("expected a timeout"),
    }
    match logout_wait_step(true, 31, 30) {
        LogoutWait::TimedOut(GfxError::SystemdUnitWaitTimeout(m)) => {
            assert_eq!(m, "Time (30 seconds) for logout exceeded")
        }
        _ => panic!("expected a timeout"),
    }
    match logout_wait_step(true, 9, 7) {
        LogoutWait::TimedOut(GfxError::SystemdUnitWaitTimeout(m)) => {
            assert_eq!(m, "Time (7 seconds) for logout exceeded")
        }
        _ => panic!("expected a timeout"),
    }
    // a timeout of 0 waits forever
    assert!(matches!(logout_wait_step(true, 1_000_000, 0), LogoutWait::KeepWaiting));
}

#[test]
fn rescan_choice() {
    let gpu = DiscreetGpu::new(Err(GfxError::DgpuNotFound), &asus());
    assert_eq!(rescan_pci(&gpu), PciRescan::FindDevices);
    let entry = PciEntry {
        sysname: "0000:01:00.0".to_string(),
        syspath: "/sys/devices/0000:01:00.0".to_string(),
        pci_id: Some("10DE:28A1".to_string()),
        pci_class: Some("30000".to_string()),
        displays: Vec::new(),
        hwmon_in1_input: None,
        label: Ok(String::new()),
        slot_power: None,
    };
    let gpu = DiscreetGpu::new(Ok(Device::find(&vec![entry]).unwrap()), &asus());
    assert_eq!(rescan_pci(&gpu), PciRescan::RescanBus);
}

#[test]
fn systemd_output() {
    assert!(is_systemd_unit_state(SystemdUnitState::Active, b"active\n"));
    assert!(!is_systemd_unit_state(SystemdUnitState::Active, b"inactive\n"));
    assert!(is_systemd_unit_state(SystemdUnitState::Inactive, b"inactive\n"));
    assert!(!is_systemd_unit_state(SystemdUnitState::Inactive, b"in"));
    assert!(check_systemd_unit_active("active\n"));
    assert!(!check_systemd_unit_active("inactive\n"));
    assert!(!check_systemd_unit_active("failed\n"));
    assert!(check_systemd_unit_enabled("enabled\n"));
    assert!(!check_systemd_unit_enabled("disabled\n"));
    assert_eq!(SystemdUnitAction::Restart.as_str(), "restart");
    assert!(matches!(unit_wait_step(SystemdUnitState::Active, 0, true), UnitWait::Done));
    assert!(matches!(unit_wait_step(SystemdUnitState::Active, 3, false), UnitWait::CheckAgain(4)));
    match unit_wait_step(SystemdUnitState::Inactive, 12, false) {
        UnitWait::TimedOut(GfxError::SystemdUnitWaitTimeout(m)) => assert_eq!(m, "inactive"),
        _ => panic!("expected a timeout"),
    }
}

#[test]
fn mode_change_reads_back() {
    let mut c = GfxConfig::new("/p".to_string());
    let (ua, _) = begin_mode_change(&mut c, GfxVendor::Nvidia, GfxMode::Integrated);
    assert_eq!(get_pending_mode(&c), GfxMode::Integrated);
    assert_eq!(get_pending_user_action(&c), ua);
    finish_mode_change(&mut c, GfxVendor::Nvidia, GfxMode::Integrated, false);
    assert_eq!(get_gfx_mode(&c), GfxMode::Integrated);
    assert_eq!(get_pending_mode(&c), GfxMode::Unknown);
    assert_eq!(get_pending_user_action(&c), UserActionRequired::Nothing);
}

#[test]
fn dbus_config_reads_back() {
    let mut c = GfxConfig::new("/p".to_string());
    c.mode = GfxMode::Vfio;
    c.hotplug_type = HotplugType::Std;
    let d = GfxConfigDbus {
        mode: GfxMode::Hybrid,
        vfio_enable: true,
        vfio_save: false,
        always_reboot: true,
        no_logind: false,
        logout_timeout_s: 42,
        hotplug_type: HotplugType::Asus,
    };
    apply_dbus_config(&mut c, &d);
    let back = dbus_config(&c);
    assert_eq!(back, GfxConfigDbus { mode: GfxMode::Vfio, hotplug_type: HotplugType::Std, ..d });
}
