use supergfxctl::actions::{Action, StagedAction, UserActionRequired};
use supergfxctl::config::GfxConfig;
use supergfxctl::error::GfxError;
use supergfxctl::pci_device::{GfxMode, GfxVendor, HotplugType};

const MODES: [GfxMode; 7] = [
    GfxMode::Hybrid,
    GfxMode::Integrated,
    GfxMode::NvidiaNoModeset,
    GfxMode::Vfio,
    GfxMode::AsusEgpu,
    GfxMode::AsusMuxDgpu,
    GfxMode::Unknown,
];

fn config(no_logind: bool, always_reboot: bool, hotplug_type: HotplugType) -> GfxConfig {
    GfxConfig {
        config_path: String::new(),
        mode: GfxMode::Hybrid,
        tmp_mode: None,
        pending_mode: None,
        pending_action: None,
        vfio_enable: false,
        vfio_save: false,
        always_reboot,
        no_logind,
        logout_timeout_s: 180,
        hotplug_type,
    }
}

fn staged(a: Action) -> Vec<StagedAction> {
    match a {
        Action::StagedActions(v) => v,
        Action::UserAction(u) => panic!("expected actions, got {u:?}"),
    }
}

fn user(a: Action) -> UserActionRequired {
    match a {
        Action::UserAction(u) => u,
        Action::StagedActions(v) => panic!("expected a user action, got {v:?}"),
    }
}

#[test]
fn integrated_and_vfio_need_no_logout() {
    assert_eq!(
        UserActionRequired::mode_change_action(GfxMode::Vfio, GfxMode::Integrated),
        UserActionRequired::Nothing
    );
    assert_eq!(
        UserActionRequired::mode_change_action(GfxMode::Integrated, GfxMode::Vfio),
        UserActionRequired::Nothing
    );
}

#[test]
fn same_mode_needs_nothing() {
    for m in MODES {
        assert_eq!(UserActionRequired::mode_change_action(m, m), UserActionRequired::Nothing);
    }
}

#[test]
fn mux_change_needs_reboot() {
    for m in MODES {
        if m == GfxMode::AsusMuxDgpu || m == GfxMode::Unknown {
            continue;
        }
        assert_eq!(UserActionRequired::mode_change_action(GfxMode::AsusMuxDgpu, m), UserActionRequired::Reboot);
        assert_eq!(UserActionRequired::mode_change_action(m, GfxMode::AsusMuxDgpu), UserActionRequired::Reboot);
    }
}

#[test]
fn mode_change_action_table_samples() {
    assert_eq!(UserActionRequired::mode_change_action(GfxMode::Hybrid, GfxMode::Integrated), UserActionRequired::Logout);
    assert_eq!(UserActionRequired::mode_change_action(GfxMode::Hybrid, GfxMode::Vfio), UserActionRequired::SwitchToIntegrated);
    assert_eq!(UserActionRequired::mode_change_action(GfxMode::Hybrid, GfxMode::NvidiaNoModeset), UserActionRequired::Nothing);
    assert_eq!(UserActionRequired::mode_change_action(GfxMode::Integrated, GfxMode::Hybrid), UserActionRequired::Logout);
    assert_eq!(UserActionRequired::mode_change_action(GfxMode::Integrated, GfxMode::AsusEgpu), UserActionRequired::Logout);
    assert_eq!(UserActionRequired::mode_change_action(GfxMode::NvidiaNoModeset, GfxMode::AsusEgpu), UserActionRequired::Logout);
    assert_eq!(UserActionRequired::mode_change_action(GfxMode::NvidiaNoModeset, GfxMode::Hybrid), UserActionRequired::Nothing);
    assert_eq!(UserActionRequired::mode_change_action(GfxMode::Vfio, GfxMode::Hybrid), UserActionRequired::Logout);
    assert_eq!(UserActionRequired::mode_change_action(GfxMode::AsusEgpu, GfxMode::Vfio), UserActionRequired::SwitchToIntegrated);
    assert_eq!(UserActionRequired::mode_change_action(GfxMode::AsusEgpu, GfxMode::NvidiaNoModeset), UserActionRequired::Logout);
    assert_eq!(UserActionRequired::mode_change_action(GfxMode::AsusEgpu, GfxMode::Unknown), UserActionRequired::Nothing);
    assert_eq!(UserActionRequired::mode_change_action(GfxMode::Unknown, GfxMode::Hybrid), UserActionRequired::Nothing);
    assert_eq!(UserActionRequired::mode_change_action(GfxMode::AsusMuxDgpu, GfxMode::Unknown), UserActionRequired::Nothing);
}

#[test]
fn user_action_names_and_messages() {
    assert_eq!(UserActionRequired::Logout.name(), "Logout");
    assert_eq!(UserActionRequired::AsusEgpuDisable.name(), "AsusEgpuDisable");
    assert_eq!(UserActionRequired::Reboot.message(), "Reboot required to complete mode change");
    assert_eq!(UserActionRequired::Nothing.message(), "No action required");
    assert_eq!(
        UserActionRequired::AsusEgpuDisable.message(),
        "The mode must be switched to Integrated or Hybrid first"
    );
    assert_eq!(UserActionRequired::SwitchToIntegrated.message(), "You must switch to Integrated first");
}

#[test]
fn boot_list_hybrid_nvidia_asus() {
    let c = config(false, false, HotplugType::Asus);
    let l = StagedAction::action_list_for_boot(&c, GfxVendor::Nvidia, GfxMode::Hybrid);
    assert_eq!(
        l,
        vec![
            StagedAction::WriteModprobeConf,
            StagedAction::CheckVulkanIcd,
            StagedAction::AsusDgpuEnable,
            StagedAction::RescanPci,
            StagedAction::LoadGpuDrivers,
            StagedAction::EnableNvidiaPersistenced,
            StagedAction::EnableNvidiaPowerd,
        ]
    );
}

#[test]
fn boot_list_integrated_amd_std() {
    let c = config(false, false, HotplugType::Std);
    let l = StagedAction::action_list_for_boot(&c, GfxVendor::Amd, GfxMode::Integrated);
    assert_eq!(
        l,
        vec![
            StagedAction::NotNvidia,
            StagedAction::NotNvidia,
            StagedAction::KillAmd,
            StagedAction::UnloadGpuDrivers,
            StagedAction::UnbindRemoveGpu,
            StagedAction::WriteModprobeConf,
            StagedAction::CheckVulkanIcd,
            StagedAction::HotplugUnplug,
        ]
    );
}

#[test]
fn boot_list_vfio_and_unknown() {
    let c = config(false, false, HotplugType::NoHotplug);
    let l = StagedAction::action_list_for_boot(&c, GfxVendor::Intel, GfxMode::Vfio);
    assert_eq!(
        l,
        vec![
            StagedAction::NotNvidia,
            StagedAction::NotNvidia,
            StagedAction::KillAmd,
            StagedAction::UnloadGpuDrivers,
            StagedAction::WriteModprobeConf,
            StagedAction::CheckVulkanIcd,
            StagedAction::LoadVfioDrivers,
        ]
    );
    assert!(StagedAction::action_list_for_boot(&c, GfxVendor::Nvidia, GfxMode::Unknown).is_empty());
    let egpu = StagedAction::action_list_for_boot(&c, GfxVendor::Nvidia, GfxMode::AsusEgpu);
    let mux = StagedAction::action_list_for_boot(&c, GfxVendor::Nvidia, GfxMode::AsusMuxDgpu);
    assert_eq!(egpu, mux);
    assert_eq!(egpu.len(), 5);
}

#[test]
fn switch_hybrid_to_integrated_with_logind() {
    let c = config(false, false, HotplugType::Asus);
    let l = staged(StagedAction::action_list_for_switch(&c, GfxVendor::Nvidia, GfxMode::Hybrid, GfxMode::Integrated));
    assert_eq!(
        l,
        vec![
            StagedAction::WaitLogout,
            StagedAction::StopDisplayManager,
            StagedAction::DisableNvidiaPowerd,
            StagedAction::KillNvidia,
            StagedAction::UnloadGpuDrivers,
            StagedAction::UnbindRemoveGpu,
            StagedAction::WriteModprobeConf,
            StagedAction::CheckVulkanIcd,
            StagedAction::AsusDgpuDisable,
            StagedAction::StartDisplayManager,
        ]
    );
}

#[test]
fn switch_always_reboot_uses_no_logind_markers() {
    let c = config(false, true, HotplugType::Std);
    let l = staged(StagedAction::action_list_for_switch(&c, GfxVendor::Amd, GfxMode::Integrated, GfxMode::Hybrid));
    assert_eq!(
        l,
        vec![
            StagedAction::NoLogind,
            StagedAction::NoLogind,
            StagedAction::WriteModprobeConf,
            StagedAction::CheckVulkanIcd,
            StagedAction::HotplugPlug,
            StagedAction::RescanPci,
            StagedAction::LoadGpuDrivers,
            StagedAction::EnableNvidiaPowerd,
            StagedAction::NoLogind,
        ]
    );
}

#[test]
fn switch_user_actions() {
    let c = config(false, false, HotplugType::NoHotplug);
    let v = GfxVendor::Nvidia;
    assert_eq!(
        user(StagedAction::action_list_for_switch(&c, v, GfxMode::Hybrid, GfxMode::Vfio)),
        UserActionRequired::SwitchToIntegrated
    );
    assert_eq!(
        user(StagedAction::action_list_for_switch(&c, v, GfxMode::AsusEgpu, GfxMode::AsusMuxDgpu)),
        UserActionRequired::AsusEgpuDisable
    );
    for m in MODES {
        assert_eq!(user(StagedAction::action_list_for_switch(&c, v, m, m)), UserActionRequired::Nothing);
        assert_eq!(
            user(StagedAction::action_list_for_switch(&c, v, GfxMode::Unknown, m)),
            UserActionRequired::Nothing
        );
    }
}

#[test]
fn leaving_mux_only_moves_the_mux() {
    let c = config(true, false, HotplugType::Asus);
    for m in MODES {
        if m == GfxMode::AsusMuxDgpu {
            continue;
        }
        let l = staged(StagedAction::action_list_for_switch(&c, GfxVendor::Nvidia, GfxMode::AsusMuxDgpu, m));
        assert_eq!(l, vec![StagedAction::AsusMuxIgpu]);
    }
}

#[test]
fn switch_egpu_to_integrated_unloads_twice() {
    let c = config(true, false, HotplugType::NoHotplug);
    let l = staged(StagedAction::action_list_for_switch(&c, GfxVendor::Nvidia, GfxMode::AsusEgpu, GfxMode::Integrated));
    assert_eq!(l.len(), 15);
    assert_eq!(l[8], StagedAction::AsusEgpuDisable);
    assert_eq!(l[9], StagedAction::UnloadGpuDrivers);
    assert_eq!(l[13], StagedAction::DevTreeManaged);
    assert_eq!(l[14], StagedAction::NoLogind);
}

#[test]
fn switch_vfio_to_integrated_unknown_vendor() {
    let c = config(false, false, HotplugType::NoHotplug);
    let l = staged(StagedAction::action_list_for_switch(&c, GfxVendor::Unknown, GfxMode::Vfio, GfxMode::Integrated));
    assert_eq!(l, vec![StagedAction::NotNvidia, StagedAction::UnloadVfioDrivers, StagedAction::UnbindRemoveGpu]);
}

#[test]
fn order_checks_report_the_pair() {
    match StagedAction::LoadGpuDrivers.verify_previous_action_for_current(StagedAction::WaitLogout) {
        Err(GfxError::IncorrectActionOrder(a, b)) => {
            assert_eq!(a, StagedAction::LoadGpuDrivers);
            assert_eq!(b, StagedAction::WaitLogout);
        }
        other => panic!("unexpected {other:?}"),
    }
    assert!(StagedAction::LoadGpuDrivers.verify_previous_action_for_current(StagedAction::RescanPci).is_ok());
    match StagedAction::WaitLogout.verify_next_allowed_action(StagedAction::RescanPci) {
        Err(GfxError::IncorrectActionOrder(a, b)) => {
            assert_eq!(a, StagedAction::RescanPci);
            assert_eq!(b, StagedAction::WaitLogout);
        }
        other => panic!("unexpected {other:?}"),
    }
    assert!(StagedAction::AsusMuxIgpu.verify_next_allowed_action(StagedAction::NoAction).is_err());
    assert!(StagedAction::CheckVulkanIcd.verify_next_allowed_action(StagedAction::KillAmd).is_ok());
}
