use supergfxctl::actions::UserActionRequired;
use supergfxctl::config::{
    check_vulkan_icd, create_modprobe_conf, create_vfio_conf, GfxConfig, GfxConfigDbus, StoredConfig,
    CONFIG_NVIDIA_VKICD, CONFIG_NVIDIA_VKICD_INACTIVE, MODPROBE_INTEGRATED, MODPROBE_NVIDIA_BASE,
    MODPROBE_NVIDIA_DRM_MODESET_ON, MODPROBE_NVIDIA_EC_BKLT, MODPROBE_PATH, MODPROBE_VFIO,
};
use supergfxctl::config_old::{GfxConfig300, GfxConfig402, GfxConfig405, GfxConfig500, GfxMode300};
use supergfxctl::error::GfxError;
use supergfxctl::pci_device::{Device, DiscreetGpu, GfxMode, HotplugType, PciEntry};
use supergfxctl::special_asus::{AsusGpuMuxMode, AsusState};

fn no_asus() -> AsusState {
    AsusState {
        dgpu_disable_exists: false,
        dgpu_disabled: Ok(false),
        gpu_mux_exists: false,
        gpu_mux_mode: Ok(AsusGpuMuxMode::Optimus),
        egpu_enable_exists: false,
        egpu_enabled: Ok(false),
    }
}

fn gpu_entry(sysname: &str, id: &str, class: &str) -> PciEntry {
    PciEntry {
        sysname: sysname.to_string(),
        syspath: format!("/sys/devices/{sysname}"),
        pci_id: Some(id.to_string()),
        pci_class: Some(class.to_string()),
        displays: Vec::new(),
        hwmon_in1_input: None,
        label: Ok(String::new()),
        slot_power: None,
    }
}

fn nvidia_gpu() -> DiscreetGpu {
    let entries = vec![gpu_entry("0000:01:00.0", "10DE:28A1", "30000"), gpu_entry("0000:01:00.1", "10DE:22BE", "40300")];
    DiscreetGpu::new(Ok(Device::find(&entries).unwrap()), &no_asus())
}

#[test]
fn default_config() {
    let c = GfxConfig::new("/etc/supergfxd.conf".to_string());
    assert_eq!(c.config_path, "/etc/supergfxd.conf");
    assert_eq!(c.mode, GfxMode::Hybrid);
    assert_eq!(c.logout_timeout_s, 180);
    assert_eq!(c.hotplug_type, HotplugType::NoHotplug);
    assert!(!c.vfio_enable && !c.vfio_save && !c.always_reboot && !c.no_logind);
    assert!(c.tmp_mode.is_none() && c.pending_mode.is_none() && c.pending_action.is_none());
}

#[test]
fn load_current_and_old_formats() {
    let mut stored = GfxConfig::new(String::new());
    stored.mode = GfxMode::Integrated;
    stored.hotplug_type = HotplugType::Asus;
    stored.no_logind = true;
    let c = GfxConfig::load("/p".to_string(), StoredConfig::Current(stored));
    assert_eq!(c.config_path, "/p");
    assert_eq!(c.mode, GfxMode::Integrated);
    assert_eq!(c.hotplug_type, HotplugType::Asus);
    assert!(c.no_logind);

    let old = GfxConfig300 { gfx_mode: GfxMode::Vfio, gfx_managed: true, gfx_vfio_enable: true };
    let c = GfxConfig::load("/p".to_string(), StoredConfig::V300(old));
    assert_eq!(c.mode, GfxMode::Vfio);
    assert!(c.vfio_enable && !c.vfio_save);
    assert_eq!(c.config_path, "/p");

    let old = GfxConfig500 {
        mode: GfxMode::AsusEgpu,
        vfio_enable: false,
        vfio_save: true,
        compute_save: false,
        always_reboot: true,
        no_logind: true,
        logout_timeout_s: 20,
        hotplug_type: HotplugType::Std,
    };
    let c = GfxConfig::load("/p".to_string(), StoredConfig::V500(old));
    assert_eq!(c.mode, GfxMode::AsusEgpu);
    assert!(c.vfio_save && c.always_reboot);
    // only the mode, VFIO and reboot settings carry over
    assert!(!c.no_logind);
    assert_eq!(c.logout_timeout_s, 180);
    assert_eq!(c.hotplug_type, HotplugType::NoHotplug);

    let c = GfxConfig::load("/p".to_string(), StoredConfig::Unrecognised);
    assert_eq!(c.mode, GfxMode::Hybrid);
    let c = GfxConfig::load("/q".to_string(), StoredConfig::Empty);
    assert_eq!(c.config_path, "/q");
}

#[test]
fn migrations() {
    let c = GfxConfig::from_402(GfxConfig402 {
        mode: GfxMode::Integrated,
        vfio_enable: true,
        vfio_save: false,
        compute_save: true,
        always_reboot: true,
    });
    assert_eq!(c.mode, GfxMode::Integrated);
    assert!(c.vfio_enable && c.always_reboot);
    assert_eq!(c.config_path, "");
    let c = GfxConfig::from_405(GfxConfig405 {
        mode: GfxMode::Hybrid,
        vfio_enable: false,
        vfio_save: false,
        compute_save: false,
        always_reboot: false,
        no_logind: true,
        logout_timeout_s: 5,
    });
    assert!(!c.no_logind);
    assert_eq!(c.logout_timeout_s, 180);
    assert_eq!(GfxMode300::Nvidia.to_mode(), GfxMode::Hybrid);
    assert_eq!(GfxMode300::Compute.to_mode(), GfxMode::Hybrid);
    assert_eq!(GfxMode300::Egpu.to_mode(), GfxMode::AsusEgpu);
    assert_eq!(GfxMode300::Integrated.to_mode(), GfxMode::Integrated);
}

#[test]
fn read_keeps_the_temporary_mode() {
    let mut c = GfxConfig::new("/p".to_string());
    c.tmp_mode = Some(GfxMode::Vfio);
    let mut stored = GfxConfig::new(String::new());
    stored.mode = GfxMode::Integrated;
    stored.pending_action = Some(UserActionRequired::Logout);
    c.read(Some(stored));
    assert_eq!(c.tmp_mode, Some(GfxMode::Vfio));
    assert_eq!(c.mode, GfxMode::Integrated);
    assert_eq!(c.config_path, "");
    let before = c.clone();
    c.read(None);
    assert_eq!(c.mode, before.mode);
    assert_eq!(c.config_path, before.config_path);
}

#[test]
fn dbus_projection() {
    let mut c = GfxConfig::new("/p".to_string());
    c.logout_timeout_s = 42;
    c.hotplug_type = HotplugType::Std;
    let d = GfxConfigDbus::from_config(&c);
    assert_eq!(
        d,
        GfxConfigDbus {
            mode: GfxMode::Hybrid,
            vfio_enable: false,
            vfio_save: false,
            always_reboot: false,
            no_logind: false,
            logout_timeout_s: 42,
            hotplug_type: HotplugType::Std,
        }
    );
}

#[test]
fn vfio_conf_lists_every_device() {
    let gpu = nvidia_gpu();
    let conf = create_vfio_conf(&gpu);
    assert_eq!(conf, format!("{MODPROBE_INTEGRATED}{MODPROBE_VFIO}10DE:28A1,10DE:22BE,"));
}

#[test]
fn modprobe_conf_per_mode() {
    let gpu = nvidia_gpu();
    let w = create_modprobe_conf(GfxMode::Hybrid, &gpu).unwrap();
    assert_eq!(w.path, MODPROBE_PATH);
    assert_eq!(
        w.data,
        format!("{MODPROBE_NVIDIA_BASE}{MODPROBE_NVIDIA_DRM_MODESET_ON}{MODPROBE_NVIDIA_EC_BKLT}")
    );
    let w = create_modprobe_conf(GfxMode::Integrated, &gpu).unwrap();
    assert_eq!(w.data, format!("{MODPROBE_INTEGRATED}{MODPROBE_NVIDIA_DRM_MODESET_ON}{MODPROBE_NVIDIA_EC_BKLT}"));
    assert_eq!(create_modprobe_conf(GfxMode::AsusMuxDgpu, &gpu).unwrap().data, "");
    assert!(create_modprobe_conf(GfxMode::Vfio, &gpu).unwrap().data.ends_with("10DE:22BE,"));

    let amd = DiscreetGpu::new(Ok(Device::find(&vec![gpu_entry("0000:03:00.0", "1002:7480", "30000")]).unwrap()), &no_asus());
    assert!(create_modprobe_conf(GfxMode::Hybrid, &amd).is_none());
    let unknown = DiscreetGpu::new(Err(GfxError::DgpuNotFound), &no_asus());
    assert!(create_modprobe_conf(GfxMode::Hybrid, &unknown).is_some());
}

#[test]
fn vulkan_icd_moves() {
    let m = check_vulkan_icd(GfxMode::Integrated, true, false).unwrap();
    assert_eq!(m.from, CONFIG_NVIDIA_VKICD);
    assert_eq!(m.to, CONFIG_NVIDIA_VKICD_INACTIVE);
    assert!(check_vulkan_icd(GfxMode::Vfio, false, true).is_none());
    let m = check_vulkan_icd(GfxMode::Hybrid, true, true).unwrap();
    assert_eq!(m.from, CONFIG_NVIDIA_VKICD_INACTIVE);
    assert_eq!(m.to, CONFIG_NVIDIA_VKICD);
    assert!(check_vulkan_icd(GfxMode::AsusMuxDgpu, true, false).is_none());
    assert_eq!(CONFIG_NVIDIA_VKICD_INACTIVE, format!("{CONFIG_NVIDIA_VKICD}_inactive"));
}
