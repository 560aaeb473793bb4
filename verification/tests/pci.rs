use supergfxctl::drivers::DriverAction;
use supergfxctl::error::GfxError;
use supergfxctl::pci_device::{
    is_gpu_vendor_id, label_needed, lscpi_dgpu_check, parent_of, Device, DiscreetGpu, GfxMode, GfxPower, GfxVendor,
    HotplugState, PciEntry, RuntimePowerManagement,
};
use supergfxctl::special_asus::{AsusGpuMuxMode, AsusState};

fn entry(sysname: &str, id: Option<&str>, class: Option<&str>) -> PciEntry {
    PciEntry {
        sysname: sysname.to_string(),
        syspath: format!("/sys/devices/pci0000:00/{sysname}"),
        pci_id: id.map(|s| s.to_string()),
        pci_class: class.map(|s| s.to_string()),
        displays: Vec::new(),
        hwmon_in1_input: None,
        label: Ok("some device".to_string()),
        slot_power: None,
    }
}

fn no_asus() -> AsusState {
    AsusState {
        dgpu_disable_exists: false,
        dgpu_disabled: Ok(false),
        gpu_mux_exists: false,
        gpu_mux_mode: Ok(AsusGpuMuxMode::Optimus),
        egpu_enable_exists: false,
        egpu_enabled: Ok(false),
    }
}

/// An Nvidia laptop: the Intel iGPU, the Nvidia dGPU with its audio function,
/// and an unrelated device after them.
fn nvidia_laptop() -> Vec<PciEntry> {
    let mut igpu = entry("0000:00:02.0", Some("8086:A7A0"), Some("30000"));
    igpu.displays = vec!["eDP-1".to_string()];
    let mut dgpu = entry("0000:01:00.0", Some("10DE:28A1"), Some("30000"));
    dgpu.slot_power = Some("/sys/bus/pci/slots/1/power".to_string());
    let audio = entry("0000:01:00.1", Some("10DE:22BE"), Some("40300"));
    let other = entry("0000:02:00.0", Some("144D:A80A"), Some("10802"));
    vec![igpu, dgpu, audio, other]
}

#[test]
fn mode_names_parse_back() {
    for m in [
        GfxMode::Hybrid,
        GfxMode::Integrated,
        GfxMode::NvidiaNoModeset,
        GfxMode::Vfio,
        GfxMode::AsusEgpu,
        GfxMode::AsusMuxDgpu,
    ] {
        assert_eq!(GfxMode::from_str(m.name()).unwrap(), m);
    }
    assert_eq!(GfxMode::Unknown.name(), "Unknown");
    assert!(matches!(GfxMode::from_str("Unknown"), Err(GfxError::ParseMode)));
    assert_eq!(GfxMode::from_str("  Vfio\n").unwrap(), GfxMode::Vfio);
    assert!(matches!(GfxMode::from_str("hybrid"), Err(GfxError::ParseMode)));
    assert_eq!(GfxMode::default(), GfxMode::Unknown);
}

#[test]
fn power_words() {
    assert_eq!(GfxPower::from_str("active\n").unwrap(), GfxPower::Active);
    assert_eq!(GfxPower::from_str("SUSPENDED").unwrap(), GfxPower::Suspended);
    assert_eq!(GfxPower::from_str(" dgpu_disabled ").unwrap(), GfxPower::AsusDisabled);
    assert_eq!(GfxPower::from_str("error").unwrap(), GfxPower::Unknown);
    for p in [
        GfxPower::Active,
        GfxPower::Suspended,
        GfxPower::Off,
        GfxPower::AsusDisabled,
        GfxPower::AsusMuxDiscreet,
        GfxPower::Unknown,
    ] {
        assert_eq!(GfxPower::from_str(p.as_str()).unwrap(), p);
    }
    assert_eq!(GfxPower::default(), GfxPower::Unknown);
}

#[test]
fn hotplug_words() {
    assert_eq!(HotplugState::from_str("1\n").unwrap(), HotplugState::On);
    assert_eq!(HotplugState::from_str("0").unwrap(), HotplugState::Off);
    assert_eq!(HotplugState::from_str("on").unwrap(), HotplugState::Off);
    assert_eq!(HotplugState::On.as_str(), "1");
    assert_eq!(HotplugState::Off.as_str(), "0");
}

#[test]
fn vendors() {
    assert_eq!(GfxVendor::from_id(0x10DE), GfxVendor::Nvidia);
    assert_eq!(GfxVendor::from_id(0x1002), GfxVendor::Amd);
    assert_eq!(GfxVendor::from_id(0x8086), GfxVendor::Intel);
    assert_eq!(GfxVendor::from_id(0x144D), GfxVendor::Unknown);
    assert_eq!(GfxVendor::from_id_str("10DE"), GfxVendor::Nvidia);
    assert_eq!(GfxVendor::from_id_str("0x1002"), GfxVendor::Amd);
    assert_eq!(GfxVendor::from_id_str("8086"), GfxVendor::Intel);
    assert_eq!(GfxVendor::from_id_str("10de"), GfxVendor::Unknown);
    assert_eq!(GfxVendor::Amd.as_str(), "AMD");
    assert_eq!(GfxVendor::AsusDgpuDisabled.as_str(), "ASUS dGPU disabled");
}

#[test]
fn runtime_pm_words() {
    assert_eq!(RuntimePowerManagement::from_word("auto"), RuntimePowerManagement::Auto);
    assert_eq!(RuntimePowerManagement::from_word("off"), RuntimePowerManagement::Off);
    assert_eq!(RuntimePowerManagement::from_word("bogus"), RuntimePowerManagement::On);
    assert_eq!(RuntimePowerManagement::Auto.as_str(), "auto");
}

#[test]
fn dgpu_labels() {
    assert!(lscpi_dgpu_check("NVIDIA Corporation AD107M [GeForce RTX 4050 Max-Q]"));
    assert!(lscpi_dgpu_check("Navi 33 [Radeon RX 7600S]"));
    assert!(lscpi_dgpu_check("TU117GLM [Quadro T1200 Mobile]"));
    assert!(lscpi_dgpu_check("Advanced Micro Devices, Inc. [AMD/ATI] Rembrandt"));
    assert!(!lscpi_dgpu_check("Intel Corporation Raptor Lake-P [Iris Xe Graphics]"));
    assert!(!lscpi_dgpu_check(""));
}

#[test]
fn gpu_vendor_ids_and_parents() {
    assert!(is_gpu_vendor_id("10DE:28A1"));
    assert!(is_gpu_vendor_id("1002:15BF"));
    assert!(!is_gpu_vendor_id("8086:A7A0"));
    assert_eq!(parent_of("0000:01:00.1"), "0000:01:00");
    assert_eq!(parent_of("0000:01:00.0"), "0000:01:00");
    assert_eq!(parent_of("card"), "card");
}

#[test]
fn find_nvidia_dgpu_and_its_audio_function() {
    let devs = Device::find(&nvidia_laptop()).unwrap();
    assert_eq!(devs.len(), 2);
    assert_eq!(devs[0].name(), "0000:01:00.0");
    assert!(devs[0].is_dgpu());
    assert_eq!(devs[0].vendor(), GfxVendor::Nvidia);
    assert_eq!(devs[0].pci_id(), "10DE:28A1");
    assert_eq!(devs[0].dev_path(), "/sys/devices/pci0000:00/0000:01:00.0");
    assert_eq!(devs[1].name(), "0000:01:00.1");
    assert!(!devs[1].is_dgpu());
    assert!(devs[0].set_hotplug(HotplugState::Off).is_some());
    assert!(devs[1].set_hotplug(HotplugState::Off).is_none());
}

#[test]
fn find_without_dgpu_fails() {
    let mut igpu = entry("0000:00:02.0", Some("8086:A7A0"), Some("30000"));
    igpu.displays = vec!["eDP-1".to_string()];
    let mut amd_igpu = entry("0000:05:00.0", Some("1002:15BF"), Some("30000"));
    amd_igpu.displays = vec!["eDP-1".to_string()];
    amd_igpu.hwmon_in1_input = Some(Ok(true));
    let entries = vec![igpu, amd_igpu, entry("0000:06:00.0", None, None)];
    assert!(matches!(Device::find(&entries), Err(GfxError::DgpuNotFound)));
    assert!(matches!(Device::find(&Vec::new()), Err(GfxError::DgpuNotFound)));
}

#[test]
fn find_amd_dgpu_by_missing_sensor() {
    let mut amd = entry("0000:03:00.0", Some("1002:7480"), Some("38000"));
    amd.hwmon_in1_input = Some(Ok(false));
    let devs = Device::find(&vec![amd]).unwrap();
    assert_eq!(devs.len(), 1);
    assert!(devs[0].is_dgpu());
    assert_eq!(devs[0].vendor(), GfxVendor::Amd);
}

#[test]
fn find_propagates_sensor_and_label_errors() {
    let mut amd = entry("0000:03:00.0", Some("1002:7480"), Some("38000"));
    amd.hwmon_in1_input = Some(Err(GfxError::Io("hwmon".to_string())));
    assert!(matches!(Device::find(&vec![amd]), Err(GfxError::Io(_))));
    let mut nv = entry("0000:01:00.0", Some("10DE:28A1"), Some("30000"));
    nv.displays = vec!["eDP-1".to_string()];
    nv.label = Err(GfxError::Command("lspci".to_string(), "not found".to_string()));
    assert!(matches!(Device::find(&vec![nv]), Err(GfxError::Command(_, _))));
}

#[test]
fn find_stops_after_the_dgpu_device() {
    let mut entries = nvidia_laptop();
    // a second Nvidia dGPU after an unrelated device is not reached
    entries.push(entry("0000:07:00.0", Some("10DE:2520"), Some("30000")));
    let devs = Device::find(&entries).unwrap();
    assert_eq!(devs.len(), 2);
}

#[test]
fn discreet_gpu_from_devices() {
    let devs = Device::find(&nvidia_laptop()).unwrap();
    let gpu = DiscreetGpu::new(Ok(devs), &no_asus());
    assert_eq!(gpu.vendor(), GfxVendor::Nvidia);
    assert!(gpu.is_nvidia() && !gpu.is_amd() && !gpu.is_intel());
    assert_eq!(gpu.devices().len(), 2);
    assert_eq!(gpu.dgpu().unwrap().name(), "0000:01:00.0");
    assert_eq!(gpu.do_driver_action(DriverAction::Load), vec!["nvidia_drm", "nvidia_modeset", "nvidia_uvm", "nvidia"]);
    let order: Vec<String> = gpu.unbind().unwrap().iter().map(|d| d.name().to_string()).collect();
    assert_eq!(order, vec!["0000:01:00.1".to_string(), "0000:01:00.0".to_string()]);
    assert_eq!(gpu.remove().unwrap().len(), 2);
    assert_eq!(gpu.unbind_remove().unwrap().len(), 2);
    let w = gpu.set_hotplug(HotplugState::On).unwrap();
    assert_eq!(w.path, "/sys/bus/pci/slots/1/power");
    assert_eq!(w.data, "1");
}

#[test]
fn discreet_gpu_without_devices() {
    let mut asus = no_asus();
    asus.dgpu_disable_exists = true;
    asus.dgpu_disabled = Ok(true);
    let gpu = DiscreetGpu::new(Err(GfxError::DgpuNotFound), &asus);
    assert_eq!(gpu.vendor(), GfxVendor::AsusDgpuDisabled);
    assert!(gpu.dgpu().is_none());
    assert!(matches!(gpu.get_runtime_status(&asus, None), Ok(GfxPower::AsusDisabled)));
    assert_eq!(gpu.set_runtime_pm(RuntimePowerManagement::Auto).unwrap().len(), 0);
    assert!(gpu.set_hotplug(HotplugState::On).is_none());
    assert!(gpu.do_driver_action(DriverAction::Remove).is_empty());

    let mut mux = no_asus();
    mux.gpu_mux_exists = true;
    mux.gpu_mux_mode = Ok(AsusGpuMuxMode::Discreet);
    let gpu = DiscreetGpu::new(Err(GfxError::DgpuNotFound), &mux);
    assert_eq!(gpu.vendor(), GfxVendor::Nvidia);
    assert!(matches!(gpu.get_runtime_status(&mux, None), Ok(GfxPower::AsusMuxDiscreet)));

    let gpu = DiscreetGpu::new(Err(GfxError::DgpuNotFound), &no_asus());
    assert_eq!(gpu.vendor(), GfxVendor::Unknown);
    match gpu.get_runtime_status(&no_asus(), None) {
        Err(GfxError::NotSupported(m)) => assert_eq!(m, "get_runtime_status: Could not find dGPU"),
        other => panic!("unexpected {other:?}"),
    }
    assert!(gpu.unbind().is_err());
    match gpu.remove() {
        Err(GfxError::NotSupported(m)) => assert_eq!(m, "remove: Could not find dGPU"),
        other => panic!("unexpected {other:?}"),
    }
}

#[test]
fn discreet_gpu_runtime_status_and_pm() {
    let gpu = DiscreetGpu::new(Ok(Device::find(&nvidia_laptop()).unwrap()), &no_asus());
    let dgpu = gpu.dgpu().unwrap();
    assert_eq!(dgpu.runtime_status_path(), "/sys/devices/pci0000:00/0000:01:00.0/power/runtime_status");
    assert!(matches!(gpu.get_runtime_status(&no_asus(), Some("suspended\n".to_string())), Ok(GfxPower::Suspended)));
    assert!(matches!(gpu.get_runtime_status(&no_asus(), None), Ok(GfxPower::Off)));
    let writes = gpu.set_runtime_pm(RuntimePowerManagement::Auto).unwrap();
    assert_eq!(writes.len(), 2);
    assert_eq!(writes[1].path, "/sys/devices/pci0000:00/0000:01:00.1/power/control");
    assert_eq!(writes[1].data, "auto");
}

#[test]
fn device_sysfs_writes() {
    let devs = Device::find(&nvidia_laptop()).unwrap();
    let d = &devs[0];
    assert_eq!(d.driver_link(), "/sys/devices/pci0000:00/0000:01:00.0/driver");
    let w = d.unbind(Some("/sys/bus/pci/drivers/nvidia".to_string())).unwrap();
    assert_eq!(w.path, "/sys/bus/pci/drivers/nvidia/unbind");
    assert_eq!(w.data, "0000:01:00.0");
    assert!(d.unbind(None).is_none());
    let w = d.remove(true).unwrap();
    assert_eq!(w.path, "/sys/devices/pci0000:00/0000:01:00.0/remove");
    assert_eq!(w.data, "1");
    assert!(d.remove(false).is_none());
    let w = d.set_runtime_pm(RuntimePowerManagement::On);
    assert_eq!(w.path, "/sys/devices/pci0000:00/0000:01:00.0/power/control");
    assert_eq!(w.data, "on");
    assert!(matches!(d.get_runtime_status(Some("active".to_string())), Ok(GfxPower::Active)));
}

#[test]
fn find_dgpu_by_its_label() {
    // the display test says no (it drives the internal panel), the label says Quadro
    let mut nv = entry("0000:01:00.0", Some("10DE:1FB9"), Some("30000"));
    nv.displays = vec!["eDP-1".to_string()];
    nv.label = Ok("TU117GLM [Quadro T1000 Mobile]".to_string());
    assert!(label_needed(&nv));
    let devs = Device::find(&vec![nv]).unwrap();
    assert_eq!(devs.len(), 1);
    assert!(devs[0].is_dgpu());
    assert_eq!(devs[0].vendor(), GfxVendor::Nvidia);

    // an iGPU-looking AMD device whose label names no discrete card is not kept
    let mut amd = entry("0000:05:00.0", Some("1002:15BF"), Some("30000"));
    amd.displays = vec!["eDP-1".to_string()];
    amd.label = Ok("Phoenix1".to_string());
    assert!(matches!(Device::find(&vec![amd]), Err(GfxError::DgpuNotFound)));
}

#[test]
fn label_needed_only_when_the_sensors_say_no() {
    let dgpu = entry("0000:01:00.0", Some("10DE:28A1"), Some("30000"));
    assert!(!label_needed(&dgpu));
    let mut igpu = entry("0000:01:00.0", Some("10DE:28A1"), Some("30000"));
    igpu.displays = vec!["eDP-1".to_string()];
    assert!(label_needed(&igpu));
    assert!(!label_needed(&entry("0000:00:02.0", Some("8086:A7A0"), Some("30000"))));
    assert!(!label_needed(&entry("0000:00:02.0", None, None)));
}

#[test]
fn trimming_white_space() {
    assert_eq!(supergfxctl::text::trim_str("  \t Vfio \r\n"), "Vfio");
    assert_eq!(supergfxctl::text::trim_str("\u{3000}\u{a0}Hybrid\u{2003}\u{85}"), "Hybrid");
    assert_eq!(supergfxctl::text::trim_str(" a b "), "a b");
    assert_eq!(supergfxctl::text::trim_str("   "), "");
    assert_eq!(supergfxctl::text::trim_str(""), "");
    assert_eq!(supergfxctl::text::trim_str("\u{200b}x"), "\u{200b}x");
    assert_eq!(GfxMode::from_str("\u{2028}AsusEgpu\u{3000}").unwrap(), GfxMode::AsusEgpu);
}
