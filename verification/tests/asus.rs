use supergfxctl::error::GfxError;
use supergfxctl::pci_device::GfxMode;
use supergfxctl::special_asus::{
    asus_boot_safety_check, asus_dgpu_set_disabled, asus_egpu_enable_exists, asus_egpu_enable_path,
    asus_egpu_set_enabled, asus_flag_is_set, asus_gpu_mux_mode, asus_gpu_mux_set_igpu, asus_gpu_toggle,
    AsusGpuMuxMode, AsusState, BootSafety, ASUS_DGPU_DISABLE_PATH, ASUS_EGPU_ALT_ENABLE_PATH,
    ASUS_EGPU_ENABLE_PATH, ASUS_GPU_MUX_PATH,
};

fn state() -> AsusState {
    AsusState {
        dgpu_disable_exists: false,
        dgpu_disabled: Ok(false),
        gpu_mux_exists: false,
        gpu_mux_mode: Ok(AsusGpuMuxMode::Optimus),
        egpu_enable_exists: false,
        egpu_enabled: Ok(false),
    }
}

fn mode_of(b: BootSafety) -> GfxMode {
    match b {
        BootSafety::Mode(m) => m,
        BootSafety::EnableDgpu { .. } => panic!("expected a mode, got EnableDgpu"),
        BootSafety::Failed(e) => panic!("expected a mode, got {e:?}"),
    }
}

#[test]
fn mux_mode_contents() {
    assert_eq!(asus_gpu_mux_mode(b"0\n").unwrap(), AsusGpuMuxMode::Discreet);
    assert_eq!(asus_gpu_mux_mode(b"1\n").unwrap(), AsusGpuMuxMode::Optimus);
    assert_eq!(asus_gpu_mux_mode(b"7").unwrap(), AsusGpuMuxMode::Optimus);
    match asus_gpu_mux_mode(b"") {
        Err(GfxError::Read(what, detail)) => {
            assert_eq!(what, "Failed to read gpu_mux_mode");
            assert_eq!(detail, "Could not read");
        }
        other => panic!("unexpected {other:?}"),
    }
    assert!(asus_gpu_mux_mode(b"x").is_err());
    assert_eq!(AsusGpuMuxMode::from_i8(0), AsusGpuMuxMode::Discreet);
    assert_eq!(AsusGpuMuxMode::from_i8(-3), AsusGpuMuxMode::Optimus);
    assert_eq!(AsusGpuMuxMode::from_char('0'), AsusGpuMuxMode::Discreet);
    assert_eq!(AsusGpuMuxMode::from_char('1'), AsusGpuMuxMode::Optimus);
}

#[test]
fn flags_and_toggles() {
    assert!(asus_flag_is_set("1\n"));
    assert!(!asus_flag_is_set("0\n"));
    assert!(!asus_flag_is_set(""));
    let w = asus_gpu_toggle(true, "/x");
    assert_eq!((w.path.as_str(), w.data.as_str()), ("/x", "1"));
    let w = asus_gpu_mux_set_igpu(false);
    assert_eq!((w.path.as_str(), w.data.as_str()), (ASUS_GPU_MUX_PATH, "0"));
    assert_eq!(asus_egpu_enable_path(true), ASUS_EGPU_ALT_ENABLE_PATH);
    assert_eq!(asus_egpu_enable_path(false), ASUS_EGPU_ENABLE_PATH);
    assert!(asus_egpu_enable_exists(false, true));
    assert!(!asus_egpu_enable_exists(false, false));
}

#[test]
fn switch_plans() {
    assert!(asus_dgpu_set_disabled(true, true).is_none());
    let s = asus_dgpu_set_disabled(true, false).unwrap();
    assert_eq!(s.write.path, ASUS_DGPU_DISABLE_PATH);
    assert_eq!(s.write.data, "0");
    assert!(s.rescan_after);
    let s = asus_dgpu_set_disabled(false, true).unwrap();
    assert_eq!(s.write.data, "1");
    assert!(!s.rescan_after);
    assert!(asus_egpu_set_enabled(false, false, false).is_none());
    let s = asus_egpu_set_enabled(false, true, true).unwrap();
    assert_eq!(s.write.path, ASUS_EGPU_ALT_ENABLE_PATH);
    assert!(s.rescan_after);
}

#[test]
fn boot_safety_without_switches_keeps_mode() {
    assert_eq!(mode_of(asus_boot_safety_check(GfxMode::Vfio, false, state())), GfxMode::Vfio);
}

#[test]
fn boot_safety_mux() {
    let mut a = state();
    a.gpu_mux_exists = true;
    a.gpu_mux_mode = Ok(AsusGpuMuxMode::Discreet);
    assert_eq!(mode_of(asus_boot_safety_check(GfxMode::Hybrid, false, a)), GfxMode::AsusMuxDgpu);

    let mut a = state();
    a.gpu_mux_exists = true;
    a.gpu_mux_mode = Ok(AsusGpuMuxMode::Discreet);
    a.dgpu_disable_exists = true;
    a.dgpu_disabled = Ok(true);
    match asus_boot_safety_check(GfxMode::Hybrid, true, a) {
        BootSafety::EnableDgpu { on_success, on_failure } => {
            assert_eq!(on_success, GfxMode::AsusMuxDgpu);
            assert!(on_failure.is_none());
        }
        _ => panic!("expected EnableDgpu"),
    }

    let mut a = state();
    a.gpu_mux_exists = true;
    assert_eq!(mode_of(asus_boot_safety_check(GfxMode::AsusMuxDgpu, false, a)), GfxMode::Hybrid);

    let mut a = state();
    a.gpu_mux_exists = true;
    a.gpu_mux_mode = Err(GfxError::Io("gone".to_string()));
    assert!(matches!(asus_boot_safety_check(GfxMode::Hybrid, false, a), BootSafety::Failed(GfxError::Io(_))));
}

#[test]
fn boot_safety_dgpu_disable() {
    let mut a = state();
    a.dgpu_disable_exists = true;
    a.dgpu_disabled = Ok(true);
    match asus_boot_safety_check(GfxMode::Hybrid, false, a) {
        BootSafety::EnableDgpu { on_success, on_failure } => {
            assert_eq!(on_success, GfxMode::Hybrid);
            assert_eq!(on_failure, Some(GfxMode::Integrated));
        }
        _ => panic!("expected EnableDgpu"),
    }
    let mut a = state();
    a.dgpu_disable_exists = true;
    a.dgpu_disabled = Ok(true);
    assert_eq!(mode_of(asus_boot_safety_check(GfxMode::Hybrid, true, a)), GfxMode::Integrated);
    let mut a = state();
    a.dgpu_disable_exists = true;
    a.dgpu_disabled = Ok(true);
    assert_eq!(mode_of(asus_boot_safety_check(GfxMode::Integrated, true, a)), GfxMode::Integrated);
    // a read error only matters where it is consulted
    let mut a = state();
    a.dgpu_disabled = Err(GfxError::Io("x".to_string()));
    assert_eq!(mode_of(asus_boot_safety_check(GfxMode::Hybrid, true, a)), GfxMode::Hybrid);
}

#[test]
fn boot_safety_egpu() {
    let mut a = state();
    a.egpu_enable_exists = true;
    a.egpu_enabled = Ok(true);
    assert_eq!(mode_of(asus_boot_safety_check(GfxMode::Hybrid, false, a)), GfxMode::AsusEgpu);
    let mut a = state();
    a.egpu_enable_exists = true;
    a.egpu_enabled = Err(GfxError::Io("x".to_string()));
    assert!(matches!(asus_boot_safety_check(GfxMode::Hybrid, false, a), BootSafety::Failed(_)));
    let mut a = state();
    a.egpu_enable_exists = true;
    assert_eq!(mode_of(asus_boot_safety_check(GfxMode::AsusEgpu, false, a)), GfxMode::AsusEgpu);
}
