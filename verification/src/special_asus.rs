//! The ASUS firmware switches: `dgpu_disable`, `egpu_enable` and
//! `gpu_mux_mode`, what their files hold, what is written to them, and the
//! boot-time safety check that reconciles them with the configured mode.
use vstd::prelude::*;

use crate::error::GfxError;
use crate::pci_device::GfxMode;
use crate::sysfs::{write_of, SysfsWrite, SysfsWriteView};
use crate::text::{contains_seq, str_contains};

verus! {

pub const ASUS_DGPU_DISABLE_PATH: &'static str = "/sys/devices/platform/asus-nb-wmi/dgpu_disable";

pub const ASUS_EGPU_ENABLE_PATH: &'static str = "/sys/devices/platform/asus-nb-wmi/egpu_enable";

pub const ASUS_GPU_MUX_PATH: &'static str = "/sys/devices/platform/asus-nb-wmi/gpu_mux_mode";

pub const ASUS_EGPU_ALT_ENABLE_PATH: &'static str = "/sys/bus/platform/devices/asus-nb-wmi/egpu_enable";

pub const ASUS_MODULES_LOAD_PATH: &'static str = "/etc/modules-load.d/asus.conf";

/// The modules that provide the ASUS switches, loaded at boot.
pub const ASUS_MODULES_LOAD: &'static str = "
asus-wmi
asus-nb-wmi
";

/// Make sure the ASUS modules are loaded at boot: the file to write when the
/// modules-load configuration does not exist yet; nothing when it does (the
/// caller then reports that it already existed).
pub fn create_asus_modules_load_conf(conf_exists: bool) -> (r: Option<SysfsWrite>)
    ensures
        conf_exists <==> r is None,
        r matches Some(w) ==> w@ == write_of(ASUS_MODULES_LOAD_PATH@, ASUS_MODULES_LOAD@),
{
    if conf_exists {
        return None;
    }
    Some(SysfsWrite { path: ASUS_MODULES_LOAD_PATH.to_owned(), data: ASUS_MODULES_LOAD.to_owned() })
}

/// How many times, 50 ms apart, boot looks for `dgpu_disable` to appear
/// (two seconds) when the ASUS method is configured but the module is not
/// loaded yet.
pub const ASUS_WMI_POLLS: u32 = 40;

/// What to do while waiting for `dgpu_disable` to appear.
#[derive(Debug, PartialEq, Eq, Structural, Clone, Copy)]
pub enum AsusWmiWait {
    /// Go on with the boot checks
    Done,
    /// Sleep 50 ms and look again, with this many looks left
    PollAgain(u32),
}

/// After looking for `dgpu_disable` with `polls_left` looks left: done once
/// it exists or no looks are left, else look again.
pub fn asus_wmi_wait_step(dgpu_disable_exists: bool, polls_left: u32) -> (r: AsusWmiWait)
    ensures
        dgpu_disable_exists || polls_left == 0 ==> r == AsusWmiWait::Done,
        !dgpu_disable_exists && polls_left > 0 ==> r == AsusWmiWait::PollAgain((polls_left - 1) as u32),
{
    if dgpu_disable_exists || polls_left == 0 {
        AsusWmiWait::Done
    } else {
        AsusWmiWait::PollAgain(polls_left - 1)
    }
}

#[derive(Debug, PartialEq, Eq, Structural, Clone, Copy)]
pub enum AsusGpuMuxMode {
    Discreet,
    Optimus,
}

impl AsusGpuMuxMode {
    /// 0 is the discrete-GPU position of the MUX, anything else Optimus.
    pub fn from_i8(v: i8) -> (r: AsusGpuMuxMode)
        ensures
            r == (if v != 0 { AsusGpuMuxMode::Optimus } else { AsusGpuMuxMode::Discreet }),
    {
        if v != 0 {
            return AsusGpuMuxMode::Optimus;
        }
        AsusGpuMuxMode::Discreet
    }

    /// '0' is the discrete-GPU position of the MUX, anything else Optimus.
    pub fn from_char(v: char) -> (r: AsusGpuMuxMode)
        ensures
            r == (if v != '0' { AsusGpuMuxMode::Optimus } else { AsusGpuMuxMode::Discreet }),
    {
        if v != '0' {
            return AsusGpuMuxMode::Optimus;
        }
        AsusGpuMuxMode::Discreet
    }
}

/// What was found of the ASUS switches: whether each file exists and what
/// reading it gave.
pub struct AsusState {
    pub dgpu_disable_exists: bool,
    pub dgpu_disabled: Result<bool, GfxError>,
    pub gpu_mux_exists: bool,
    pub gpu_mux_mode: Result<AsusGpuMuxMode, GfxError>,
    pub egpu_enable_exists: bool,
    pub egpu_enabled: Result<bool, GfxError>,
}

/// The MUX position that the contents of `gpu_mux_mode` give: its first
/// byte is a decimal digit, 0 for the discrete GPU.
pub open spec fn mux_mode_of(data: Seq<u8>) -> Option<AsusGpuMuxMode> {
    if data.len() == 0 || data[0] < 48 || data[0] > 57 {
        None
    } else if data[0] == 48 {
        Some(AsusGpuMuxMode::Discreet)
    } else {
        Some(AsusGpuMuxMode::Optimus)
    }
}

fn mux_error() -> (e: GfxError)
    ensures
        e.is_read_error("Failed to read gpu_mux_mode"@, "Could not read"@),
{
    GfxError::Read("Failed to read gpu_mux_mode".to_owned(), "Could not read".to_owned())
}

/// Parse the contents of `gpu_mux_mode`.
pub fn asus_gpu_mux_mode(data: &[u8]) -> (r: Result<AsusGpuMuxMode, GfxError>)
    ensures
        mux_mode_of(data@) matches Some(m) ==> r == Ok::<AsusGpuMuxMode, GfxError>(m),
        mux_mode_of(data@) is None ==> (r matches Err(e) && e.is_read_error(
            "Failed to read gpu_mux_mode"@,
            "Could not read"@,
        )),
{
    if data.len() == 0 {
        return Err(mux_error());
    }
    let b = data[0];
    if b >= 48 && b <= 57 {
        let d = (b - 48) as i8;
        return Ok(AsusGpuMuxMode::from_i8(d));
    }
    Err(mux_error())
}

/// Whether the contents of `dgpu_disable` or `egpu_enable` say the switch is
/// on: they hold a `1`.
pub fn asus_flag_is_set(data: &str) -> (r: bool)
    ensures
        r == contains_seq(data@, "1"@),
{
    str_contains(data, "1")
}

/// The write that sets an ASUS switch file on (`1`) or off (`0`).
pub fn asus_gpu_toggle(status: bool, path: &str) -> (r: SysfsWrite)
    ensures
        r@ == write_of(path@, if status { "1"@ } else { "0"@ }),
{
    let data = if status { "1".to_owned() } else { "0".to_owned() };
    SysfsWrite { path: path.to_owned(), data }
}

/// Switch the MUX to the iGPU (`true`) or the dGPU (`false`). Takes effect
/// after a reboot.
pub fn asus_gpu_mux_set_igpu(igpu_on: bool) -> (r: SysfsWrite)
    ensures
        r@ == write_of(ASUS_GPU_MUX_PATH@, if igpu_on { "1"@ } else { "0"@ }),
{
    asus_gpu_toggle(igpu_on, ASUS_GPU_MUX_PATH)
}

/// The `egpu_enable` file to use: the alternative location when it exists.
pub fn asus_egpu_enable_path(alt_exists: bool) -> (r: &'static str)
    ensures
        r@ == (if alt_exists { ASUS_EGPU_ALT_ENABLE_PATH@ } else { ASUS_EGPU_ENABLE_PATH@ }),
{
    if alt_exists {
        return ASUS_EGPU_ALT_ENABLE_PATH;
    }
    ASUS_EGPU_ENABLE_PATH
}

/// The eGPU switch exists when either of its files does.
pub fn asus_egpu_enable_exists(main_exists: bool, alt_exists: bool) -> (r: bool)
    ensures
        r == (main_exists || alt_exists),
{
    if main_exists {
        return true;
    }
    if alt_exists {
        return true;
    }
    false
}

/// Flipping an ASUS switch: the write, and whether the PCI bus must be
/// rescanned afterwards (after the device has had time to power up).
pub struct AsusSwitch {
    pub write: SysfsWrite,
    pub rescan_after: bool,
}

pub open spec fn switch_of(path: Seq<char>, on: bool, rescan: bool) -> (SysfsWriteView, bool) {
    (write_of(path, if on { "1"@ } else { "0"@ }), rescan)
}

impl AsusSwitch {
    pub open spec fn view_pair(&self) -> (SysfsWriteView, bool) {
        (self.write@, self.rescan_after)
    }
}

/// Set `dgpu_disable` to `disabled`, given what it holds now: nothing to do
/// when it already holds that; enabling the dGPU is followed by a rescan.
pub fn asus_dgpu_set_disabled(currently_disabled: bool, disabled: bool) -> (r: Option<AsusSwitch>)
    ensures
        currently_disabled == disabled <==> r is None,
        r matches Some(s) ==> s.view_pair() == switch_of(ASUS_DGPU_DISABLE_PATH@, disabled, !disabled),
{
    if currently_disabled == disabled {
        return None;
    }
    let write = asus_gpu_toggle(disabled, ASUS_DGPU_DISABLE_PATH);
    Some(AsusSwitch { write, rescan_after: !disabled })
}

/// Set `egpu_enable` to `enabled`, given what it holds now and whether the
/// alternative file exists: nothing to do when it already holds that;
/// enabling the eGPU is followed by a rescan.
pub fn asus_egpu_set_enabled(currently_enabled: bool, enabled: bool, alt_exists: bool) -> (r: Option<AsusSwitch>)
    ensures
        currently_enabled == enabled <==> r is None,
        r matches Some(s) ==> s.view_pair() == switch_of(
            if alt_exists { ASUS_EGPU_ALT_ENABLE_PATH@ } else { ASUS_EGPU_ENABLE_PATH@ },
            enabled,
            enabled,
        ),
{
    if currently_enabled == enabled {
        return None;
    }
    let write = asus_gpu_toggle(enabled, asus_egpu_enable_path(alt_exists));
    Some(AsusSwitch { write, rescan_after: enabled })
}


/// What the boot-time safety check decides.
pub enum BootSafety {
    /// Boot into this mode.
    Mode(GfxMode),
    /// Turn `dgpu_disable` off first; boot `on_success` if that works, else
    /// `on_failure`, or fail with the error when there is none.
    EnableDgpu { on_success: GfxMode, on_failure: Option<GfxMode> },
    /// A switch could not be read.
    Failed(GfxError),
}

/// The decision after the eGPU switch has been looked at.
pub open spec fn safety_after_egpu(mode: GfxMode, use_dgpu_disable: bool, a: AsusState) -> BootSafety {
    if a.egpu_enable_exists {
        match a.egpu_enabled {
            Err(e) => BootSafety::Failed(e),
            Ok(enabled) => if enabled && mode != GfxMode::AsusEgpu {
                BootSafety::Mode(GfxMode::AsusEgpu)
            } else if use_dgpu_disable && a.dgpu_disable_exists {
                match a.dgpu_disabled {
                    Err(e) => BootSafety::Failed(e),
                    Ok(true) => BootSafety::Mode(GfxMode::Integrated),
                    Ok(false) => BootSafety::Mode(mode),
                }
            } else {
                BootSafety::Mode(mode)
            },
        }
    } else {
        BootSafety::Mode(mode)
    }
}

/// The decision after the MUX has been looked at.
pub open spec fn safety_after_mux(mode: GfxMode, use_dgpu_disable: bool, a: AsusState) -> BootSafety {
    if a.dgpu_disable_exists {
        match a.dgpu_disabled {
            Err(e) => BootSafety::Failed(e),
            Ok(disabled) => if !use_dgpu_disable && disabled {
                BootSafety::EnableDgpu { on_success: GfxMode::Hybrid, on_failure: Some(GfxMode::Integrated) }
            } else if disabled && mode != GfxMode::Integrated {
                BootSafety::Mode(GfxMode::Integrated)
            } else {
                safety_after_egpu(mode, use_dgpu_disable, a)
            },
        }
    } else {
        safety_after_egpu(mode, use_dgpu_disable, a)
    }
}

/// The mode to boot given the configured `mode`, whether the ASUS
/// `dgpu_disable` method is configured, and the state of the switches.
pub open spec fn boot_safety(mode: GfxMode, use_dgpu_disable: bool, a: AsusState) -> BootSafety {
    if a.gpu_mux_exists {
        match a.gpu_mux_mode {
            Err(e) => BootSafety::Failed(e),
            Ok(AsusGpuMuxMode::Discreet) => if a.dgpu_disable_exists {
                match a.dgpu_disabled {
                    Err(e) => BootSafety::Failed(e),
                    Ok(true) => BootSafety::EnableDgpu { on_success: GfxMode::AsusMuxDgpu, on_failure: None },
                    Ok(false) => BootSafety::Mode(GfxMode::AsusMuxDgpu),
                }
            } else {
                BootSafety::Mode(GfxMode::AsusMuxDgpu)
            },
            Ok(AsusGpuMuxMode::Optimus) => if mode == GfxMode::AsusMuxDgpu {
                BootSafety::Mode(GfxMode::Hybrid)
            } else {
                safety_after_mux(mode, use_dgpu_disable, a)
            },
        }
    } else {
        safety_after_mux(mode, use_dgpu_disable, a)
    }
}

fn safety_egpu(mode: GfxMode, use_dgpu_disable: bool, a: AsusState) -> (r: BootSafety)
    ensures
        r == safety_after_egpu(mode, use_dgpu_disable, a),
{
    if a.egpu_enable_exists {
        match a.egpu_enabled {
            Err(e) => BootSafety::Failed(e),
            Ok(enabled) => if enabled && mode != GfxMode::AsusEgpu {
                BootSafety::Mode(GfxMode::AsusEgpu)
            } else if use_dgpu_disable && a.dgpu_disable_exists {
                match a.dgpu_disabled {
                    Err(e) => BootSafety::Failed(e),
                    Ok(true) => BootSafety::Mode(GfxMode::Integrated),
                    Ok(false) => BootSafety::Mode(mode),
                }
            } else {
                BootSafety::Mode(mode)
            },
        }
    } else {
        BootSafety::Mode(mode)
    }
}

fn safety_mux(mode: GfxMode, use_dgpu_disable: bool, a: AsusState) -> (r: BootSafety)
    ensures
        r == safety_after_mux(mode, use_dgpu_disable, a),
{
    if a.dgpu_disable_exists {
        match &a.dgpu_disabled {
            Err(e) => BootSafety::Failed(e.clone()),
            Ok(disabled) => {
                let disabled = *disabled;
                if !use_dgpu_disable && disabled {
                    BootSafety::EnableDgpu { on_success: GfxMode::Hybrid, on_failure: Some(GfxMode::Integrated) }
                } else if disabled && mode != GfxMode::Integrated {
                    BootSafety::Mode(GfxMode::Integrated)
                } else {
                    safety_egpu(mode, use_dgpu_disable, a)
                }
            },
        }
    } else {
        safety_egpu(mode, use_dgpu_disable, a)
    }
}

/// Specific actions required for ASUS laptops on boot, depending on whether
/// `dgpu_disable`, `egpu_enable` or `gpu_mux_mode` are available.
///
/// The decided mode may be different to the requested mode depending on the
/// firmware settings active; the differing value *must* be used.
pub fn asus_boot_safety_check(mode: GfxMode, asus_use_dgpu_disable: bool, asus: AsusState) -> (r: BootSafety)
    ensures
        r == boot_safety(mode, asus_use_dgpu_disable, asus),
{
    if asus.gpu_mux_exists {
        match &asus.gpu_mux_mode {
            Err(e) => BootSafety::Failed(e.clone()),
            Ok(AsusGpuMuxMode::Discreet) => if asus.dgpu_disable_exists {
                match &asus.dgpu_disabled {
                    Err(e) => BootSafety::Failed(e.clone()),
                    Ok(true) => BootSafety::EnableDgpu { on_success: GfxMode::AsusMuxDgpu, on_failure: None },
                    Ok(false) => BootSafety::Mode(GfxMode::AsusMuxDgpu),
                }
            } else {
                BootSafety::Mode(GfxMode::AsusMuxDgpu)
            },
            Ok(AsusGpuMuxMode::Optimus) => if mode == GfxMode::AsusMuxDgpu {
                BootSafety::Mode(GfxMode::Hybrid)
            } else {
                safety_mux(mode, asus_use_dgpu_disable, asus)
            },
        }
    } else {
        safety_mux(mode, asus_use_dgpu_disable, asus)
    }
}

/// The boot mode follows the MUX: with the MUX in discrete mode the machine
/// boots (or fails) into AsusMuxDgpu and nothing else; with the MUX in
/// Optimus mode it never boots into AsusMuxDgpu.
pub proof fn lemma_boot_safety_follows_mux(mode: GfxMode, use_dgpu_disable: bool, a: AsusState)
    requires
        a.gpu_mux_exists,
    ensures
        a.gpu_mux_mode == Ok::<AsusGpuMuxMode, GfxError>(AsusGpuMuxMode::Discreet) ==> match boot_safety(
            mode,
            use_dgpu_disable,
            a,
        ) {
            BootSafety::Mode(m) => m == GfxMode::AsusMuxDgpu,
            BootSafety::EnableDgpu { on_success, on_failure } => on_success == GfxMode::AsusMuxDgpu
                && on_failure is None,
            BootSafety::Failed(_) => true,
        },
        a.gpu_mux_mode == Ok::<AsusGpuMuxMode, GfxError>(AsusGpuMuxMode::Optimus) ==> match boot_safety(
            mode,
            use_dgpu_disable,
            a,
        ) {
            BootSafety::Mode(m) => m != GfxMode::AsusMuxDgpu,
            BootSafety::EnableDgpu { on_success, on_failure } => on_success != GfxMode::AsusMuxDgpu
                && on_failure != Some(GfxMode::AsusMuxDgpu),
            BootSafety::Failed(_) => true,
        },
{
}

/// Without a MUX and without `dgpu_disable`, an eGPU switch that is on puts
/// the machine into the eGPU mode.
pub proof fn lemma_boot_safety_follows_egpu(mode: GfxMode, use_dgpu_disable: bool, a: AsusState)
    requires
        !a.gpu_mux_exists,
        !a.dgpu_disable_exists,
        a.egpu_enable_exists,
        a.egpu_enabled == Ok::<bool, GfxError>(true),
    ensures
        boot_safety(mode, use_dgpu_disable, a) == BootSafety::Mode(GfxMode::AsusEgpu),
{
}

/// When no switch objects (the MUX, if present, is in Optimus mode, and
/// `dgpu_disable` and `egpu_enable`, where present, read off), the configured
/// mode is kept, except that the MUX mode cannot be kept with the MUX in
/// Optimus mode, which boots Hybrid.
pub proof fn lemma_boot_safety_keeps_mode(mode: GfxMode, use_dgpu_disable: bool, a: AsusState)
    requires
        !a.gpu_mux_exists || a.gpu_mux_mode == Ok::<AsusGpuMuxMode, GfxError>(AsusGpuMuxMode::Optimus),
        !a.dgpu_disable_exists || a.dgpu_disabled == Ok::<bool, GfxError>(false),
        !a.egpu_enable_exists || a.egpu_enabled == Ok::<bool, GfxError>(false),
    ensures
        !(a.gpu_mux_exists && mode == GfxMode::AsusMuxDgpu) ==> boot_safety(mode, use_dgpu_disable, a)
            == BootSafety::Mode(mode),
        a.gpu_mux_exists && mode == GfxMode::AsusMuxDgpu ==> boot_safety(mode, use_dgpu_disable, a)
            == BootSafety::Mode(GfxMode::Hybrid),
{
}

/// Without a MUX, a `dgpu_disable` switch that reads on decides the boot: when
/// the ASUS method is not configured the dGPU is turned back on (Hybrid, or
/// Integrated if that fails); when it is configured, any mode other than
/// Integrated becomes Integrated.
pub proof fn lemma_boot_safety_dgpu_disabled(mode: GfxMode, use_dgpu_disable: bool, a: AsusState)
    requires
        !a.gpu_mux_exists,
        a.dgpu_disable_exists,
        a.dgpu_disabled == Ok::<bool, GfxError>(true),
    ensures
        !use_dgpu_disable ==> boot_safety(mode, use_dgpu_disable, a) == (BootSafety::EnableDgpu {
            on_success: GfxMode::Hybrid,
            on_failure: Some(GfxMode::Integrated),
        }),
        use_dgpu_disable && mode != GfxMode::Integrated ==> boot_safety(mode, use_dgpu_disable, a)
            == BootSafety::Mode(GfxMode::Integrated),
{
}

/// A switch that cannot be read makes the check fail when the check needs
/// it: the MUX is read first whenever it exists.
pub proof fn lemma_boot_safety_mux_unreadable(mode: GfxMode, use_dgpu_disable: bool, a: AsusState)
    requires
        a.gpu_mux_exists,
        a.gpu_mux_mode is Err,
    ensures
        boot_safety(mode, use_dgpu_disable, a) == BootSafety::Failed(a.gpu_mux_mode->Err_0),
{
}

} // verus!
