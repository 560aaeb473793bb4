//! Earlier formats of the configuration, and how each is migrated.
use vstd::prelude::*;

use crate::config::{GfxConfig, GfxConfigView};
use crate::pci_device::{GfxMode, HotplugType};

verus! {

#[derive(Debug, PartialEq, Eq, Structural, Copy, Clone)]
pub enum GfxMode300 {
    Hybrid,
    Nvidia,
    Integrated,
    Compute,
    Vfio,
    Egpu,
}

pub open spec fn mode_from_300(m: GfxMode300) -> GfxMode {
    match m {
        GfxMode300::Hybrid | GfxMode300::Nvidia | GfxMode300::Compute => GfxMode::Hybrid,
        GfxMode300::Integrated => GfxMode::Integrated,
        GfxMode300::Vfio => GfxMode::Vfio,
        GfxMode300::Egpu => GfxMode::AsusEgpu,
    }
}

impl GfxMode300 {
    /// The current mode an old mode became: the modes that used the dGPU are
    /// Hybrid now, Egpu is AsusEgpu.
    pub fn to_mode(self) -> (r: GfxMode)
        ensures
            r == mode_from_300(self),
    {
        match self {
            GfxMode300::Hybrid => GfxMode::Hybrid,
            GfxMode300::Nvidia => GfxMode::Hybrid,
            GfxMode300::Integrated => GfxMode::Integrated,
            GfxMode300::Compute => GfxMode::Hybrid,
            GfxMode300::Vfio => GfxMode::Vfio,
            GfxMode300::Egpu => GfxMode::AsusEgpu,
        }
    }
}

#[derive(Debug, PartialEq, Eq, Structural, Copy, Clone)]
pub struct GfxConfig300 {
    pub gfx_mode: GfxMode,
    pub gfx_managed: bool,
    pub gfx_vfio_enable: bool,
}

#[derive(Debug, PartialEq, Eq, Structural, Copy, Clone)]
pub struct GfxConfig402 {
    pub mode: GfxMode,
    pub vfio_enable: bool,
    pub vfio_save: bool,
    pub compute_save: bool,
    pub always_reboot: bool,
}

#[derive(Debug, PartialEq, Eq, Structural, Copy, Clone)]
pub struct GfxConfig405 {
    pub mode: GfxMode,
    pub vfio_enable: bool,
    pub vfio_save: bool,
    pub compute_save: bool,
    pub always_reboot: bool,
    pub no_logind: bool,
    pub logout_timeout_s: u64,
}

#[derive(Debug, PartialEq, Eq, Structural, Copy, Clone)]
pub struct GfxConfig500 {
    pub mode: GfxMode,
    pub vfio_enable: bool,
    pub vfio_save: bool,
    pub compute_save: bool,
    pub always_reboot: bool,
    pub no_logind: bool,
    pub logout_timeout_s: u64,
    pub hotplug_type: HotplugType,
}

/// A migrated configuration: the given mode and VFIO and reboot settings,
/// everything else at its default (logind used, three minute timeout, no
/// hotplug method, nothing pending, empty path).
pub open spec fn migrated(mode: GfxMode, vfio_enable: bool, vfio_save: bool, always_reboot: bool) -> GfxConfigView {
    GfxConfigView {
        config_path: Seq::empty(),
        mode,
        tmp_mode: None,
        pending_mode: None,
        pending_action: None,
        vfio_enable,
        vfio_save,
        always_reboot,
        no_logind: false,
        logout_timeout_s: 180,
        hotplug_type: HotplugType::NoHotplug,
    }
}

impl GfxConfig {
    pub open spec fn spec_from_300(old: GfxConfig300) -> GfxConfigView {
        migrated(old.gfx_mode, old.gfx_vfio_enable, false, false)
    }

    pub open spec fn spec_from_402(old: GfxConfig402) -> GfxConfigView {
        migrated(old.mode, old.vfio_enable, old.vfio_save, old.always_reboot)
    }

    /// Only the mode, VFIO and reboot settings carry over.
    pub open spec fn spec_from_405(old: GfxConfig405) -> GfxConfigView {
        migrated(old.mode, old.vfio_enable, old.vfio_save, old.always_reboot)
    }

    /// Only the mode, VFIO and reboot settings carry over.
    pub open spec fn spec_from_500(old: GfxConfig500) -> GfxConfigView {
        migrated(old.mode, old.vfio_enable, old.vfio_save, old.always_reboot)
    }

    fn migrate(mode: GfxMode, vfio_enable: bool, vfio_save: bool, always_reboot: bool) -> (r: GfxConfig)
        ensures
            r@ == migrated(mode, vfio_enable, vfio_save, always_reboot),
    {
        GfxConfig {
            config_path: String::new(),
            mode,
            tmp_mode: None,
            pending_mode: None,
            pending_action: None,
            vfio_enable,
            vfio_save,
            always_reboot,
            no_logind: false,
            logout_timeout_s: 180,
            hotplug_type: HotplugType::NoHotplug,
        }
    }

    pub fn from_300(old: GfxConfig300) -> (r: GfxConfig)
        ensures
            r@ == GfxConfig::spec_from_300(old),
    {
        GfxConfig::migrate(old.gfx_mode, old.gfx_vfio_enable, false, false)
    }

    pub fn from_402(old: GfxConfig402) -> (r: GfxConfig)
        ensures
            r@ == GfxConfig::spec_from_402(old),
    {
        GfxConfig::migrate(old.mode, old.vfio_enable, old.vfio_save, old.always_reboot)
    }

    pub fn from_405(old: GfxConfig405) -> (r: GfxConfig)
        ensures
            r@ == GfxConfig::spec_from_405(old),
    {
        GfxConfig::migrate(old.mode, old.vfio_enable, old.vfio_save, old.always_reboot)
    }

    pub fn from_500(old: GfxConfig500) -> (r: GfxConfig)
        ensures
            r@ == GfxConfig::spec_from_500(old),
    {
        GfxConfig::migrate(old.mode, old.vfio_enable, old.vfio_save, old.always_reboot)
    }
}

} // verus!
