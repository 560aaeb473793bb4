//! The daemon's configuration, how it is loaded from what the file held and
//! re-read, its D-Bus projection, and the files that a mode writes (the
//! modprobe configuration, the Vulkan ICD profile).
use vstd::prelude::*;
use vstd::string::StringExecFns;

use crate::actions::UserActionRequired;
use crate::config_old::{GfxConfig300, GfxConfig405, GfxConfig500};
use crate::pci_device::{device_views, DeviceView, DiscreetGpu, GfxMode, GfxVendor, HotplugType};
use crate::sysfs::{write_of, SysfsWrite};
use crate::text::starts_with_seq;

verus! {

pub const CONFIG_PATH: &'static str = "/etc/supergfxd.conf";

pub const CONFIG_NVIDIA_VKICD: &'static str = "/usr/share/vulkan/icd.d/nvidia_icd.json";

/// Where the Nvidia Vulkan ICD profile is kept while it is not in use.
pub const CONFIG_NVIDIA_VKICD_INACTIVE: &'static str = "/usr/share/vulkan/icd.d/nvidia_icd.json_inactive";

pub const MODPROBE_PATH: &'static str = "/etc/modprobe.d/supergfxd.conf";

pub const MODPROBE_NVIDIA_BASE: &'static str = "# Automatically generated by supergfxd
blacklist nouveau
alias nouveau off
options nvidia NVreg_DynamicPowerManagement=0x02
";

pub const MODPROBE_NVIDIA_DRM_MODESET_ON: &'static str = "
options nvidia-drm modeset=1
";

pub const MODPROBE_NVIDIA_EC_BKLT: &'static str = "
options nvidia NVreg_EnableBacklightHandler=0 NVreg_RegistryDwords=EnableBrightnessControl=1
";

pub const MODPROBE_INTEGRATED: &'static str = "# Automatically generated by supergfxd
blacklist i2c_nvidia_gpu
blacklist nvidia
blacklist nvidia-drm
blacklist nvidia-modeset
blacklist nouveau
alias nouveau off
";

pub const MODPROBE_VFIO: &'static str = "options vfio-pci ids=";

pub struct GfxConfig {
    /// Where the configuration is stored; not part of the stored data
    pub config_path: String,
    /// The current mode set, also applies on boot
    pub mode: GfxMode,
    /// Only for temporary modes like compute or vfio; not stored
    pub tmp_mode: Option<GfxMode>,
    /// Just for tracking the requested mode change in rebootless mode; not stored
    pub pending_mode: Option<GfxMode>,
    /// Just for tracking the required user action; not stored
    pub pending_action: Option<UserActionRequired>,
    /// Set if vfio option is enabled. This requires the vfio drivers to be built as modules
    pub vfio_enable: bool,
    /// Save the VFIO mode so that it is reloaded on boot
    pub vfio_save: bool,
    /// Should always reboot?
    pub always_reboot: bool,
    /// Don't use logind to see if all sessions are logged out and therefore safe to change mode
    pub no_logind: bool,
    /// The timeout in seconds to wait for all user graphical sessions to end. Default is 3
    /// minutes, 0 = infinite. Ignored if `no_logind` or `always_reboot` is set.
    pub logout_timeout_s: u64,
    /// The type of method to use for hotplug. ASUS is... fiddly.
    pub hotplug_type: HotplugType,
}

pub struct GfxConfigView {
    pub config_path: Seq<char>,
    pub mode: GfxMode,
    pub tmp_mode: Option<GfxMode>,
    pub pending_mode: Option<GfxMode>,
    pub pending_action: Option<UserActionRequired>,
    pub vfio_enable: bool,
    pub vfio_save: bool,
    pub always_reboot: bool,
    pub no_logind: bool,
    pub logout_timeout_s: u64,
    pub hotplug_type: HotplugType,
}

impl View for GfxConfig {
    type V = GfxConfigView;

    open spec fn view(&self) -> GfxConfigView {
        GfxConfigView {
            config_path: self.config_path@,
            mode: self.mode,
            tmp_mode: self.tmp_mode,
            pending_mode: self.pending_mode,
            pending_action: self.pending_action,
            vfio_enable: self.vfio_enable,
            vfio_save: self.vfio_save,
            always_reboot: self.always_reboot,
            no_logind: self.no_logind,
            logout_timeout_s: self.logout_timeout_s,
            hotplug_type: self.hotplug_type,
        }
    }
}

/// The configuration used when there is none: Hybrid, no VFIO, logind used
/// with a three minute logout timeout, no hotplug method.
pub open spec fn default_config(config_path: Seq<char>) -> GfxConfigView {
    GfxConfigView {
        config_path,
        mode: GfxMode::Hybrid,
        tmp_mode: None,
        pending_mode: None,
        pending_action: None,
        vfio_enable: false,
        vfio_save: false,
        always_reboot: false,
        no_logind: false,
        logout_timeout_s: 180,
        hotplug_type: HotplugType::NoHotplug,
    }
}

/// A stored configuration with its path set.
pub open spec fn with_path(c: GfxConfigView, config_path: Seq<char>) -> GfxConfigView {
    GfxConfigView { config_path, ..c }
}

impl Clone for GfxConfig {
    fn clone(&self) -> (r: Self)
        ensures
            r@ == self@,
    {
        GfxConfig {
            config_path: self.config_path.clone(),
            mode: self.mode,
            tmp_mode: self.tmp_mode,
            pending_mode: self.pending_mode,
            pending_action: self.pending_action,
            vfio_enable: self.vfio_enable,
            vfio_save: self.vfio_save,
            always_reboot: self.always_reboot,
            no_logind: self.no_logind,
            logout_timeout_s: self.logout_timeout_s,
            hotplug_type: self.hotplug_type,
        }
    }
}

/// What the configuration file held, as far as it could be understood: the
/// current format or one of the earlier ones, tried in that order.
pub enum StoredConfig {
    /// The file could not be read or was empty
    Empty,
    Current(GfxConfig),
    V300(GfxConfig300),
    V405(GfxConfig405),
    V500(GfxConfig500),
    /// The file held something that no format describes
    Unrecognised,
}

impl GfxConfig {
    /// The configuration used when there is none.
    pub fn new(config_path: String) -> (r: Self)
        ensures
            r@ == default_config(config_path@),
    {
        Self {
            config_path,
            mode: GfxMode::Hybrid,
            tmp_mode: None,
            pending_mode: None,
            pending_action: None,
            vfio_enable: false,
            vfio_save: false,
            always_reboot: false,
            no_logind: false,
            logout_timeout_s: 180,
            hotplug_type: HotplugType::NoHotplug,
        }
    }

    /// The configuration to use given what the file at `config_path` held:
    /// the stored configuration (migrated from an earlier format if need be)
    /// with its path set, or the default one when nothing usable was stored.
    pub fn load(config_path: String, stored: StoredConfig) -> (r: Self)
        ensures
            r@ == match stored {
                StoredConfig::Current(c) => with_path(c@, config_path@),
                StoredConfig::V300(o) => with_path(GfxConfig::spec_from_300(o), config_path@),
                StoredConfig::V405(o) => with_path(GfxConfig::spec_from_405(o), config_path@),
                StoredConfig::V500(o) => with_path(GfxConfig::spec_from_500(o), config_path@),
                _ => default_config(config_path@),
            },
    {
        match stored {
            StoredConfig::Current(c) => {
                let mut config = c;
                config.config_path = config_path;
                config
            },
            StoredConfig::V300(o) => {
                let mut config = GfxConfig::from_300(o);
                config.config_path = config_path;
                config
            },
            StoredConfig::V405(o) => {
                let mut config = GfxConfig::from_405(o);
                config.config_path = config_path;
                config
            },
            StoredConfig::V500(o) => {
                let mut config = GfxConfig::from_500(o);
                config.config_path = config_path;
                config
            },
            _ => GfxConfig::new(config_path),
        }
    }

    /// Take over what the file holds (`None` when it is empty): every stored
    /// value, the empty path of a parsed configuration, and the pending state
    /// of the parsed value; only the temporary mode is kept.
    pub fn read(&mut self, stored: Option<GfxConfig>)
        ensures
            match stored {
                None => final(self)@ == old(self)@,
                Some(x) => final(self)@ == GfxConfigView { tmp_mode: old(self)@.tmp_mode, ..x@ },
            },
    {
        if let Some(x) = stored {
            let mut x = x;
            x.tmp_mode = self.tmp_mode;
            *self = x;
        }
    }
}

/// Cleaned config for passing over dbus only
#[derive(Debug, Clone, Copy, PartialEq, Eq, Structural)]
pub struct GfxConfigDbus {
    pub mode: GfxMode,
    pub vfio_enable: bool,
    pub vfio_save: bool,
    pub always_reboot: bool,
    pub no_logind: bool,
    pub logout_timeout_s: u64,
    pub hotplug_type: HotplugType,
}

pub open spec fn dbus_config_of(c: GfxConfigView) -> GfxConfigDbus {
    GfxConfigDbus {
        mode: c.mode,
        vfio_enable: c.vfio_enable,
        vfio_save: c.vfio_save,
        always_reboot: c.always_reboot,
        no_logind: c.no_logind,
        logout_timeout_s: c.logout_timeout_s,
        hotplug_type: c.hotplug_type,
    }
}

impl GfxConfigDbus {
    pub fn from_config(c: &GfxConfig) -> (r: Self)
        ensures
            r == dbus_config_of(c@),
    {
        Self {
            mode: c.mode,
            vfio_enable: c.vfio_enable,
            vfio_save: c.vfio_save,
            always_reboot: c.always_reboot,
            no_logind: c.no_logind,
            logout_timeout_s: c.logout_timeout_s,
            hotplug_type: c.hotplug_type,
        }
    }
}

/// The PCI ids of the devices joined by commas.
pub open spec fn joined_ids(devs: Seq<DeviceView>) -> Seq<char>
    decreases devs.len(),
{
    if devs.len() == 0 {
        Seq::empty()
    } else if devs.len() == 1 {
        devs[0].pci_id
    } else {
        joined_ids(devs.drop_last()) + seq![','] + devs.last().pci_id
    }
}

/// The modprobe configuration for VFIO pass-through: the dGPU drivers
/// blacklisted, and vfio-pci claiming every device of the dGPU.
pub open spec fn vfio_conf(devs: Seq<DeviceView>) -> Seq<char> {
    MODPROBE_INTEGRATED@ + MODPROBE_VFIO@ + joined_ids(devs) + seq![',']
}

/// Creates the full modprobe.conf required for vfio pass-through
pub fn create_vfio_conf(devices: &DiscreetGpu) -> (r: String)
    ensures
        r@ == vfio_conf(devices@.devices),
{
    let devs = devices.devices();
    let mut vifo = MODPROBE_INTEGRATED.to_owned();
    vifo.append(MODPROBE_VFIO);
    let ghost start = vifo@;
    let mut i: usize = 0;
    while i < devs.len()
        invariant
            i <= devs.len(),
            device_views(devs@) == devices@.devices,
            start == MODPROBE_INTEGRATED@ + MODPROBE_VFIO@,
            vifo@ == start + joined_ids(device_views(devs@).subrange(0, i as int)) + if 0 < i < devs.len() {
                seq![',']
            } else {
                Seq::empty()
            },
        decreases devs.len() - i,
    {
        let ghost before = device_views(devs@).subrange(0, i as int);
        let ghost after = device_views(devs@).subrange(0, i + 1);
        assert(after.drop_last() =~= before);
        vifo.append(devs[i].pci_id());
        if i + 1 < devs.len() {
            vifo.append(",");
            proof {
                reveal_strlit(",");
            }
        }
        i = i + 1;
        proof {
            if i == 1 {
                assert(joined_ids(after) == after[0].pci_id);
                assert(vifo@ =~= start + joined_ids(after) + if 0 < i < devs.len() {
                    seq![',']
                } else {
                    Seq::empty()
                });
            } else {
                assert(vifo@ =~= start + joined_ids(after) + if 0 < i < devs.len() {
                    seq![',']
                } else {
                    Seq::empty()
                });
            }
        }
    }
    assert(device_views(devs@).subrange(0, devs.len() as int) =~= devices@.devices);
    vifo.append(",");
    proof {
        reveal_strlit(",");
    }
    assert(vifo@ =~= vfio_conf(devices@.devices));
    vifo
}

/// What the modprobe configuration holds for a mode (with an Nvidia or
/// unknown dGPU): the Nvidia modules with modesetting and backlight options
/// for Hybrid, AsusEgpu and NvidiaNoModeset; VFIO pass-through for Vfio; the
/// Nvidia modules blacklisted for Integrated; nothing otherwise.
pub open spec fn modprobe_conf(mode: GfxMode, devs: Seq<DeviceView>) -> Seq<char> {
    match mode {
        GfxMode::Hybrid | GfxMode::AsusEgpu | GfxMode::NvidiaNoModeset => MODPROBE_NVIDIA_BASE@
            + MODPROBE_NVIDIA_DRM_MODESET_ON@ + MODPROBE_NVIDIA_EC_BKLT@,
        GfxMode::Vfio => vfio_conf(devs),
        GfxMode::Integrated => MODPROBE_INTEGRATED@ + MODPROBE_NVIDIA_DRM_MODESET_ON@
            + MODPROBE_NVIDIA_EC_BKLT@,
        GfxMode::Unknown | GfxMode::AsusMuxDgpu => Seq::empty(),
    }
}

/// The modprobe configuration to write for `mode` (replacing the file);
/// nothing for an AMD or Intel dGPU.
pub fn create_modprobe_conf(mode: GfxMode, device: &DiscreetGpu) -> (r: Option<SysfsWrite>)
    ensures
        device@.vendor == GfxVendor::Amd || device@.vendor == GfxVendor::Intel <==> r is None,
        r matches Some(w) ==> w@ == write_of(MODPROBE_PATH@, modprobe_conf(mode, device@.devices)),
{
    if device.is_amd() || device.is_intel() {
        return None;
    }
    let content = match mode {
        GfxMode::Hybrid | GfxMode::AsusEgpu | GfxMode::NvidiaNoModeset => {
            let mut base = MODPROBE_NVIDIA_BASE.to_owned();
            base.append(MODPROBE_NVIDIA_DRM_MODESET_ON);
            base.append(MODPROBE_NVIDIA_EC_BKLT);
            base
        },
        GfxMode::Vfio => create_vfio_conf(device),
        GfxMode::Integrated => {
            let mut base = MODPROBE_INTEGRATED.to_owned();
            base.append(MODPROBE_NVIDIA_DRM_MODESET_ON);
            base.append(MODPROBE_NVIDIA_EC_BKLT);
            base
        },
        GfxMode::Unknown | GfxMode::AsusMuxDgpu => String::new(),
    };
    Some(SysfsWrite { path: MODPROBE_PATH.to_owned(), data: content })
}

/// Moving a file from one place to another.
pub struct FileMove {
    pub from: String,
    pub to: String,
}

/// Keep the Nvidia Vulkan ICD profile where Vulkan finds it only in modes that
/// use the dGPU: for Vfio and Integrated move an active profile aside,
/// otherwise move a profile that was put aside back. `active_exists` and
/// `inactive_exists` say whether the profile is in either place.
pub fn check_vulkan_icd(mode: GfxMode, active_exists: bool, inactive_exists: bool) -> (r: Option<FileMove>)
    ensures
        (mode == GfxMode::Vfio || mode == GfxMode::Integrated) ==> (if active_exists {
            r matches Some(m) && m.from@ == CONFIG_NVIDIA_VKICD@ && m.to@ == CONFIG_NVIDIA_VKICD_INACTIVE@
        } else {
            r is None
        }),
        !(mode == GfxMode::Vfio || mode == GfxMode::Integrated) ==> (if inactive_exists {
            r matches Some(m) && m.from@ == CONFIG_NVIDIA_VKICD_INACTIVE@ && m.to@ == CONFIG_NVIDIA_VKICD@
        } else {
            r is None
        }),
{
    if mode == GfxMode::Vfio || mode == GfxMode::Integrated {
        if active_exists {
            return Some(
                FileMove { from: CONFIG_NVIDIA_VKICD.to_owned(), to: CONFIG_NVIDIA_VKICD_INACTIVE.to_owned() },
            );
        }
    } else if inactive_exists {
        return Some(
            FileMove { from: CONFIG_NVIDIA_VKICD_INACTIVE.to_owned(), to: CONFIG_NVIDIA_VKICD.to_owned() },
        );
    }
    None
}

/// The modes that run on the dGPU (Hybrid, AsusEgpu, NvidiaNoModeset) write
/// the same modprobe configuration, which loads the Nvidia modules with
/// modesetting on; only Integrated and Vfio write one that starts by
/// blacklisting the Nvidia modules.
pub proof fn lemma_modprobe_conf_by_mode(devs: Seq<DeviceView>, m: GfxMode)
    ensures
        modprobe_conf(GfxMode::AsusEgpu, devs) == modprobe_conf(GfxMode::Hybrid, devs),
        modprobe_conf(GfxMode::NvidiaNoModeset, devs) == modprobe_conf(GfxMode::Hybrid, devs),
        starts_with_seq(modprobe_conf(GfxMode::Hybrid, devs), MODPROBE_NVIDIA_BASE@),
        crate::text::contains_seq(modprobe_conf(GfxMode::Hybrid, devs), MODPROBE_NVIDIA_DRM_MODESET_ON@),
        starts_with_seq(modprobe_conf(m, devs), MODPROBE_INTEGRATED@) <==> (m == GfxMode::Integrated || m
            == GfxMode::Vfio),
{
    reveal_strlit("# Automatically generated by supergfxd
blacklist nouveau
alias nouveau off
options nvidia NVreg_DynamicPowerManagement=0x02
");
    reveal_strlit("# Automatically generated by supergfxd
blacklist i2c_nvidia_gpu
blacklist nvidia
blacklist nvidia-drm
blacklist nvidia-modeset
blacklist nouveau
alias nouveau off
");
    let base = MODPROBE_NVIDIA_BASE@;
    let integ = MODPROBE_INTEGRATED@;
    let hybrid = modprobe_conf(GfxMode::Hybrid, devs);
    assert(hybrid.subrange(0, base.len() as int) =~= base);
    let on = MODPROBE_NVIDIA_DRM_MODESET_ON@;
    assert(hybrid.subrange(base.len() as int, base.len() + on.len() as int) =~= on);
    assert(crate::text::occurs_at(hybrid, on, base.len() as int));
    // the two headers differ at the character after "blacklist "
    assert(base[49] != integ[49]);
    if starts_with_seq(hybrid, integ) {
        assert(hybrid[49] == integ[49]);
        assert(hybrid[49] == base[49]);
    }
    let i = modprobe_conf(GfxMode::Integrated, devs);
    assert(i.subrange(0, integ.len() as int) =~= integ);
    let v = modprobe_conf(GfxMode::Vfio, devs);
    assert(v.subrange(0, integ.len() as int) =~= integ);
    let e = modprobe_conf(GfxMode::Unknown, devs);
    assert(e.len() == 0);
}

/// Where the id of device `k` occurs in the joined ids.
proof fn lemma_joined_id_at(devs: Seq<DeviceView>, k: int) -> (at: int)
    requires
        0 <= k < devs.len(),
    ensures
        crate::text::occurs_at(joined_ids(devs), devs[k].pci_id, at),
    decreases devs.len(),
{
    let j = joined_ids(devs);
    let id = devs[k].pci_id;
    if devs.len() == 1 {
        assert(j.subrange(0, id.len() as int) =~= id);
        0
    } else {
        let p = joined_ids(devs.drop_last());
        assert(j == p + seq![','] + devs.last().pci_id);
        if k == devs.len() - 1 {
            let at = p.len() + 1int;
            assert(j.subrange(at, at + id.len()) =~= id);
            at
        } else {
            let at = lemma_joined_id_at(devs.drop_last(), k);
            assert(devs.drop_last()[k] == devs[k]);
            assert(j.subrange(at, at + id.len()) =~= p.subrange(at, at + id.len()));
            at
        }
    }
}

/// The VFIO modprobe configuration hands every device of the dGPU to
/// vfio-pci: each device's PCI id occurs in it, after the Nvidia modules are
/// blacklisted.
pub proof fn lemma_vfio_conf_lists_every_device(devs: Seq<DeviceView>)
    ensures
        starts_with_seq(modprobe_conf(GfxMode::Vfio, devs), MODPROBE_INTEGRATED@),
        forall|k: int| 0 <= k < devs.len() ==> crate::text::contains_seq(
            #[trigger] modprobe_conf(GfxMode::Vfio, devs),
            devs[k].pci_id,
        ),
{
    let v = modprobe_conf(GfxMode::Vfio, devs);
    let pre = MODPROBE_INTEGRATED@ + MODPROBE_VFIO@;
    assert(v == pre + joined_ids(devs) + seq![',']);
    assert(v.subrange(0, MODPROBE_INTEGRATED@.len() as int) =~= MODPROBE_INTEGRATED@);
    assert forall|k: int| 0 <= k < devs.len() implies crate::text::contains_seq(v, devs[k].pci_id) by {
        let at = lemma_joined_id_at(devs, k);
        let id = devs[k].pci_id;
        let j = joined_ids(devs);
        assert(v.subrange(pre.len() + at, pre.len() + at + id.len()) =~= j.subrange(at, at + id.len()));
        assert(crate::text::occurs_at(v, id, pre.len() + at));
    }
}

} // verus!
