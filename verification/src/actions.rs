//! The user-visible consequence of a mode change, the staged actions that
//! carry it out, the ordered action lists for booting and switching, what
//! each action takes on a given machine, and the logout wait.
use vstd::prelude::*;
use vstd::string::StringExecFns;

use crate::config::GfxConfig;
use crate::error::GfxError;
use crate::drivers::{nvidia_drivers, vfio_drivers, DriverAction};
use crate::pci_device::{DiscreetGpu, GfxMode, GfxVendor, HotplugState, HotplugType};
use crate::systemd::{SystemdUnitAction, SystemdUnitState};
use crate::text::{decimal, decimal_string};

verus! {

/// The action required by the user after they request a mode change
#[derive(Debug, Clone, Copy, PartialEq, Eq, Structural)]
pub enum UserActionRequired {
    Logout,
    Reboot,
    SwitchToIntegrated,
    AsusEgpuDisable,
    Nothing,
}

/// What the user must do to get from `current` to `new`.
pub open spec fn user_action_for(new: GfxMode, current: GfxMode) -> UserActionRequired {
    match new {
        GfxMode::Hybrid => match current {
            GfxMode::Integrated | GfxMode::AsusEgpu => UserActionRequired::Logout,
            GfxMode::AsusMuxDgpu => UserActionRequired::Reboot,
            GfxMode::Vfio => UserActionRequired::SwitchToIntegrated,
            GfxMode::NvidiaNoModeset | GfxMode::Hybrid | GfxMode::Unknown => UserActionRequired::Nothing,
        },
        GfxMode::Integrated => match current {
            GfxMode::Hybrid | GfxMode::AsusEgpu => UserActionRequired::Logout,
            GfxMode::AsusMuxDgpu => UserActionRequired::Reboot,
            _ => UserActionRequired::Nothing,
        },
        GfxMode::NvidiaNoModeset => match current {
            GfxMode::AsusEgpu => UserActionRequired::Logout,
            GfxMode::AsusMuxDgpu => UserActionRequired::Reboot,
            _ => UserActionRequired::Nothing,
        },
        GfxMode::Vfio => match current {
            GfxMode::AsusEgpu | GfxMode::Hybrid => UserActionRequired::Logout,
            GfxMode::AsusMuxDgpu => UserActionRequired::Reboot,
            _ => UserActionRequired::Nothing,
        },
        GfxMode::AsusEgpu => match current {
            GfxMode::Integrated | GfxMode::Hybrid | GfxMode::NvidiaNoModeset => UserActionRequired::Logout,
            GfxMode::Vfio => UserActionRequired::SwitchToIntegrated,
            GfxMode::AsusEgpu | GfxMode::Unknown => UserActionRequired::Nothing,
            GfxMode::AsusMuxDgpu => UserActionRequired::Reboot,
        },
        GfxMode::AsusMuxDgpu => match current {
            GfxMode::Unknown | GfxMode::AsusMuxDgpu => UserActionRequired::Nothing,
            _ => UserActionRequired::Reboot,
        },
        GfxMode::Unknown => UserActionRequired::Nothing,
    }
}

pub open spec fn user_action_name(a: UserActionRequired) -> Seq<char> {
    match a {
        UserActionRequired::Logout => "Logout"@,
        UserActionRequired::Reboot => "Reboot"@,
        UserActionRequired::SwitchToIntegrated => "SwitchToIntegrated"@,
        UserActionRequired::AsusEgpuDisable => "AsusEgpuDisable"@,
        UserActionRequired::Nothing => "Nothing"@,
    }
}

pub open spec fn user_action_message(a: UserActionRequired) -> Seq<char> {
    match a {
        UserActionRequired::Logout => "Logout required to complete mode change"@,
        UserActionRequired::Reboot => "Reboot required to complete mode change"@,
        UserActionRequired::SwitchToIntegrated => "You must switch to Integrated first"@,
        UserActionRequired::Nothing => "No action required"@,
        UserActionRequired::AsusEgpuDisable => "The mode must be switched to Integrated or Hybrid first"@,
    }
}

impl UserActionRequired {
    /// Determine if we need to logout/reboot. Integrated<->Vfio mode does not
    /// require logout.
    pub fn mode_change_action(new_mode: GfxMode, current_mode: GfxMode) -> (r: Self)
        ensures
            r == user_action_for(new_mode, current_mode),
    {
        match new_mode {
            GfxMode::Hybrid => match current_mode {
                GfxMode::Integrated | GfxMode::AsusEgpu => Self::Logout,
                GfxMode::AsusMuxDgpu => Self::Reboot,
                GfxMode::Vfio => Self::SwitchToIntegrated,
                GfxMode::NvidiaNoModeset | GfxMode::Hybrid | GfxMode::Unknown => Self::Nothing,
            },
            GfxMode::Integrated => match current_mode {
                GfxMode::Hybrid | GfxMode::AsusEgpu => Self::Logout,
                GfxMode::AsusMuxDgpu => Self::Reboot,
                GfxMode::Vfio | GfxMode::NvidiaNoModeset | GfxMode::Integrated | GfxMode::Unknown => {
                    Self::Nothing
                },
            },
            GfxMode::NvidiaNoModeset => match current_mode {
                GfxMode::Integrated
                | GfxMode::NvidiaNoModeset
                | GfxMode::Vfio
                | GfxMode::Hybrid
                | GfxMode::Unknown => Self::Nothing,
                GfxMode::AsusEgpu => Self::Logout,
                GfxMode::AsusMuxDgpu => Self::Reboot,
            },
            GfxMode::Vfio => match current_mode {
                GfxMode::Integrated | GfxMode::Vfio | GfxMode::NvidiaNoModeset | GfxMode::Unknown => {
                    Self::Nothing
                },
                GfxMode::AsusEgpu | GfxMode::Hybrid => Self::Logout,
                GfxMode::AsusMuxDgpu => Self::Reboot,
            },
            GfxMode::AsusEgpu => match current_mode {
                GfxMode::Integrated | GfxMode::Hybrid | GfxMode::NvidiaNoModeset => Self::Logout,
                GfxMode::Vfio => Self::SwitchToIntegrated,
                GfxMode::AsusEgpu | GfxMode::Unknown => Self::Nothing,
                GfxMode::AsusMuxDgpu => Self::Reboot,
            },
            GfxMode::AsusMuxDgpu => match current_mode {
                GfxMode::Hybrid
                | GfxMode::Integrated
                | GfxMode::NvidiaNoModeset
                | GfxMode::Vfio
                | GfxMode::AsusEgpu => Self::Reboot,
                GfxMode::Unknown | GfxMode::AsusMuxDgpu => Self::Nothing,
            },
            GfxMode::Unknown => Self::Nothing,
        }
    }

    /// The variant's name, as it is displayed.
    pub fn name(&self) -> (r: &'static str)
        ensures
            r@ == user_action_name(*self),
    {
        match self {
            Self::Logout => "Logout",
            Self::Reboot => "Reboot",
            Self::SwitchToIntegrated => "SwitchToIntegrated",
            Self::AsusEgpuDisable => "AsusEgpuDisable",
            Self::Nothing => "Nothing",
        }
    }

    /// A sentence telling the user what to do.
    pub fn message(&self) -> (r: &'static str)
        ensures
            r@ == user_action_message(*self),
    {
        match self {
            Self::Logout => "Logout required to complete mode change",
            Self::Reboot => "Reboot required to complete mode change",
            Self::SwitchToIntegrated => "You must switch to Integrated first",
            Self::Nothing => "No action required",
            Self::AsusEgpuDisable => "The mode must be switched to Integrated or Hybrid first",
        }
    }
}

/// All the possible actions the daemon can perform. These are put in a list
/// in the order required to perform them.
#[derive(Debug, PartialEq, Eq, Structural, Clone, Copy)]
pub enum StagedAction {
    /// Wait for the user to logout
    WaitLogout,
    /// Stop the display manager
    StopDisplayManager,
    /// Restart the display manager
    StartDisplayManager,
    /// A marker for no logind options
    NoLogind,
    /// Load the dgpu drivers
    LoadGpuDrivers,
    /// Unload the dgpu drivers
    UnloadGpuDrivers,
    /// Kill all things using the nvidia device
    KillNvidia,
    /// Kill all things using the AMD device
    KillAmd,
    /// Enable nvidia-persistenced service
    EnableNvidiaPersistenced,
    /// Disable nvidia-persistenced service
    DisableNvidiaPersistenced,
    /// Enable nvidia-powerd service
    EnableNvidiaPowerd,
    /// Disable nvidia-powerd service
    DisableNvidiaPowerd,
    /// Load the vfio modules
    LoadVfioDrivers,
    /// Unload the vfio modules
    UnloadVfioDrivers,
    /// A none-action marker to specify an intent, in this case not using ASUS or hotplug
    /// device removal and only dev-tree unbind/remove
    DevTreeManaged,
    RescanPci,
    /// Unbind and fully remove the device from a driver using sysfs
    UnbindRemoveGpu,
    /// Unbind only, device is still in PCI tree
    UnbindGpu,
    /// If hotplug is available then the dgpu can be hot-removed
    HotplugUnplug,
    /// If hotplug is available then the dgpu can be hot-plugged
    HotplugPlug,
    /// Disable the internal dgpu using the ASUS ACPI method. This does a hard removal of the
    /// device and a pci-scan will no-longer find it
    AsusDgpuDisable,
    /// Enable the internal dgpu using the ASUS ACPI method. This must be done for it to be
    /// seen on the pci bus again after an `AsusDgpuDisable`
    AsusDgpuEnable,
    /// This will also disable the internal dgpu due to the laptop ACPI functions being called
    AsusEgpuDisable,
    /// This will also enable the internal dgpu due to the laptop ACPI functions being called
    AsusEgpuEnable,
    /// Switch the ASUS MUX to igpu mode
    AsusMuxIgpu,
    /// Switch the ASUS MUX to dgpu mode
    AsusMuxDgpu,
    /// Write a modprobe conf according to mode (e.g, hybrid, vfio)
    WriteModprobeConf,
    /// Checks for correct Vulkan ICD (remove nvidia_icd.json if not on "nvidia" or "vfio")
    CheckVulkanIcd,
    /// Placeholder, used to indicate the dgpu is not Nvidia (for example when deciding if
    /// KillNvidia should be used)
    NotNvidia,
    /// No action; also the start of every list
    NoAction,
}

/// What a mode switch amounts to: either something the user must do first,
/// or a list of actions to perform in order.
pub enum Action {
    UserAction(UserActionRequired),
    StagedActions(Vec<StagedAction>),
}

/// The mathematical value of an [`Action`].
pub enum ActionPlan {
    UserAction(UserActionRequired),
    StagedActions(Seq<StagedAction>),
}

impl View for Action {
    type V = ActionPlan;

    open spec fn view(&self) -> ActionPlan {
        match self {
            Action::UserAction(u) => ActionPlan::UserAction(*u),
            Action::StagedActions(v) => ActionPlan::StagedActions(v@),
        }
    }
}

/// The action that takes the dGPU off the bus for a hotplug method.
pub open spec fn hotplug_remove_action(t: HotplugType) -> StagedAction {
    match t {
        HotplugType::Std => StagedAction::HotplugUnplug,
        HotplugType::Asus => StagedAction::AsusDgpuDisable,
        HotplugType::NoHotplug => StagedAction::DevTreeManaged,
    }
}

/// The action that puts the dGPU back on the bus for a hotplug method.
pub open spec fn hotplug_add_action(t: HotplugType) -> StagedAction {
    match t {
        HotplugType::Std => StagedAction::HotplugPlug,
        HotplugType::Asus => StagedAction::AsusDgpuEnable,
        HotplugType::NoHotplug => StagedAction::DevTreeManaged,
    }
}

/// An Nvidia-only action, or the `NotNvidia` marker for other vendors.
pub open spec fn nvidia_only(vendor: GfxVendor, a: StagedAction) -> StagedAction {
    if vendor == GfxVendor::Nvidia {
        a
    } else {
        StagedAction::NotNvidia
    }
}

/// The actions that set up `mode` when the system boots.
pub open spec fn boot_actions(config: GfxConfig, vendor: GfxVendor, mode: GfxMode) -> Seq<StagedAction> {
    let kill = if vendor == GfxVendor::Nvidia {
        StagedAction::KillNvidia
    } else {
        StagedAction::KillAmd
    };
    let dis_pers = nvidia_only(vendor, StagedAction::DisableNvidiaPersistenced);
    let en_pers = nvidia_only(vendor, StagedAction::EnableNvidiaPersistenced);
    let dis_powerd = nvidia_only(vendor, StagedAction::DisableNvidiaPowerd);
    let en_powerd = nvidia_only(vendor, StagedAction::EnableNvidiaPowerd);
    match mode {
        GfxMode::Hybrid => seq![
            StagedAction::WriteModprobeConf,
            StagedAction::CheckVulkanIcd,
            hotplug_add_action(config.hotplug_type),
            StagedAction::RescanPci,
            StagedAction::LoadGpuDrivers,
            en_pers,
            en_powerd,
        ],
        GfxMode::Integrated | GfxMode::NvidiaNoModeset => seq![
            dis_pers,
            dis_powerd,
            kill,
            StagedAction::UnloadGpuDrivers,
            StagedAction::UnbindRemoveGpu,
            StagedAction::WriteModprobeConf,
            StagedAction::CheckVulkanIcd,
            hotplug_remove_action(config.hotplug_type),
        ],
        GfxMode::Vfio => seq![
            dis_pers,
            dis_powerd,
            kill,
            StagedAction::UnloadGpuDrivers,
            StagedAction::WriteModprobeConf,
            StagedAction::CheckVulkanIcd,
            StagedAction::LoadVfioDrivers,
        ],
        GfxMode::AsusEgpu | GfxMode::AsusMuxDgpu => seq![
            StagedAction::WriteModprobeConf,
            StagedAction::CheckVulkanIcd,
            StagedAction::LoadGpuDrivers,
            en_pers,
            en_powerd,
        ],
        GfxMode::Unknown => Seq::empty(),
    }
}

/// Whether logind is used to wait for logout (and the display manager cycled).
pub open spec fn uses_logind(config: GfxConfig) -> bool {
    !config.no_logind && !config.always_reboot
}

/// A logind step when logind is used, else the `NoLogind` marker.
pub open spec fn logind_step(config: GfxConfig, a: StagedAction) -> StagedAction {
    if uses_logind(config) {
        a
    } else {
        StagedAction::NoLogind
    }
}

/// The action that stops processes using the dGPU of this vendor.
pub open spec fn kill_action(vendor: GfxVendor) -> StagedAction {
    if vendor == GfxVendor::Nvidia {
        StagedAction::KillNvidia
    } else if vendor == GfxVendor::Amd {
        StagedAction::KillAmd
    } else {
        StagedAction::NotNvidia
    }
}

/// What switching from `from` to `to` takes.
pub open spec fn switch_actions(config: GfxConfig, vendor: GfxVendor, from: GfxMode, to: GfxMode) -> ActionPlan {
    let wait = logind_step(config, StagedAction::WaitLogout);
    let stop = logind_step(config, StagedAction::StopDisplayManager);
    let start = logind_step(config, StagedAction::StartDisplayManager);
    let kill = kill_action(vendor);
    let rm = hotplug_remove_action(config.hotplug_type);
    let add = hotplug_add_action(config.hotplug_type);
    let dis_pers = StagedAction::DisableNvidiaPersistenced;
    let en_pers = StagedAction::EnableNvidiaPersistenced;
    let dis_powerd = StagedAction::DisableNvidiaPowerd;
    let en_powerd = StagedAction::EnableNvidiaPowerd;
    let nothing = ActionPlan::UserAction(UserActionRequired::Nothing);
    match from {
        GfxMode::Hybrid => match to {
            GfxMode::Integrated => ActionPlan::StagedActions(seq![
                wait, stop, dis_powerd, kill,
                StagedAction::UnloadGpuDrivers, StagedAction::UnbindRemoveGpu,
                StagedAction::WriteModprobeConf, StagedAction::CheckVulkanIcd, rm, start,
            ]),
            GfxMode::Vfio => ActionPlan::UserAction(UserActionRequired::SwitchToIntegrated),
            GfxMode::AsusEgpu => ActionPlan::StagedActions(seq![
                wait, stop, dis_pers, dis_powerd, kill,
                StagedAction::UnloadGpuDrivers, StagedAction::UnbindRemoveGpu,
                StagedAction::WriteModprobeConf, StagedAction::CheckVulkanIcd,
                StagedAction::AsusEgpuEnable, StagedAction::RescanPci, StagedAction::LoadGpuDrivers,
                en_pers, en_powerd, start,
            ]),
            GfxMode::AsusMuxDgpu => ActionPlan::StagedActions(seq![
                StagedAction::CheckVulkanIcd, en_pers, en_powerd, StagedAction::AsusMuxDgpu,
            ]),
            _ => nothing,
        },
        GfxMode::Integrated => match to {
            GfxMode::Hybrid => ActionPlan::StagedActions(seq![
                wait, stop, StagedAction::WriteModprobeConf, StagedAction::CheckVulkanIcd, add,
                StagedAction::RescanPci, StagedAction::LoadGpuDrivers, en_powerd, start,
            ]),
            GfxMode::NvidiaNoModeset => ActionPlan::StagedActions(seq![
                StagedAction::WriteModprobeConf, StagedAction::CheckVulkanIcd, StagedAction::RescanPci,
                StagedAction::LoadGpuDrivers, en_pers, en_powerd,
            ]),
            GfxMode::Vfio => ActionPlan::StagedActions(seq![
                StagedAction::WriteModprobeConf, StagedAction::CheckVulkanIcd, add,
                StagedAction::RescanPci, dis_powerd, kill,
                StagedAction::UnloadGpuDrivers, StagedAction::UnbindGpu, StagedAction::LoadVfioDrivers,
            ]),
            GfxMode::AsusEgpu => ActionPlan::StagedActions(seq![
                wait, stop, StagedAction::WriteModprobeConf, StagedAction::CheckVulkanIcd,
                StagedAction::AsusEgpuEnable, StagedAction::RescanPci, StagedAction::LoadGpuDrivers,
                en_pers, en_powerd, start,
            ]),
            GfxMode::AsusMuxDgpu => ActionPlan::StagedActions(seq![
                StagedAction::WriteModprobeConf, StagedAction::CheckVulkanIcd, add, en_pers, en_powerd,
                StagedAction::AsusMuxDgpu,
            ]),
            _ => nothing,
        },
        GfxMode::NvidiaNoModeset => match to {
            GfxMode::Integrated => ActionPlan::StagedActions(seq![
                dis_powerd, kill, StagedAction::UnloadGpuDrivers,
                StagedAction::UnbindRemoveGpu, StagedAction::WriteModprobeConf,
                StagedAction::CheckVulkanIcd,
            ]),
            GfxMode::Vfio => ActionPlan::StagedActions(seq![
                dis_powerd, kill, StagedAction::UnloadGpuDrivers,
                StagedAction::WriteModprobeConf, StagedAction::CheckVulkanIcd,
                StagedAction::LoadVfioDrivers,
            ]),
            GfxMode::AsusMuxDgpu => ActionPlan::StagedActions(seq![
                en_pers, en_powerd, StagedAction::AsusMuxDgpu,
            ]),
            _ => nothing,
        },
        GfxMode::Vfio => match to {
            GfxMode::Hybrid | GfxMode::NvidiaNoModeset => ActionPlan::StagedActions(seq![
                kill, StagedAction::UnloadVfioDrivers, StagedAction::WriteModprobeConf,
                StagedAction::CheckVulkanIcd, StagedAction::RescanPci, StagedAction::LoadGpuDrivers,
            ]),
            GfxMode::Integrated => ActionPlan::StagedActions(seq![
                kill, StagedAction::UnloadVfioDrivers, StagedAction::UnbindRemoveGpu,
            ]),
            GfxMode::AsusEgpu => ActionPlan::StagedActions(seq![
                wait, stop, StagedAction::UnloadVfioDrivers, StagedAction::UnbindRemoveGpu,
                StagedAction::WriteModprobeConf, StagedAction::CheckVulkanIcd,
                StagedAction::AsusEgpuEnable, StagedAction::RescanPci, StagedAction::LoadGpuDrivers,
                en_pers, en_powerd, start,
            ]),
            GfxMode::AsusMuxDgpu => ActionPlan::StagedActions(seq![
                en_pers, en_powerd, StagedAction::AsusMuxDgpu,
            ]),
            _ => nothing,
        },
        GfxMode::AsusEgpu => match to {
            GfxMode::Hybrid => ActionPlan::StagedActions(seq![
                wait, stop, dis_pers, dis_powerd, kill, StagedAction::UnloadGpuDrivers,
                StagedAction::UnbindRemoveGpu, StagedAction::WriteModprobeConf,
                StagedAction::CheckVulkanIcd, StagedAction::AsusEgpuDisable,
                StagedAction::AsusDgpuEnable, StagedAction::RescanPci, StagedAction::LoadGpuDrivers,
                en_pers, en_powerd, start,
            ]),
            GfxMode::Integrated => ActionPlan::StagedActions(seq![
                wait, stop, dis_pers, dis_powerd, kill, StagedAction::UnloadGpuDrivers,
                StagedAction::UnbindRemoveGpu, StagedAction::WriteModprobeConf,
                StagedAction::AsusEgpuDisable, StagedAction::UnloadGpuDrivers,
                StagedAction::UnbindRemoveGpu, StagedAction::WriteModprobeConf,
                StagedAction::CheckVulkanIcd, rm, start,
            ]),
            GfxMode::Vfio => ActionPlan::UserAction(UserActionRequired::SwitchToIntegrated),
            GfxMode::AsusMuxDgpu => ActionPlan::UserAction(UserActionRequired::AsusEgpuDisable),
            _ => nothing,
        },
        GfxMode::AsusMuxDgpu => match to {
            GfxMode::AsusMuxDgpu => nothing,
            _ => ActionPlan::StagedActions(seq![StagedAction::AsusMuxIgpu]),
        },
        GfxMode::Unknown => nothing,
    }
}

impl StagedAction {
    fn nvidia_only(vendor: GfxVendor, a: StagedAction) -> (r: StagedAction)
        ensures
            r == nvidia_only(vendor, a),
    {
        if vendor == GfxVendor::Nvidia {
            a
        } else {
            StagedAction::NotNvidia
        }
    }

    fn hotplug_remove(t: HotplugType) -> (r: StagedAction)
        ensures
            r == hotplug_remove_action(t),
    {
        match t {
            HotplugType::Std => Self::HotplugUnplug,
            HotplugType::Asus => Self::AsusDgpuDisable,
            HotplugType::NoHotplug => Self::DevTreeManaged,
        }
    }

    fn hotplug_add(t: HotplugType) -> (r: StagedAction)
        ensures
            r == hotplug_add_action(t),
    {
        match t {
            HotplugType::Std => Self::HotplugPlug,
            HotplugType::Asus => Self::AsusDgpuEnable,
            HotplugType::NoHotplug => Self::DevTreeManaged,
        }
    }

    /// Generate a series of initial mode steps, these are specific to booting
    /// the system only, not changing modes
    pub fn action_list_for_boot(config: &GfxConfig, vendor: GfxVendor, mode: GfxMode) -> (r: Vec<StagedAction>)
        ensures
            r@ == boot_actions(*config, vendor, mode),
    {
        let kill_gpu_use = if vendor == GfxVendor::Nvidia {
            Self::KillNvidia
        } else {
            Self::KillAmd
        };
        let disable_nvidia_persistenced = Self::nvidia_only(vendor, Self::DisableNvidiaPersistenced);
        let enable_nvidia_persistenced = Self::nvidia_only(vendor, Self::EnableNvidiaPersistenced);
        let disable_nvidia_powerd = Self::nvidia_only(vendor, Self::DisableNvidiaPowerd);
        let enable_nvidia_powerd = Self::nvidia_only(vendor, Self::EnableNvidiaPowerd);
        let hotplug_rm_type = Self::hotplug_remove(config.hotplug_type);
        let hotplug_add_type = Self::hotplug_add(config.hotplug_type);

        let r = match mode {
            GfxMode::Hybrid => vec![
                Self::WriteModprobeConf,
                Self::CheckVulkanIcd,
                hotplug_add_type,
                Self::RescanPci,
                Self::LoadGpuDrivers,
                enable_nvidia_persistenced,
                enable_nvidia_powerd,
            ],
            GfxMode::Integrated | GfxMode::NvidiaNoModeset => vec![
                disable_nvidia_persistenced,
                disable_nvidia_powerd,
                kill_gpu_use,
                Self::UnloadGpuDrivers,
                Self::UnbindRemoveGpu,
                Self::WriteModprobeConf,
                Self::CheckVulkanIcd,
                hotplug_rm_type,
            ],
            GfxMode::Vfio => vec![
                disable_nvidia_persistenced,
                disable_nvidia_powerd,
                kill_gpu_use,
                Self::UnloadGpuDrivers,
                Self::WriteModprobeConf,
                Self::CheckVulkanIcd,
                Self::LoadVfioDrivers,
            ],
            GfxMode::AsusEgpu => vec![
                Self::WriteModprobeConf,
                Self::CheckVulkanIcd,
                Self::LoadGpuDrivers,
                enable_nvidia_persistenced,
                enable_nvidia_powerd,
            ],
            GfxMode::AsusMuxDgpu => vec![
                Self::WriteModprobeConf,
                Self::CheckVulkanIcd,
                Self::LoadGpuDrivers,
                enable_nvidia_persistenced,
                enable_nvidia_powerd,
            ],
            GfxMode::Unknown => Vec::new(),
        };
        assert(r@ =~= boot_actions(*config, vendor, mode));
        r
    }

    fn kill_for(vendor: GfxVendor) -> (r: StagedAction)
        ensures
            r == kill_action(vendor),
    {
        if vendor == GfxVendor::Nvidia {
            Self::KillNvidia
        } else if vendor == GfxVendor::Amd {
            Self::KillAmd
        } else {
            Self::NotNvidia
        }
    }

    /// Generate a well defined list of specific actions required for the mode switch.
    ///
    /// Between Hybrid, Integrated, NvidiaNoModeset and Vfio only nvidia-powerd is
    /// toggled: the ordering rules leave room for a single service step next to
    /// the kill and driver-load steps.
    ///
    /// There might be some redundancy in this list but it is preferred so as to force
    /// checking of all conditions for from/to combos
    pub fn action_list_for_switch(config: &GfxConfig, vendor: GfxVendor, from: GfxMode, to: GfxMode) -> (r: Action)
        ensures
            r@ == switch_actions(*config, vendor, from, to),
    {
        let mut wait_logout = Self::NoLogind;
        let mut stop_display = Self::NoLogind;
        let mut start_display = Self::NoLogind;
        if !config.no_logind && !config.always_reboot {
            wait_logout = Self::WaitLogout;
            stop_display = Self::StopDisplayManager;
            start_display = Self::StartDisplayManager;
        }
        let kill_gpu_use = Self::kill_for(vendor);
        let disable_nvidia_persistenced = Self::DisableNvidiaPersistenced;
        let enable_nvidia_persistenced = Self::EnableNvidiaPersistenced;
        let disable_nvidia_powerd = Self::DisableNvidiaPowerd;
        let enable_nvidia_powerd = Self::EnableNvidiaPowerd;
        let hotplug_rm_type = Self::hotplug_remove(config.hotplug_type);
        let hotplug_add_type = Self::hotplug_add(config.hotplug_type);

        // Be verbose in this list of actions. It's okay to have repeated blocks as this makes
        // it much clearer which action chain results from which switching combo
        let r = match from {
            GfxMode::Hybrid => match to {
                GfxMode::Integrated => Action::StagedActions(vec![
                    wait_logout,
                    stop_display,
                    disable_nvidia_powerd,
                    kill_gpu_use,
                    Self::UnloadGpuDrivers,
                    Self::UnbindRemoveGpu,
                    Self::WriteModprobeConf,
                    Self::CheckVulkanIcd,
                    hotplug_rm_type,
                    start_display,
                ]),
                // Ask the user to do the switch instead of doing something unexpected
                GfxMode::Vfio => Action::UserAction(UserActionRequired::SwitchToIntegrated),
                GfxMode::AsusEgpu => Action::StagedActions(vec![
                    wait_logout,
                    stop_display,
                    disable_nvidia_persistenced,
                    disable_nvidia_powerd,
                    kill_gpu_use,
                    Self::UnloadGpuDrivers,
                    Self::UnbindRemoveGpu,
                    Self::WriteModprobeConf,
                    Self::CheckVulkanIcd,
                    Self::AsusEgpuEnable,
                    Self::RescanPci,
                    Self::LoadGpuDrivers,
                    enable_nvidia_persistenced,
                    enable_nvidia_powerd,
                    start_display,
                ]),
                GfxMode::AsusMuxDgpu => Action::StagedActions(vec![
                    Self::CheckVulkanIcd,
                    enable_nvidia_persistenced,
                    enable_nvidia_powerd,
                    Self::AsusMuxDgpu,
                ]),
                GfxMode::Hybrid | GfxMode::NvidiaNoModeset | GfxMode::Unknown => {
                    Action::UserAction(UserActionRequired::Nothing)
                },
            },
            GfxMode::Integrated => match to {
                GfxMode::Hybrid => Action::StagedActions(vec![
                    wait_logout,
                    stop_display,
                    Self::WriteModprobeConf,
                    Self::CheckVulkanIcd,
                    hotplug_add_type,
                    Self::RescanPci,
                    Self::LoadGpuDrivers,
                    enable_nvidia_powerd,
                    start_display,
                ]),
                GfxMode::NvidiaNoModeset => Action::StagedActions(vec![
                    Self::WriteModprobeConf,
                    Self::CheckVulkanIcd,
                    Self::RescanPci,
                    Self::LoadGpuDrivers,
                    enable_nvidia_persistenced,
                    enable_nvidia_powerd,
                ]),
                GfxMode::Vfio => Action::StagedActions(vec![
                    Self::WriteModprobeConf,
                    Self::CheckVulkanIcd,
                    hotplug_add_type,
                    Self::RescanPci, // Make the PCI devices available
                    disable_nvidia_powerd,
                    kill_gpu_use,
                    Self::UnloadGpuDrivers, // rescan can load the gpu drivers automatically
                    Self::UnbindGpu,
                    Self::LoadVfioDrivers,
                ]),
                GfxMode::AsusEgpu => Action::StagedActions(vec![
                    wait_logout,
                    stop_display,
                    Self::WriteModprobeConf,
                    Self::CheckVulkanIcd,
                    Self::AsusEgpuEnable,
                    Self::RescanPci,
                    Self::LoadGpuDrivers,
                    enable_nvidia_persistenced,
                    enable_nvidia_powerd,
                    start_display,
                ]),
                GfxMode::AsusMuxDgpu => Action::StagedActions(vec![
                    Self::WriteModprobeConf,
                    Self::CheckVulkanIcd,
                    hotplug_add_type, // must always assume the possibility dgpu_disable was set
                    enable_nvidia_persistenced,
                    enable_nvidia_powerd,
                    Self::AsusMuxDgpu,
                ]),
                GfxMode::Integrated | GfxMode::Unknown => {
                    Action::UserAction(UserActionRequired::Nothing)
                },
            },
            GfxMode::NvidiaNoModeset => match to {
                GfxMode::Hybrid => Action::UserAction(UserActionRequired::Nothing),
                GfxMode::Integrated => Action::StagedActions(vec![
                    disable_nvidia_powerd,
                    kill_gpu_use,
                    Self::UnloadGpuDrivers,
                    Self::UnbindRemoveGpu,
                    Self::WriteModprobeConf,
                    Self::CheckVulkanIcd,
                ]),
                GfxMode::Vfio => Action::StagedActions(vec![
                    disable_nvidia_powerd,
                    kill_gpu_use,
                    Self::UnloadGpuDrivers,
                    Self::WriteModprobeConf,
                    Self::CheckVulkanIcd,
                    Self::LoadVfioDrivers,
                ]),
                GfxMode::AsusEgpu => Action::UserAction(UserActionRequired::Nothing),
                GfxMode::AsusMuxDgpu => Action::StagedActions(vec![
                    enable_nvidia_persistenced,
                    enable_nvidia_powerd,
                    Self::AsusMuxDgpu,
                ]),
                GfxMode::NvidiaNoModeset | GfxMode::Unknown => {
                    Action::UserAction(UserActionRequired::Nothing)
                },
            },
            GfxMode::Vfio => match to {
                GfxMode::Hybrid | GfxMode::NvidiaNoModeset => Action::StagedActions(vec![
                    kill_gpu_use,
                    Self::UnloadVfioDrivers,
                    Self::WriteModprobeConf,
                    Self::CheckVulkanIcd,
                    Self::RescanPci,
                    Self::LoadGpuDrivers,
                ]),
                GfxMode::Integrated => Action::StagedActions(vec![
                    kill_gpu_use,
                    Self::UnloadVfioDrivers,
                    Self::UnbindRemoveGpu,
                ]),
                GfxMode::AsusEgpu => Action::StagedActions(vec![
                    wait_logout,
                    stop_display,
                    Self::UnloadVfioDrivers,
                    Self::UnbindRemoveGpu,
                    Self::WriteModprobeConf,
                    Self::CheckVulkanIcd,
                    Self::AsusEgpuEnable,
                    Self::RescanPci,
                    Self::LoadGpuDrivers,
                    enable_nvidia_persistenced,
                    enable_nvidia_powerd,
                    start_display,
                ]),
                GfxMode::AsusMuxDgpu => Action::StagedActions(vec![
                    enable_nvidia_persistenced,
                    enable_nvidia_powerd,
                    Self::AsusMuxDgpu,
                ]),
                GfxMode::Vfio | GfxMode::Unknown => Action::UserAction(UserActionRequired::Nothing),
            },
            GfxMode::AsusEgpu => match to {
                GfxMode::Hybrid => Action::StagedActions(vec![
                    wait_logout,
                    stop_display,
                    disable_nvidia_persistenced,
                    disable_nvidia_powerd,
                    kill_gpu_use,
                    Self::UnloadGpuDrivers,
                    Self::UnbindRemoveGpu,
                    Self::WriteModprobeConf,
                    Self::CheckVulkanIcd,
                    Self::AsusEgpuDisable,
                    Self::AsusDgpuEnable, // ensure the dgpu is enabled
                    Self::RescanPci,
                    Self::LoadGpuDrivers,
                    enable_nvidia_persistenced,
                    enable_nvidia_powerd,
                    start_display,
                ]),
                GfxMode::Integrated => Action::StagedActions(vec![
                    wait_logout,
                    stop_display,
                    disable_nvidia_persistenced,
                    disable_nvidia_powerd,
                    kill_gpu_use,
                    Self::UnloadGpuDrivers,
                    Self::UnbindRemoveGpu,
                    Self::WriteModprobeConf,
                    Self::AsusEgpuDisable,
                    Self::UnloadGpuDrivers,
                    Self::UnbindRemoveGpu, // egpu disable also enables dgpu, which can reload the drivers
                    Self::WriteModprobeConf,
                    Self::CheckVulkanIcd,
                    hotplug_rm_type, // also need to ensure dgpu is off
                    start_display,
                ]),
                GfxMode::Vfio => Action::UserAction(UserActionRequired::SwitchToIntegrated),
                GfxMode::AsusMuxDgpu => Action::UserAction(UserActionRequired::AsusEgpuDisable),
                GfxMode::AsusEgpu | GfxMode::NvidiaNoModeset | GfxMode::Unknown => {
                    Action::UserAction(UserActionRequired::Nothing)
                },
            },
            // The mux change *ALWAYS* requires a reboot, so only switch to/from mux and hybrid
            GfxMode::AsusMuxDgpu => match to {
                GfxMode::AsusMuxDgpu => Action::UserAction(UserActionRequired::Nothing),
                _ => Action::StagedActions(vec![Self::AsusMuxIgpu]),
            },
            GfxMode::Unknown => Action::UserAction(UserActionRequired::Nothing),
        };
        proof {
            match r@ {
                ActionPlan::StagedActions(s) => {
                    match switch_actions(*config, vendor, from, to) {
                        ActionPlan::StagedActions(t) => { assert(s =~= t); },
                        _ => {},
                    }
                },
                _ => {},
            }
        }
        r
    }
}


/// The class of a login session.
#[derive(Debug, Clone, Copy, PartialEq, Eq, Structural)]
pub enum SessionClassKind {
    User,
    Other,
}

/// The display technology of a login session.
#[derive(Debug, Clone, Copy, PartialEq, Eq, Structural)]
pub enum SessionKind {
    X11,
    Wayland,
    Mir,
    Other,
}

/// The state of a login session.
#[derive(Debug, Clone, Copy, PartialEq, Eq, Structural)]
pub enum SessionStateKind {
    Online,
    Active,
    Closing,
}

/// What logind says of one session; `None` where it could not be asked.
#[derive(Debug, Clone, Copy, PartialEq, Eq, Structural)]
pub struct SessionFacts {
    pub class: Option<SessionClassKind>,
    pub kind: Option<SessionKind>,
    pub state: Option<SessionStateKind>,
}

/// A user's graphical session that is online or active.
pub open spec fn is_live_graphical_session(s: SessionFacts) -> bool {
    &&& s.class == Some(SessionClassKind::User)
    &&& (s.kind == Some(SessionKind::X11) || s.kind == Some(SessionKind::Wayland) || s.kind == Some(
        SessionKind::Mir,
    ))
    &&& (s.state == Some(SessionStateKind::Online) || s.state == Some(SessionStateKind::Active))
}

/// Check if the user has any graphical user sessions that are active or
/// online (sessions that could not be asked about do not count).
pub fn graphical_user_sessions_exist(sessions: &Vec<SessionFacts>) -> (r: bool)
    ensures
        r == exists|i: int| 0 <= i < sessions@.len() && is_live_graphical_session(#[trigger] sessions@[i]),
{
    let mut i: usize = 0;
    while i < sessions.len()
        invariant
            i <= sessions.len(),
            forall|j: int| 0 <= j < i ==> !is_live_graphical_session(#[trigger] sessions@[j]),
        decreases sessions.len() - i,
    {
        let s = sessions[i];
        if s.class == Some(SessionClassKind::User) {
            if let Some(kind) = s.kind {
                match kind {
                    SessionKind::X11 | SessionKind::Wayland | SessionKind::Mir => {
                        if let Some(state) = s.state {
                            match state {
                                SessionStateKind::Online | SessionStateKind::Active => {
                                    assert(is_live_graphical_session(sessions@[i as int]));
                                    return true;
                                },
                                SessionStateKind::Closing => {},
                            }
                        }
                    },
                    SessionKind::Other => {},
                }
            }
        }
        i = i + 1;
    }
    false
}

/// What to do while waiting for the user to log out.
pub enum LogoutWait {
    LoggedOut,
    /// Look again after a short sleep
    KeepWaiting,
    TimedOut(GfxError),
}

/// The message of a logout wait that gave up after `timeout_s` seconds.
pub open spec fn logout_timeout_message(timeout_s: u64) -> Seq<char> {
    "Time ("@ + decimal(timeout_s as nat) + " seconds) for logout exceeded"@
}

/// After looking at the sessions `elapsed_s` seconds into the wait, with the
/// configured timeout `timeout_s` (0 waits forever): done when no graphical
/// session is left, an error once the timeout has passed, otherwise keep
/// waiting.
pub fn logout_wait_step(sessions_exist: bool, elapsed_s: u64, timeout_s: u64) -> (r: LogoutWait)
    ensures
        !sessions_exist ==> r is LoggedOut,
        sessions_exist && timeout_s != 0 && elapsed_s > timeout_s ==> (r matches LogoutWait::TimedOut(e)
            && e matches GfxError::SystemdUnitWaitTimeout(m) && m@ == logout_timeout_message(timeout_s)),
        sessions_exist && (timeout_s == 0 || elapsed_s <= timeout_s) ==> r is KeepWaiting,
{
    if !sessions_exist {
        return LogoutWait::LoggedOut;
    }
    if timeout_s != 0 && elapsed_s > timeout_s {
        let mut m = "Time (".to_owned();
        m.append(decimal_string(timeout_s).as_str());
        m.append(" seconds) for logout exceeded");
        return LogoutWait::TimedOut(GfxError::SystemdUnitWaitTimeout(m));
    }
    LogoutWait::KeepWaiting
}

/// How the dGPU is brought back after the PCI bus changed.
#[derive(Debug, Clone, Copy, PartialEq, Eq, Structural)]
pub enum PciRescan {
    /// No dGPU device is tracked: find the devices afresh
    FindDevices,
    /// Rescan the bus, which re-attaches the drivers
    RescanBus,
}

/// A rescan looks for the devices afresh only when none of the tracked
/// devices is the dGPU (none at all, for example when `dgpu_disable` was set
/// before the daemon started); otherwise it rescans the bus.
pub fn rescan_pci(device: &DiscreetGpu) -> (r: PciRescan)
    ensures
        (r == PciRescan::FindDevices) == !tracks_dgpu(device@),
{
    let devs = device.devices();
    let mut i: usize = 0;
    while i < devs.len()
        invariant
            i <= devs.len(),
            crate::pci_device::device_views(devs@) == device@.devices,
            forall|j: int| 0 <= j < i ==> !(#[trigger] device@.devices[j]).is_dgpu,
        decreases devs.len() - i,
    {
        if devs[i].is_dgpu() {
            assert(device@.devices[i as int].is_dgpu);
            return PciRescan::RescanBus;
        }
        i = i + 1;
    }
    PciRescan::FindDevices
}

/// A set of kernel modules that an action loads or removes.
#[derive(Debug, Clone, Copy, PartialEq, Eq, Structural)]
pub enum ModuleSet {
    /// The Nvidia modules
    Nvidia,
    /// The VFIO PCI driver alone
    VfioPci,
    /// Every VFIO module
    Vfio,
}

impl ModuleSet {
    /// The modules of the set, in the order they are handled.
    pub fn names(self) -> (r: Vec<&'static str>)
        ensures
            self == ModuleSet::Nvidia ==> r@.len() == 4 && r@[0]@ == "nvidia_drm"@ && r@[1]@
                == "nvidia_modeset"@ && r@[2]@ == "nvidia_uvm"@ && r@[3]@ == "nvidia"@,
            self == ModuleSet::VfioPci ==> r@.len() == 1 && r@[0]@ == "vfio-pci"@,
            self == ModuleSet::Vfio ==> r@.len() == 5 && r@[0]@ == "vfio-pci"@ && r@[1]@
                == "vfio_iommu_type1"@ && r@[2]@ == "vfio_virqfd"@ && r@[3]@ == "vfio_mdev"@ && r@[4]@
                == "vfio"@,
    {
        match self {
            ModuleSet::Nvidia => nvidia_drivers(),
            ModuleSet::VfioPci => vec!["vfio-pci"],
            ModuleSet::Vfio => vfio_drivers(),
        }
    }
}

/// A service that runs alongside an Nvidia dGPU.
#[derive(Debug, Clone, Copy, PartialEq, Eq, Structural)]
pub enum NvidiaService {
    Persistenced,
    Powerd,
}

impl NvidiaService {
    /// The systemd unit of the service.
    pub fn unit(self) -> (r: &'static str)
        ensures
            r@ == (match self {
                NvidiaService::Persistenced => "nvidia-persistenced.service"@,
                NvidiaService::Powerd => "nvidia-powerd.service"@,
            }),
    {
        match self {
            NvidiaService::Persistenced => "nvidia-persistenced.service",
            NvidiaService::Powerd => "nvidia-powerd.service",
        }
    }
}

/// What carrying out a staged action takes on this machine.
#[derive(Debug, Clone, Copy, PartialEq, Eq, Structural)]
pub enum ActionStep {
    /// A marker, or an action that does not apply to this dGPU
    Nothing,
    /// Wait until no graphical session is left
    WaitLogout,
    /// Run this `systemctl` action on the display manager, then wait until it
    /// is in the given state, when there is one
    DisplayManager(SystemdUnitAction, Option<SystemdUnitState>),
    /// Load or remove these modules, in order, stopping at the first failure
    Modules(ModuleSet, DriverAction),
    /// Kill the processes that hold the Nvidia device open
    KillNvidiaUsers,
    /// Start (`true`) or stop an Nvidia service
    NvidiaService(NvidiaService, bool),
    /// Bring the dGPU back on the bus
    Rescan(PciRescan),
    /// Unbind every device of the dGPU, then remove every one
    UnbindRemove,
    /// Unbind every device of the dGPU from its driver
    Unbind,
    /// Power the dGPU's hotplug slot on or off
    Hotplug(HotplugState),
    /// Set the ASUS `dgpu_disable` switch
    AsusDgpuDisabled(bool),
    /// Set the ASUS `egpu_enable` switch
    AsusEgpuEnabled(bool),
    /// Set the ASUS MUX to the iGPU (`true`) or the dGPU
    AsusMuxIgpu(bool),
    /// Write the modprobe configuration of the mode being changed to
    WriteModprobeConf,
    /// Put the Nvidia Vulkan ICD profile where the mode wants it; a failure
    /// is only reported
    CheckVulkanIcd,
}

/// Some tracked device of the dGPU is the dGPU itself.
pub open spec fn tracks_dgpu(device: crate::pci_device::DiscreetGpuView) -> bool {
    exists|i: int| 0 <= i < device.devices.len() && (#[trigger] device.devices[i]).is_dgpu
}

/// The step an action takes, for a dGPU of `vendor` and the rescan that
/// `rescan` chooses: the GPU modules and the Nvidia services only for an
/// Nvidia dGPU, nothing for the markers and for killing AMD users; stopping
/// the display manager waits until it is inactive, starting it does not wait.
pub open spec fn step_for(a: StagedAction, vendor: GfxVendor, rescan: PciRescan) -> ActionStep {
    let nvidia = vendor == GfxVendor::Nvidia;
    match a {
        StagedAction::WaitLogout => ActionStep::WaitLogout,
        StagedAction::StopDisplayManager => ActionStep::DisplayManager(SystemdUnitAction::Stop, Some(SystemdUnitState::Inactive)),
        StagedAction::StartDisplayManager => ActionStep::DisplayManager(SystemdUnitAction::Start, None),
        StagedAction::LoadGpuDrivers => if nvidia {
            ActionStep::Modules(ModuleSet::Nvidia, DriverAction::Load)
        } else {
            ActionStep::Nothing
        },
        StagedAction::UnloadGpuDrivers => if nvidia {
            ActionStep::Modules(ModuleSet::Nvidia, DriverAction::Remove)
        } else {
            ActionStep::Nothing
        },
        StagedAction::LoadVfioDrivers => ActionStep::Modules(ModuleSet::VfioPci, DriverAction::Load),
        StagedAction::UnloadVfioDrivers => ActionStep::Modules(ModuleSet::Vfio, DriverAction::Remove),
        StagedAction::KillNvidia => ActionStep::KillNvidiaUsers,
        StagedAction::EnableNvidiaPersistenced => if nvidia {
            ActionStep::NvidiaService(NvidiaService::Persistenced, true)
        } else {
            ActionStep::Nothing
        },
        StagedAction::DisableNvidiaPersistenced => if nvidia {
            ActionStep::NvidiaService(NvidiaService::Persistenced, false)
        } else {
            ActionStep::Nothing
        },
        StagedAction::EnableNvidiaPowerd => if nvidia {
            ActionStep::NvidiaService(NvidiaService::Powerd, true)
        } else {
            ActionStep::Nothing
        },
        StagedAction::DisableNvidiaPowerd => if nvidia {
            ActionStep::NvidiaService(NvidiaService::Powerd, false)
        } else {
            ActionStep::Nothing
        },
        StagedAction::RescanPci => ActionStep::Rescan(rescan),
        StagedAction::UnbindRemoveGpu => ActionStep::UnbindRemove,
        StagedAction::UnbindGpu => ActionStep::Unbind,
        StagedAction::HotplugUnplug => ActionStep::Hotplug(HotplugState::Off),
        StagedAction::HotplugPlug => ActionStep::Hotplug(HotplugState::On),
        StagedAction::AsusDgpuDisable => ActionStep::AsusDgpuDisabled(true),
        StagedAction::AsusDgpuEnable => ActionStep::AsusDgpuDisabled(false),
        StagedAction::AsusEgpuDisable => ActionStep::AsusEgpuEnabled(false),
        StagedAction::AsusEgpuEnable => ActionStep::AsusEgpuEnabled(true),
        StagedAction::AsusMuxIgpu => ActionStep::AsusMuxIgpu(true),
        StagedAction::AsusMuxDgpu => ActionStep::AsusMuxIgpu(false),
        StagedAction::WriteModprobeConf => ActionStep::WriteModprobeConf,
        StagedAction::CheckVulkanIcd => ActionStep::CheckVulkanIcd,
        StagedAction::KillAmd
        | StagedAction::DevTreeManaged
        | StagedAction::NoLogind
        | StagedAction::NotNvidia
        | StagedAction::NoAction => ActionStep::Nothing,
    }
}

impl StagedAction {
    /// What performing this action takes for the dGPU `device`.
    pub fn step(&self, device: &DiscreetGpu) -> (r: ActionStep)
        ensures
            r == step_for(
                *self,
                device@.vendor,
                if tracks_dgpu(device@) {
                    PciRescan::RescanBus
                } else {
                    PciRescan::FindDevices
                },
            ),
    {
        let nvidia = device.is_nvidia();
        match self {
            StagedAction::WaitLogout => ActionStep::WaitLogout,
            StagedAction::StopDisplayManager => ActionStep::DisplayManager(SystemdUnitAction::Stop, Some(SystemdUnitState::Inactive)),
            StagedAction::StartDisplayManager => ActionStep::DisplayManager(SystemdUnitAction::Start, None),
            StagedAction::LoadGpuDrivers => if nvidia {
                ActionStep::Modules(ModuleSet::Nvidia, DriverAction::Load)
            } else {
                ActionStep::Nothing
            },
            StagedAction::UnloadGpuDrivers => if nvidia {
                ActionStep::Modules(ModuleSet::Nvidia, DriverAction::Remove)
            } else {
                ActionStep::Nothing
            },
            StagedAction::LoadVfioDrivers => ActionStep::Modules(ModuleSet::VfioPci, DriverAction::Load),
            StagedAction::UnloadVfioDrivers => ActionStep::Modules(ModuleSet::Vfio, DriverAction::Remove),
            StagedAction::KillNvidia => ActionStep::KillNvidiaUsers,
            StagedAction::EnableNvidiaPersistenced => if nvidia {
                ActionStep::NvidiaService(NvidiaService::Persistenced, true)
            } else {
                ActionStep::Nothing
            },
            StagedAction::DisableNvidiaPersistenced => if nvidia {
                ActionStep::NvidiaService(NvidiaService::Persistenced, false)
            } else {
                ActionStep::Nothing
            },
            StagedAction::EnableNvidiaPowerd => if nvidia {
                ActionStep::NvidiaService(NvidiaService::Powerd, true)
            } else {
                ActionStep::Nothing
            },
            StagedAction::DisableNvidiaPowerd => if nvidia {
                ActionStep::NvidiaService(NvidiaService::Powerd, false)
            } else {
                ActionStep::Nothing
            },
            StagedAction::RescanPci => ActionStep::Rescan(rescan_pci(device)),
            StagedAction::UnbindRemoveGpu => ActionStep::UnbindRemove,
            StagedAction::UnbindGpu => ActionStep::Unbind,
            StagedAction::HotplugUnplug => ActionStep::Hotplug(HotplugState::Off),
            StagedAction::HotplugPlug => ActionStep::Hotplug(HotplugState::On),
            StagedAction::AsusDgpuDisable => ActionStep::AsusDgpuDisabled(true),
            StagedAction::AsusDgpuEnable => ActionStep::AsusDgpuDisabled(false),
            StagedAction::AsusEgpuDisable => ActionStep::AsusEgpuEnabled(false),
            StagedAction::AsusEgpuEnable => ActionStep::AsusEgpuEnabled(true),
            StagedAction::AsusMuxIgpu => ActionStep::AsusMuxIgpu(true),
            StagedAction::AsusMuxDgpu => ActionStep::AsusMuxIgpu(false),
            StagedAction::WriteModprobeConf => ActionStep::WriteModprobeConf,
            StagedAction::CheckVulkanIcd => ActionStep::CheckVulkanIcd,
            StagedAction::KillAmd
            | StagedAction::DevTreeManaged
            | StagedAction::NoLogind
            | StagedAction::NotNvidia
            | StagedAction::NoAction => ActionStep::Nothing,
        }
    }
}

/// Switching a mode to itself never asks anything of the user.
pub proof fn lemma_same_mode_needs_nothing(mode: GfxMode)
    ensures
        user_action_for(mode, mode) == UserActionRequired::Nothing,
{
}

/// Moving the ASUS MUX, in either direction, always takes a reboot.
pub proof fn lemma_mux_change_needs_reboot(other: GfxMode)
    requires
        other != GfxMode::AsusMuxDgpu,
        other != GfxMode::Unknown,
    ensures
        user_action_for(GfxMode::AsusMuxDgpu, other) == UserActionRequired::Reboot,
        user_action_for(other, GfxMode::AsusMuxDgpu) == UserActionRequired::Reboot,
{
}

/// Leaving MUX dGPU mode, for any other target, consists of switching the
/// MUX back to the iGPU and nothing else.
pub proof fn lemma_leaving_mux_switches_mux_only(config: GfxConfig, vendor: GfxVendor, to: GfxMode)
    requires
        to != GfxMode::AsusMuxDgpu,
    ensures
        switch_actions(config, vendor, GfxMode::AsusMuxDgpu, to) == ActionPlan::StagedActions(
            seq![StagedAction::AsusMuxIgpu],
        ),
{
}

/// Nothing is staged when the current mode is unknown or the target is the
/// current mode.
pub proof fn lemma_no_switch_no_actions(config: GfxConfig, vendor: GfxVendor, from: GfxMode, to: GfxMode)
    requires
        from == GfxMode::Unknown || from == to,
    ensures
        switch_actions(config, vendor, from, to) == ActionPlan::UserAction(UserActionRequired::Nothing),
{
}

/// Without logind (`no_logind`, or `always_reboot`), no switch waits for the
/// user to log out or stops and starts the display manager.
pub proof fn lemma_no_logind_never_waits(config: GfxConfig, vendor: GfxVendor, from: GfxMode, to: GfxMode)
    requires
        config.no_logind || config.always_reboot,
    ensures
        switch_actions(config, vendor, from, to) matches ActionPlan::StagedActions(s) ==> forall|i: int|
            0 <= i < s.len() ==> #[trigger] s[i] != StagedAction::WaitLogout && s[i]
                != StagedAction::StopDisplayManager && s[i] != StagedAction::StartDisplayManager,
{
}

/// With logind, every switch that waits for the user to log out stops the
/// display manager right after.
pub proof fn lemma_logout_then_display_manager_stop(config: GfxConfig, vendor: GfxVendor, from: GfxMode, to: GfxMode)
    ensures
        switch_actions(config, vendor, from, to) matches ActionPlan::StagedActions(s) ==> forall|i: int|
            0 <= i < s.len() && #[trigger] s[i] == StagedAction::WaitLogout ==> i + 1 < s.len() && s[i + 1]
                == StagedAction::StopDisplayManager,
{
}

/// `a` comes before `b` in the list `s`.
pub open spec fn staged_before(s: Seq<StagedAction>, a: StagedAction, b: StagedAction) -> bool {
    exists|i: int, j: int| 0 <= i < j < s.len() && s[i] == a && s[j] == b
}

/// `a` occurs in the list `s`.
pub open spec fn staged(s: Seq<StagedAction>, a: StagedAction) -> bool {
    exists|i: int| 0 <= i < s.len() && s[i] == a
}

/// A switch to the eGPU mode (other than out of the MUX mode, which only
/// moves the MUX) that stages anything switches the eGPU on before the bus is
/// rescanned, and loads the GPU drivers after that rescan.
pub proof fn lemma_switch_to_egpu_enables_it(config: GfxConfig, vendor: GfxVendor, from: GfxMode)
    requires
        from != GfxMode::AsusMuxDgpu,
    ensures
        switch_actions(config, vendor, from, GfxMode::AsusEgpu) matches ActionPlan::StagedActions(s) ==> (
        staged_before(s, StagedAction::AsusEgpuEnable, StagedAction::RescanPci) && staged_before(
            s,
            StagedAction::RescanPci,
            StagedAction::LoadGpuDrivers,
        )),
{
    match switch_actions(config, vendor, from, GfxMode::AsusEgpu) {
        ActionPlan::StagedActions(s) => {
            if from == GfxMode::Hybrid {
                assert(s[9] == StagedAction::AsusEgpuEnable && s[10] == StagedAction::RescanPci && s[11]
                    == StagedAction::LoadGpuDrivers);
            } else if from == GfxMode::Integrated {
                assert(s[4] == StagedAction::AsusEgpuEnable && s[5] == StagedAction::RescanPci && s[6]
                    == StagedAction::LoadGpuDrivers);
            } else {
                assert(from == GfxMode::Vfio);
                assert(s[6] == StagedAction::AsusEgpuEnable && s[7] == StagedAction::RescanPci && s[8]
                    == StagedAction::LoadGpuDrivers);
            }
        },
        _ => {},
    }
}

/// A switch out of the eGPU mode that stages anything switches the eGPU off.
pub proof fn lemma_switch_from_egpu_disables_it(config: GfxConfig, vendor: GfxVendor, to: GfxMode)
    ensures
        switch_actions(config, vendor, GfxMode::AsusEgpu, to) matches ActionPlan::StagedActions(s) ==> staged(
            s,
            StagedAction::AsusEgpuDisable,
        ),
{
    match switch_actions(config, vendor, GfxMode::AsusEgpu, to) {
        ActionPlan::StagedActions(s) => {
            if to == GfxMode::Hybrid {
                assert(s[9] == StagedAction::AsusEgpuDisable);
            } else {
                assert(to == GfxMode::Integrated);
                assert(s[8] == StagedAction::AsusEgpuDisable);
            }
        },
        _ => {},
    }
}

/// A staged switch into the MUX mode ends by moving the MUX to the dGPU; one
/// out of it moves the MUX to the iGPU.
pub proof fn lemma_mux_switches_move_the_mux(config: GfxConfig, vendor: GfxVendor, other: GfxMode)
    requires
        other != GfxMode::AsusMuxDgpu,
    ensures
        switch_actions(config, vendor, other, GfxMode::AsusMuxDgpu) matches ActionPlan::StagedActions(s) ==> (
        s.len() > 0 && s.last() == StagedAction::AsusMuxDgpu),
        switch_actions(config, vendor, GfxMode::AsusMuxDgpu, other) matches ActionPlan::StagedActions(s) ==> (
        s.len() > 0 && s.last() == StagedAction::AsusMuxIgpu),
{
}

/// Moving between the eGPU mode and Hybrid, Integrated or NvidiaNoModeset,
/// in either direction, takes a logout.
pub proof fn lemma_egpu_moves_need_logout(m: GfxMode)
    requires
        m == GfxMode::Hybrid || m == GfxMode::Integrated || m == GfxMode::NvidiaNoModeset,
    ensures
        user_action_for(GfxMode::AsusEgpu, m) == UserActionRequired::Logout,
        user_action_for(m, GfxMode::AsusEgpu) == UserActionRequired::Logout,
{
}

/// A staged switch (not out of the MUX mode) into a mode that runs on the
/// dGPU writes the modprobe configuration and loads the GPU drivers after the
/// bus has been rescanned.
pub proof fn lemma_switch_to_dgpu_mode_loads_drivers(config: GfxConfig, vendor: GfxVendor, from: GfxMode, to: GfxMode)
    requires
        from != GfxMode::AsusMuxDgpu,
        to == GfxMode::Hybrid || to == GfxMode::AsusEgpu || to == GfxMode::NvidiaNoModeset,
    ensures
        switch_actions(config, vendor, from, to) matches ActionPlan::StagedActions(s) ==> (staged_before(
            s,
            StagedAction::RescanPci,
            StagedAction::LoadGpuDrivers,
        ) && staged(s, StagedAction::WriteModprobeConf)),
{
    match switch_actions(config, vendor, from, to) {
        ActionPlan::StagedActions(s) => {
            let (w, r, l): (int, int, int) = if from == GfxMode::Hybrid {
                (7, 10, 11)
            } else if from == GfxMode::Integrated && to == GfxMode::Hybrid {
                (2, 5, 6)
            } else if from == GfxMode::Integrated && to == GfxMode::NvidiaNoModeset {
                (0, 2, 3)
            } else if from == GfxMode::Integrated {
                (2, 5, 6)
            } else if from == GfxMode::Vfio && to == GfxMode::AsusEgpu {
                (4, 7, 8)
            } else if from == GfxMode::Vfio {
                (2, 4, 5)
            } else {
                (7, 11, 12)
            };
            assert(s[w] == StagedAction::WriteModprobeConf);
            assert(s[r] == StagedAction::RescanPci && s[l] == StagedAction::LoadGpuDrivers);
        },
        _ => {},
    }
}

/// A staged switch (not out of the MUX mode) to Integrated unbinds and
/// removes the dGPU; from Hybrid or the eGPU mode it also takes the dGPU off
/// the bus by the configured hotplug method.
pub proof fn lemma_switch_to_integrated_removes_dgpu(config: GfxConfig, vendor: GfxVendor, from: GfxMode)
    requires
        from != GfxMode::AsusMuxDgpu,
    ensures
        switch_actions(config, vendor, from, GfxMode::Integrated) matches ActionPlan::StagedActions(s) ==> {
            &&& staged(s, StagedAction::UnbindRemoveGpu)
            &&& (from == GfxMode::Hybrid || from == GfxMode::AsusEgpu) ==> {
                &&& config.hotplug_type == HotplugType::Asus ==> staged(s, StagedAction::AsusDgpuDisable)
                &&& config.hotplug_type == HotplugType::Std ==> staged(s, StagedAction::HotplugUnplug)
            }
        },
{
    match switch_actions(config, vendor, from, GfxMode::Integrated) {
        ActionPlan::StagedActions(s) => {
            if from == GfxMode::Hybrid {
                assert(s[5] == StagedAction::UnbindRemoveGpu);
                let _ = s[8];
            } else if from == GfxMode::NvidiaNoModeset {
                assert(s[3] == StagedAction::UnbindRemoveGpu);
            } else if from == GfxMode::Vfio {
                assert(s[2] == StagedAction::UnbindRemoveGpu);
            } else {
                assert(s[6] == StagedAction::UnbindRemoveGpu);
                let _ = s[13];
            }
        },
        _ => {},
    }
}

/// A staged switch (not out of the MUX mode) to Vfio ends by loading the VFIO
/// driver, after the GPU drivers were unloaded.
pub proof fn lemma_switch_to_vfio_loads_vfio(config: GfxConfig, vendor: GfxVendor, from: GfxMode)
    requires
        from != GfxMode::AsusMuxDgpu,
    ensures
        switch_actions(config, vendor, from, GfxMode::Vfio) matches ActionPlan::StagedActions(s) ==> (s.len() > 0
            && s.last() == StagedAction::LoadVfioDrivers && staged_before(
            s,
            StagedAction::UnloadGpuDrivers,
            StagedAction::LoadVfioDrivers,
        )),
{
    match switch_actions(config, vendor, from, GfxMode::Vfio) {
        ActionPlan::StagedActions(s) => {
            if from == GfxMode::Integrated {
                assert(s[6] == StagedAction::UnloadGpuDrivers && s[8] == StagedAction::LoadVfioDrivers);
            } else {
                assert(s[2] == StagedAction::UnloadGpuDrivers && s[5] == StagedAction::LoadVfioDrivers);
            }
        },
        _ => {},
    }
}

/// What booting into a mode does: the modes that run on the dGPU write the
/// modprobe configuration and load the GPU drivers (Hybrid after a rescan);
/// Integrated and NvidiaNoModeset unload the drivers, unbind and remove the
/// dGPU and end by taking it off the bus by the configured hotplug method;
/// Vfio unloads the GPU drivers and ends by loading the VFIO driver; an
/// unknown mode does nothing.
pub proof fn lemma_boot_actions(config: GfxConfig, vendor: GfxVendor, mode: GfxMode)
    ensures
        ({
            let s = boot_actions(config, vendor, mode);
            &&& (mode == GfxMode::Hybrid || mode == GfxMode::AsusEgpu || mode == GfxMode::AsusMuxDgpu) ==> (
            staged(s, StagedAction::WriteModprobeConf) && staged(s, StagedAction::LoadGpuDrivers))
            &&& mode == GfxMode::Hybrid ==> staged_before(s, StagedAction::RescanPci, StagedAction::LoadGpuDrivers)
            &&& (mode == GfxMode::Integrated || mode == GfxMode::NvidiaNoModeset) ==> {
                &&& staged_before(s, StagedAction::UnloadGpuDrivers, StagedAction::UnbindRemoveGpu)
                &&& s.len() > 0
                &&& config.hotplug_type == HotplugType::Asus ==> s.last() == StagedAction::AsusDgpuDisable
                &&& config.hotplug_type == HotplugType::Std ==> s.last() == StagedAction::HotplugUnplug
            }
            &&& mode == GfxMode::Vfio ==> (s.len() > 0 && s.last() == StagedAction::LoadVfioDrivers
                && staged_before(s, StagedAction::UnloadGpuDrivers, StagedAction::LoadVfioDrivers))
            &&& mode == GfxMode::Unknown ==> s.len() == 0
        }),
{
    let s = boot_actions(config, vendor, mode);
    if mode == GfxMode::Hybrid {
        assert(s[0] == StagedAction::WriteModprobeConf && s[3] == StagedAction::RescanPci && s[4]
            == StagedAction::LoadGpuDrivers);
    } else if mode == GfxMode::AsusEgpu || mode == GfxMode::AsusMuxDgpu {
        assert(s[0] == StagedAction::WriteModprobeConf && s[2] == StagedAction::LoadGpuDrivers);
    } else if mode == GfxMode::Integrated || mode == GfxMode::NvidiaNoModeset {
        assert(s[3] == StagedAction::UnloadGpuDrivers && s[4] == StagedAction::UnbindRemoveGpu);
    } else if mode == GfxMode::Vfio {
        assert(s[3] == StagedAction::UnloadGpuDrivers && s[6] == StagedAction::LoadVfioDrivers);
    }
}

/// How the user actions of mode changes relate: nothing is asked when either
/// mode is unknown; a reboot exactly when the MUX mode is entered or left;
/// switching to Integrated first only when leaving Vfio for Hybrid or the eGPU
/// mode; never to turn the eGPU off; a logout between Hybrid and Integrated
/// (both ways), and from Hybrid or the eGPU mode to Vfio; nothing between
/// Integrated, Vfio and NvidiaNoModeset, nor from NvidiaNoModeset to Hybrid.
pub proof fn lemma_user_action_relations(n: GfxMode, c: GfxMode)
    ensures
        n == GfxMode::Unknown || c == GfxMode::Unknown ==> user_action_for(n, c) == UserActionRequired::Nothing,
        (user_action_for(n, c) == UserActionRequired::Reboot) <==> (n != c && n != GfxMode::Unknown && c
            != GfxMode::Unknown && (n == GfxMode::AsusMuxDgpu || c == GfxMode::AsusMuxDgpu)),
        (user_action_for(n, c) == UserActionRequired::SwitchToIntegrated) <==> (c == GfxMode::Vfio && (n
            == GfxMode::Hybrid || n == GfxMode::AsusEgpu)),
        user_action_for(n, c) != UserActionRequired::AsusEgpuDisable,
        user_action_for(GfxMode::Hybrid, GfxMode::Integrated) == UserActionRequired::Logout,
        user_action_for(GfxMode::Integrated, GfxMode::Hybrid) == UserActionRequired::Logout,
        (c == GfxMode::Hybrid || c == GfxMode::AsusEgpu) ==> user_action_for(GfxMode::Vfio, c)
            == UserActionRequired::Logout,
        (n == GfxMode::Integrated || n == GfxMode::Vfio || n == GfxMode::NvidiaNoModeset) && (c
            == GfxMode::Integrated || c == GfxMode::Vfio || c == GfxMode::NvidiaNoModeset) ==> user_action_for(n, c)
            == UserActionRequired::Nothing,
        user_action_for(GfxMode::Hybrid, GfxMode::NvidiaNoModeset) == UserActionRequired::Nothing,
{
}

/// Vfio is reached from Hybrid or the eGPU mode only through Integrated, and
/// the MUX mode from the eGPU mode only after the eGPU is turned off: such
/// switches stage nothing and ask the user first.
pub proof fn lemma_switches_that_ask_first(config: GfxConfig, vendor: GfxVendor)
    ensures
        switch_actions(config, vendor, GfxMode::Hybrid, GfxMode::Vfio) == ActionPlan::UserAction(
            UserActionRequired::SwitchToIntegrated,
        ),
        switch_actions(config, vendor, GfxMode::AsusEgpu, GfxMode::Vfio) == ActionPlan::UserAction(
            UserActionRequired::SwitchToIntegrated,
        ),
        switch_actions(config, vendor, GfxMode::AsusEgpu, GfxMode::AsusMuxDgpu) == ActionPlan::UserAction(
            UserActionRequired::AsusEgpuDisable,
        ),
{
}

} // verus!
