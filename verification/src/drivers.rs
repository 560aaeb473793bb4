//! Kernel driver modules that a mode change loads and unloads.
use vstd::prelude::*;
use vstd::string::StringExecFns;

use crate::error::GfxError;
use crate::text::{contains_seq, str_contains};

verus! {

/// Load or remove a kernel module.
#[derive(Debug, PartialEq, Eq, Structural, Clone, Copy)]
pub enum DriverAction {
    Remove,
    Load,
}

impl DriverAction {
    /// The command that performs the action.
    pub fn command(self) -> (r: &'static str)
        ensures
            r@ == (match self {
                DriverAction::Remove => "rmmod"@,
                DriverAction::Load => "modprobe"@,
            }),
    {
        match self {
            DriverAction::Remove => "rmmod",
            DriverAction::Load => "modprobe",
        }
    }
}

/// The Nvidia modules, in the order they are loaded and unloaded.
pub fn nvidia_drivers() -> (r: Vec<&'static str>)
    ensures
        r@.len() == 4,
        r@[0]@ == "nvidia_drm"@,
        r@[1]@ == "nvidia_modeset"@,
        r@[2]@ == "nvidia_uvm"@,
        r@[3]@ == "nvidia"@,
{
    vec!["nvidia_drm", "nvidia_modeset", "nvidia_uvm", "nvidia"]
}

/// The VFIO modules, in the order they are unloaded.
pub fn vfio_drivers() -> (r: Vec<&'static str>)
    ensures
        r@.len() == 5,
        r@[0]@ == "vfio-pci"@,
        r@[1]@ == "vfio_iommu_type1"@,
        r@[2]@ == "vfio_virqfd"@,
        r@[3]@ == "vfio_mdev"@,
        r@[4]@ == "vfio"@,
{
    vec!["vfio-pci", "vfio_iommu_type1", "vfio_virqfd", "vfio_mdev", "vfio"]
}

/// How many times a module command that finds the module busy is run.
pub const MODULE_TRIES: u32 = 6;

/// What to make of a run of `modprobe` or `rmmod`.
pub enum ModuleOutcome {
    Done,
    /// The module is busy: run the command again after a short sleep
    Retry,
    Failed(GfxError),
}

/// The outcome of run number `run` (from 0) of the module command for
/// `driver`, given whether it succeeded and what it printed on standard
/// error: removing a module that is not loaded is no failure, a busy module
/// is tried again until the runs are used up, anything else fails with the
/// command and its message.
pub fn module_outcome(action: DriverAction, driver: &str, success: bool, stderr: &str, run: u32) -> (r: ModuleOutcome)
    ensures
        success ==> r is Done,
        !success && contains_seq(stderr@, "is not currently loaded"@) ==> r is Done,
        !success && !contains_seq(stderr@, "is not currently loaded"@) && contains_seq(
            stderr@,
            "Device or resource busy"@,
        ) && run + 1 < MODULE_TRIES ==> r is Retry,
        !success && !contains_seq(stderr@, "is not currently loaded"@) && !(contains_seq(
            stderr@,
            "Device or resource busy"@,
        ) && run + 1 < MODULE_TRIES) ==> (r matches ModuleOutcome::Failed(GfxError::Command(c, m)) && c@
            == (match action {
            DriverAction::Remove => "rmmod"@,
            DriverAction::Load => "modprobe"@,
        }) + " "@ + driver@ && m@ == stderr@),
{
    if success || str_contains(stderr, "is not currently loaded") {
        return ModuleOutcome::Done;
    }
    if str_contains(stderr, "Device or resource busy") && run < MODULE_TRIES - 1 {
        return ModuleOutcome::Retry;
    }
    let mut command = action.command().to_owned();
    command.append(" ");
    command.append(driver);
    ModuleOutcome::Failed(GfxError::Command(command, stderr.to_owned()))
}

/// The systemd unit of the display manager.
pub const DISPLAY_MANAGER: &'static str = "display-manager.service";

} // verus!
