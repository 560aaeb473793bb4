//! The ordering rules between consecutive staged actions, and the proof that
//! the switch lists obey them. Out-of-order actions can lock up the machine.
use vstd::prelude::*;

use crate::actions::{switch_actions, ActionPlan, StagedAction};
use crate::config::GfxConfig;
use crate::error::GfxError;
use crate::pci_device::{GfxMode, GfxVendor};

verus! {

/// Whether `cur` may come right after `prev` (a list starts after `NoAction`).
pub open spec fn may_follow(cur: StagedAction, prev: StagedAction) -> bool {
    match cur {
        StagedAction::StopDisplayManager => prev == StagedAction::WaitLogout,
        StagedAction::StartDisplayManager => true,
        StagedAction::NoLogind => prev == StagedAction::NoAction || prev == StagedAction::NoLogind
            || prev == StagedAction::HotplugUnplug || prev == StagedAction::AsusDgpuDisable
            || prev == StagedAction::AsusEgpuDisable || prev == StagedAction::DevTreeManaged
            || prev == StagedAction::EnableNvidiaPersistenced
            || prev == StagedAction::EnableNvidiaPowerd || prev == StagedAction::NotNvidia,
        StagedAction::LoadGpuDrivers => prev == StagedAction::RescanPci,
        StagedAction::UnloadGpuDrivers => prev == StagedAction::StopDisplayManager
            || prev == StagedAction::DisableNvidiaPowerd || prev == StagedAction::KillNvidia
            || prev == StagedAction::KillAmd || prev == StagedAction::NotNvidia
            || prev == StagedAction::AsusEgpuDisable,
        StagedAction::KillNvidia => prev == StagedAction::StopDisplayManager
            || prev == StagedAction::DisableNvidiaPersistenced
            || prev == StagedAction::DisableNvidiaPowerd || prev == StagedAction::NoAction,
        StagedAction::KillAmd => prev == StagedAction::NotNvidia
            || prev == StagedAction::DisableNvidiaPersistenced
            || prev == StagedAction::DisableNvidiaPowerd
            || prev == StagedAction::StopDisplayManager || prev == StagedAction::NoAction,
        StagedAction::EnableNvidiaPowerd | StagedAction::EnableNvidiaPersistenced => prev
            == StagedAction::DevTreeManaged || prev == StagedAction::LoadGpuDrivers || prev
            == StagedAction::NoAction,
        StagedAction::DisableNvidiaPowerd | StagedAction::DisableNvidiaPersistenced => prev
            == StagedAction::StopDisplayManager || prev == StagedAction::NoLogind || prev
            == StagedAction::RescanPci || prev == StagedAction::NoAction,
        StagedAction::LoadVfioDrivers | StagedAction::UnloadVfioDrivers => true,
        StagedAction::RescanPci => prev == StagedAction::NoAction
            || prev == StagedAction::AsusDgpuEnable || prev == StagedAction::AsusDgpuDisable
            || prev == StagedAction::AsusEgpuEnable || prev == StagedAction::AsusEgpuDisable
            || prev == StagedAction::HotplugPlug || prev == StagedAction::HotplugUnplug
            || prev == StagedAction::DevTreeManaged || prev == StagedAction::WriteModprobeConf
            || prev == StagedAction::CheckVulkanIcd,
        StagedAction::UnbindRemoveGpu | StagedAction::UnbindGpu => prev
            == StagedAction::UnloadGpuDrivers || prev == StagedAction::UnloadVfioDrivers,
        StagedAction::HotplugUnplug
        | StagedAction::HotplugPlug
        | StagedAction::AsusDgpuDisable
        | StagedAction::AsusDgpuEnable
        | StagedAction::AsusEgpuDisable
        | StagedAction::AsusEgpuEnable
        | StagedAction::DevTreeManaged => prev == StagedAction::WriteModprobeConf || prev
            == StagedAction::CheckVulkanIcd,
        StagedAction::AsusMuxIgpu => prev == StagedAction::NoAction
            || prev == StagedAction::DisableNvidiaPersistenced
            || prev == StagedAction::DisableNvidiaPowerd || prev == StagedAction::NotNvidia,
        StagedAction::AsusMuxDgpu => prev == StagedAction::EnableNvidiaPersistenced
            || prev == StagedAction::EnableNvidiaPowerd || prev == StagedAction::NotNvidia
            || prev == StagedAction::NoAction,
        StagedAction::WriteModprobeConf => prev == StagedAction::StopDisplayManager
            || prev == StagedAction::NoLogind || prev == StagedAction::UnbindRemoveGpu
            || prev == StagedAction::UnloadGpuDrivers || prev == StagedAction::UnloadVfioDrivers
            || prev == StagedAction::NoAction,
        StagedAction::CheckVulkanIcd
        | StagedAction::WaitLogout
        | StagedAction::NotNvidia
        | StagedAction::NoAction => true,
    }
}

/// Whether `next` may come right after `cur`.
pub open spec fn may_precede(cur: StagedAction, next: StagedAction) -> bool {
    match cur {
        StagedAction::WaitLogout => next == StagedAction::StopDisplayManager,
        StagedAction::StopDisplayManager => next == StagedAction::EnableNvidiaPersistenced
            || next == StagedAction::DisableNvidiaPowerd || next == StagedAction::WriteModprobeConf
            || next == StagedAction::CheckVulkanIcd || next == StagedAction::UnloadVfioDrivers
            || next == StagedAction::KillAmd || next == StagedAction::KillNvidia
            || next == StagedAction::NotNvidia,
        StagedAction::StartDisplayManager => next == StagedAction::NoAction,
        StagedAction::NoLogind => next == StagedAction::NoLogind || next == StagedAction::NotNvidia
            || next == StagedAction::EnableNvidiaPersistenced
            || next == StagedAction::DisableNvidiaPowerd || next == StagedAction::WriteModprobeConf
            || next == StagedAction::CheckVulkanIcd,
        StagedAction::LoadGpuDrivers => next == StagedAction::EnableNvidiaPersistenced
            || next == StagedAction::EnableNvidiaPowerd || next == StagedAction::NotNvidia
            || next == StagedAction::NoAction,
        StagedAction::UnloadGpuDrivers => next == StagedAction::UnbindGpu
            || next == StagedAction::UnbindRemoveGpu || next == StagedAction::WriteModprobeConf
            || next == StagedAction::CheckVulkanIcd,
        StagedAction::KillNvidia | StagedAction::KillAmd => next == StagedAction::UnloadGpuDrivers
            || next == StagedAction::UnloadVfioDrivers,
        StagedAction::EnableNvidiaPowerd | StagedAction::EnableNvidiaPersistenced => next
            == StagedAction::StartDisplayManager || next == StagedAction::AsusMuxDgpu || next
            == StagedAction::NoLogind || next == StagedAction::NoAction,
        StagedAction::DisableNvidiaPowerd | StagedAction::DisableNvidiaPersistenced => next
            == StagedAction::KillNvidia || next == StagedAction::KillAmd,
        StagedAction::LoadVfioDrivers => next == StagedAction::NoAction,
        StagedAction::UnloadVfioDrivers => next == StagedAction::UnbindRemoveGpu
            || next == StagedAction::WriteModprobeConf || next == StagedAction::CheckVulkanIcd,
        StagedAction::DevTreeManaged => next == StagedAction::StartDisplayManager
            || next == StagedAction::NoLogind || next == StagedAction::RescanPci,
        StagedAction::RescanPci => next == StagedAction::LoadGpuDrivers
            || next == StagedAction::DisableNvidiaPersistenced
            || next == StagedAction::DisableNvidiaPowerd || next == StagedAction::NotNvidia,
        StagedAction::UnbindRemoveGpu => next == StagedAction::WriteModprobeConf
            || next == StagedAction::CheckVulkanIcd,
        StagedAction::UnbindGpu => next == StagedAction::LoadVfioDrivers,
        StagedAction::HotplugUnplug | StagedAction::AsusDgpuDisable => next
            == StagedAction::StartDisplayManager || next == StagedAction::NoLogind,
        StagedAction::HotplugPlug | StagedAction::AsusDgpuEnable | StagedAction::AsusEgpuEnable => next
            == StagedAction::RescanPci,
        StagedAction::AsusEgpuDisable | StagedAction::AsusMuxIgpu | StagedAction::AsusMuxDgpu => false,
        StagedAction::WriteModprobeConf => next == StagedAction::AsusEgpuDisable
            || next == StagedAction::AsusEgpuEnable || next == StagedAction::HotplugUnplug
            || next == StagedAction::AsusDgpuDisable || next == StagedAction::DevTreeManaged
            || next == StagedAction::HotplugPlug || next == StagedAction::AsusDgpuEnable
            || next == StagedAction::LoadVfioDrivers || next == StagedAction::RescanPci
            || next == StagedAction::CheckVulkanIcd,
        StagedAction::NotNvidia => next == StagedAction::KillAmd
            || next == StagedAction::StartDisplayManager || next == StagedAction::NoLogind,
        StagedAction::NoAction => next == StagedAction::RescanPci || next == StagedAction::NoLogind
            || next == StagedAction::WriteModprobeConf || next == StagedAction::CheckVulkanIcd
            || next == StagedAction::WaitLogout || next == StagedAction::NotNvidia
            || next == StagedAction::KillNvidia || next == StagedAction::KillAmd
            || next == StagedAction::EnableNvidiaPersistenced
            || next == StagedAction::DisableNvidiaPersistenced
            || next == StagedAction::EnableNvidiaPowerd
            || next == StagedAction::DisableNvidiaPowerd
            || next == StagedAction::UnloadVfioDrivers,
        StagedAction::CheckVulkanIcd => true,
    }
}

/// The action before position `i` of a list (`NoAction` before the first).
pub open spec fn action_before(s: Seq<StagedAction>, i: int) -> StagedAction {
    if i == 0 {
        StagedAction::NoAction
    } else {
        s[i - 1]
    }
}

/// Every action of the list may follow the one before it.
pub open spec fn follows_in_order(s: Seq<StagedAction>) -> bool {
    forall|i: int| 0 <= i < s.len() ==> may_follow(#[trigger] s[i], action_before(s, i))
}

/// Every action of the list may be preceded by the one before it.
pub open spec fn precedes_in_order(s: Seq<StagedAction>) -> bool {
    forall|i: int| 0 <= i < s.len() ==> may_precede(action_before(s, i), #[trigger] s[i])
}

impl StagedAction {
    /// Verification that the action lists are in the correct order. If
    /// incorrect then lockups and other errors can occur
    pub fn verify_previous_action_for_current(&self, previous_action: StagedAction) -> (r: Result<(), GfxError>)
        ensures
            r matches Ok(_) <==> may_follow(*self, previous_action),
            r matches Err(e) ==> e == GfxError::IncorrectActionOrder(*self, previous_action),
    {
        let p = previous_action;
        let ok = match self {
            StagedAction::StopDisplayManager => p == StagedAction::WaitLogout,
            StagedAction::StartDisplayManager => true,
            StagedAction::NoLogind => p == StagedAction::NoAction || p == StagedAction::NoLogind
                || p == StagedAction::HotplugUnplug || p == StagedAction::AsusDgpuDisable
                || p == StagedAction::AsusEgpuDisable || p == StagedAction::DevTreeManaged
                || p == StagedAction::EnableNvidiaPersistenced
                || p == StagedAction::EnableNvidiaPowerd || p == StagedAction::NotNvidia,
            StagedAction::LoadGpuDrivers => p == StagedAction::RescanPci,
            StagedAction::UnloadGpuDrivers => p == StagedAction::StopDisplayManager
                || p == StagedAction::DisableNvidiaPowerd || p == StagedAction::KillNvidia
                || p == StagedAction::KillAmd || p == StagedAction::NotNvidia
                || p == StagedAction::AsusEgpuDisable,
            StagedAction::KillNvidia => p == StagedAction::StopDisplayManager
                || p == StagedAction::DisableNvidiaPersistenced
                || p == StagedAction::DisableNvidiaPowerd || p == StagedAction::NoAction,
            StagedAction::KillAmd => p == StagedAction::NotNvidia
                || p == StagedAction::DisableNvidiaPersistenced
                || p == StagedAction::DisableNvidiaPowerd || p == StagedAction::StopDisplayManager
                || p == StagedAction::NoAction,
            StagedAction::EnableNvidiaPowerd | StagedAction::EnableNvidiaPersistenced => p
                == StagedAction::DevTreeManaged || p == StagedAction::LoadGpuDrivers || p
                == StagedAction::NoAction,
            StagedAction::DisableNvidiaPowerd | StagedAction::DisableNvidiaPersistenced => p
                == StagedAction::StopDisplayManager || p == StagedAction::NoLogind || p
                == StagedAction::RescanPci || p == StagedAction::NoAction,
            StagedAction::LoadVfioDrivers | StagedAction::UnloadVfioDrivers => true,
            StagedAction::RescanPci => p == StagedAction::NoAction
                || p == StagedAction::AsusDgpuEnable || p == StagedAction::AsusDgpuDisable
                || p == StagedAction::AsusEgpuEnable || p == StagedAction::AsusEgpuDisable
                || p == StagedAction::HotplugPlug || p == StagedAction::HotplugUnplug
                || p == StagedAction::DevTreeManaged || p == StagedAction::WriteModprobeConf
                || p == StagedAction::CheckVulkanIcd,
            StagedAction::UnbindRemoveGpu | StagedAction::UnbindGpu => p
                == StagedAction::UnloadGpuDrivers || p == StagedAction::UnloadVfioDrivers,
            StagedAction::HotplugUnplug
            | StagedAction::HotplugPlug
            | StagedAction::AsusDgpuDisable
            | StagedAction::AsusDgpuEnable
            | StagedAction::AsusEgpuDisable
            | StagedAction::AsusEgpuEnable
            | StagedAction::DevTreeManaged => p == StagedAction::WriteModprobeConf || p
                == StagedAction::CheckVulkanIcd,
            StagedAction::AsusMuxIgpu => p == StagedAction::NoAction
                || p == StagedAction::DisableNvidiaPersistenced
                || p == StagedAction::DisableNvidiaPowerd || p == StagedAction::NotNvidia,
            StagedAction::AsusMuxDgpu => p == StagedAction::EnableNvidiaPersistenced
                || p == StagedAction::EnableNvidiaPowerd || p == StagedAction::NotNvidia
                || p == StagedAction::NoAction,
            StagedAction::WriteModprobeConf => p == StagedAction::StopDisplayManager
                || p == StagedAction::NoLogind || p == StagedAction::UnbindRemoveGpu
                || p == StagedAction::UnloadGpuDrivers || p == StagedAction::UnloadVfioDrivers
                || p == StagedAction::NoAction,
            StagedAction::CheckVulkanIcd
            | StagedAction::WaitLogout
            | StagedAction::NotNvidia
            | StagedAction::NoAction => true,
        };
        if ok {
            Ok(())
        } else {
            Err(GfxError::IncorrectActionOrder(*self, previous_action))
        }
    }

    /// Verification that `next_allowed_action` may come right after this one.
    pub fn verify_next_allowed_action(&self, next_allowed_action: StagedAction) -> (r: Result<(), GfxError>)
        ensures
            r matches Ok(_) <==> may_precede(*self, next_allowed_action),
            r matches Err(e) ==> e == GfxError::IncorrectActionOrder(next_allowed_action, *self),
    {
        let n = next_allowed_action;
        let ok = match self {
            StagedAction::WaitLogout => n == StagedAction::StopDisplayManager,
            StagedAction::StopDisplayManager => n == StagedAction::EnableNvidiaPersistenced
                || n == StagedAction::DisableNvidiaPowerd || n == StagedAction::WriteModprobeConf
                || n == StagedAction::CheckVulkanIcd || n == StagedAction::UnloadVfioDrivers
                || n == StagedAction::KillAmd || n == StagedAction::KillNvidia
                || n == StagedAction::NotNvidia,
            StagedAction::StartDisplayManager => n == StagedAction::NoAction,
            StagedAction::NoLogind => n == StagedAction::NoLogind || n == StagedAction::NotNvidia
                || n == StagedAction::EnableNvidiaPersistenced
                || n == StagedAction::DisableNvidiaPowerd || n == StagedAction::WriteModprobeConf
                || n == StagedAction::CheckVulkanIcd,
            StagedAction::LoadGpuDrivers => n == StagedAction::EnableNvidiaPersistenced
                || n == StagedAction::EnableNvidiaPowerd || n == StagedAction::NotNvidia
                || n == StagedAction::NoAction,
            StagedAction::UnloadGpuDrivers => n == StagedAction::UnbindGpu
                || n == StagedAction::UnbindRemoveGpu || n == StagedAction::WriteModprobeConf
                || n == StagedAction::CheckVulkanIcd,
            StagedAction::KillNvidia | StagedAction::KillAmd => n == StagedAction::UnloadGpuDrivers
                || n == StagedAction::UnloadVfioDrivers,
            StagedAction::EnableNvidiaPowerd | StagedAction::EnableNvidiaPersistenced => n
                == StagedAction::StartDisplayManager || n == StagedAction::AsusMuxDgpu || n
                == StagedAction::NoLogind || n == StagedAction::NoAction,
            StagedAction::DisableNvidiaPowerd | StagedAction::DisableNvidiaPersistenced => n
                == StagedAction::KillNvidia || n == StagedAction::KillAmd,
            StagedAction::LoadVfioDrivers => n == StagedAction::NoAction,
            StagedAction::UnloadVfioDrivers => n == StagedAction::UnbindRemoveGpu
                || n == StagedAction::WriteModprobeConf || n == StagedAction::CheckVulkanIcd,
            StagedAction::DevTreeManaged => n == StagedAction::StartDisplayManager
                || n == StagedAction::NoLogind || n == StagedAction::RescanPci,
            StagedAction::RescanPci => n == StagedAction::LoadGpuDrivers
                || n == StagedAction::DisableNvidiaPersistenced
                || n == StagedAction::DisableNvidiaPowerd || n == StagedAction::NotNvidia,
            StagedAction::UnbindRemoveGpu => n == StagedAction::WriteModprobeConf
                || n == StagedAction::CheckVulkanIcd,
            StagedAction::UnbindGpu => n == StagedAction::LoadVfioDrivers,
            StagedAction::HotplugUnplug | StagedAction::AsusDgpuDisable => n
                == StagedAction::StartDisplayManager || n == StagedAction::NoLogind,
            StagedAction::HotplugPlug | StagedAction::AsusDgpuEnable | StagedAction::AsusEgpuEnable => n
                == StagedAction::RescanPci,
            StagedAction::AsusEgpuDisable | StagedAction::AsusMuxIgpu | StagedAction::AsusMuxDgpu => false,
            StagedAction::WriteModprobeConf => n == StagedAction::AsusEgpuDisable
                || n == StagedAction::AsusEgpuEnable || n == StagedAction::HotplugUnplug
                || n == StagedAction::AsusDgpuDisable || n == StagedAction::DevTreeManaged
                || n == StagedAction::HotplugPlug || n == StagedAction::AsusDgpuEnable
                || n == StagedAction::LoadVfioDrivers || n == StagedAction::RescanPci
                || n == StagedAction::CheckVulkanIcd,
            StagedAction::NotNvidia => n == StagedAction::KillAmd
                || n == StagedAction::StartDisplayManager || n == StagedAction::NoLogind,
            StagedAction::NoAction => n == StagedAction::RescanPci || n == StagedAction::NoLogind
                || n == StagedAction::WriteModprobeConf || n == StagedAction::CheckVulkanIcd
                || n == StagedAction::WaitLogout || n == StagedAction::NotNvidia
                || n == StagedAction::KillNvidia || n == StagedAction::KillAmd
                || n == StagedAction::EnableNvidiaPersistenced
                || n == StagedAction::DisableNvidiaPersistenced
                || n == StagedAction::EnableNvidiaPowerd
                || n == StagedAction::DisableNvidiaPowerd
                || n == StagedAction::UnloadVfioDrivers,
            StagedAction::CheckVulkanIcd => true,
        };
        if ok {
            Ok(())
        } else {
            Err(GfxError::IncorrectActionOrder(next_allowed_action, *self))
        }
    }
}

/// The combinations of vendor and modes that the ordering rules are held to:
/// Nvidia or AMD dGPUs, from Hybrid, Integrated, NvidiaNoModeset, Vfio or
/// Unknown to Hybrid, Integrated, Vfio or Unknown.
pub open spec fn ordered_switch_case(vendor: GfxVendor, from: GfxMode, to: GfxMode) -> bool {
    &&& vendor == GfxVendor::Nvidia || vendor == GfxVendor::Amd
    &&& from != GfxMode::AsusEgpu && from != GfxMode::AsusMuxDgpu
    &&& to != GfxMode::NvidiaNoModeset && to != GfxMode::AsusEgpu && to != GfxMode::AsusMuxDgpu
}

/// Every action of a switch list may follow the action before it, for every
/// configuration and every switch that `ordered_switch_case` admits.
pub proof fn lemma_switch_actions_follow_in_order(config: GfxConfig, vendor: GfxVendor, from: GfxMode, to: GfxMode)
    requires
        ordered_switch_case(vendor, from, to),
    ensures
        switch_actions(config, vendor, from, to) matches ActionPlan::StagedActions(s) ==> follows_in_order(s),
{
    match switch_actions(config, vendor, from, to) {
        ActionPlan::StagedActions(s) => {
            assert forall|i: int| 0 <= i < s.len() implies may_follow(#[trigger] s[i], action_before(s, i)) by {
                if i > 0 {
                    let _ = s[i - 1];
                }
            }
        },
        _ => {},
    }
}

/// Every action of a switch list may be preceded by the action before it, for
/// the same configurations, vendors and modes as the rule above.
pub proof fn lemma_switch_actions_precede_in_order(config: GfxConfig, vendor: GfxVendor, from: GfxMode, to: GfxMode)
    requires
        ordered_switch_case(vendor, from, to),
    ensures
        switch_actions(config, vendor, from, to) matches ActionPlan::StagedActions(s) ==> precedes_in_order(s),
{
    match switch_actions(config, vendor, from, to) {
        ActionPlan::StagedActions(s) => {
            assert forall|i: int| 0 <= i < s.len() implies may_precede(action_before(s, i), #[trigger] s[i]) by {
                if i > 0 {
                    let _ = s[i - 1];
                }
            }
        },
        _ => {},
    }
}

} // verus!
