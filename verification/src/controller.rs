//! The decisions of the graphics controller: which mode is current, which
//! modes are supported, what to do on boot and reload, how a mode change is
//! started and finished, and the answers of the D-Bus interface.
use vstd::prelude::*;

use crate::actions::{
    boot_actions, switch_actions, user_action_for, Action, ActionPlan, ActionStep, StagedAction,
    UserActionRequired,
};
use crate::config::{dbus_config_of, GfxConfig, GfxConfigDbus, GfxConfigView};
use crate::error::GfxError;
use crate::pci_device::{dgpu_power, DiscreetGpu, GfxMode, GfxPower, GfxVendor, HotplugType};
use crate::special_asus::{AsusGpuMuxMode, AsusState};

verus! {

/// The mode in effect: the temporary mode when one is set, else the mode.
pub open spec fn current_mode(c: GfxConfigView) -> GfxMode {
    match c.tmp_mode {
        Some(m) => m,
        None => c.mode,
    }
}

/// The configuration with `mode` as the configured mode.
pub open spec fn with_mode(c: GfxConfigView, mode: GfxMode) -> GfxConfigView {
    GfxConfigView { mode, ..c }
}

/// The configuration with these pending mode and user action.
pub open spec fn with_pending(
    c: GfxConfigView,
    pending_mode: Option<GfxMode>,
    pending_action: Option<UserActionRequired>,
) -> GfxConfigView {
    GfxConfigView { pending_mode, pending_action, ..c }
}

/// The configuration with the settings that D-Bus may change taken from `d`.
pub open spec fn with_dbus_settings(c: GfxConfigView, d: GfxConfigDbus) -> GfxConfigView {
    GfxConfigView {
        vfio_enable: d.vfio_enable,
        vfio_save: d.vfio_save,
        always_reboot: d.always_reboot,
        no_logind: d.no_logind,
        logout_timeout_s: d.logout_timeout_s,
        ..c
    }
}

/// Which mode is set.
pub fn get_gfx_mode(config: &GfxConfig) -> (r: GfxMode)
    ensures
        r == current_mode(config@),
{
    if let Some(mode) = config.tmp_mode {
        return mode;
    }
    config.mode
}

/// The mode a change is under way to, or `Unknown`.
pub fn get_pending_mode(config: &GfxConfig) -> (r: GfxMode)
    ensures
        r == match config@.pending_mode {
            Some(m) => m,
            None => GfxMode::Unknown,
        },
{
    if let Some(mode) = config.pending_mode {
        return mode;
    }
    GfxMode::Unknown
}

/// What the user must do to complete a change under way, or `Nothing`.
pub fn get_pending_user_action(config: &GfxConfig) -> (r: UserActionRequired)
    ensures
        r == match config@.pending_action {
            Some(a) => a,
            None => UserActionRequired::Nothing,
        },
{
    if let Some(action) = config.pending_action {
        return action;
    }
    UserActionRequired::Nothing
}

/// What the machine offers beyond the dGPU itself.
#[derive(Debug, Clone, Copy, PartialEq, Eq, Structural)]
pub struct PlatformSupport {
    pub dgpu_disable_exists: bool,
    pub egpu_enable_exists: bool,
    pub gpu_mux_exists: bool,
    /// What the kernel command line sets `nvidia-drm.modeset` to, when it does
    pub nvidia_modeset: Option<bool>,
}

/// The supported modes: only Integrated without a known dGPU (unless the ASUS
/// dGPU switch exists), else Integrated and Hybrid, then Vfio when enabled,
/// AsusEgpu and AsusMuxDgpu when the switches exist, and NvidiaNoModeset when
/// the kernel was booted with modesetting off.
pub open spec fn supported_modes(vendor: GfxVendor, p: PlatformSupport, vfio_enable: bool) -> Seq<GfxMode> {
    if vendor == GfxVendor::Unknown && !p.dgpu_disable_exists {
        seq![GfxMode::Integrated]
    } else {
        seq![GfxMode::Integrated, GfxMode::Hybrid] + (if vfio_enable {
            seq![GfxMode::Vfio]
        } else {
            Seq::empty()
        }) + (if p.egpu_enable_exists {
            seq![GfxMode::AsusEgpu]
        } else {
            Seq::empty()
        }) + (if p.gpu_mux_exists {
            seq![GfxMode::AsusMuxDgpu]
        } else {
            Seq::empty()
        }) + (if p.nvidia_modeset == Some(false) {
            seq![GfxMode::NvidiaNoModeset]
        } else {
            Seq::empty()
        })
    }
}

/// The list of supported modes.
pub fn get_supported_modes(vendor: GfxVendor, platform: PlatformSupport, config: &GfxConfig) -> (r: Vec<GfxMode>)
    ensures
        r@ == supported_modes(vendor, platform, config@.vfio_enable),
{
    let mut list = vec![GfxMode::Integrated, GfxMode::Hybrid];
    if vendor == GfxVendor::Unknown && !platform.dgpu_disable_exists {
        let r = vec![GfxMode::Integrated];
        assert(r@ =~= seq![GfxMode::Integrated]);
        return r;
    }
    let ghost l0 = list@;
    if config.vfio_enable {
        list.push(GfxMode::Vfio);
    }
    let ghost l1 = list@;
    if platform.egpu_enable_exists {
        list.push(GfxMode::AsusEgpu);
    }
    let ghost l2 = list@;
    if platform.gpu_mux_exists {
        list.push(GfxMode::AsusMuxDgpu);
    }
    let ghost l3 = list@;
    if let Some(res) = platform.nvidia_modeset {
        if !res {
            list.push(GfxMode::NvidiaNoModeset);
        }
    }
    assert(l0 =~= seq![GfxMode::Integrated, GfxMode::Hybrid]);
    assert(list@ =~= supported_modes(vendor, platform, config@.vfio_enable));
    list
}

/// A mode can only be asked for when the machine supports it: the eGPU mode
/// needs the ASUS eGPU switch.
pub fn mode_support_check(mode: GfxMode, egpu_enable_exists: bool) -> (r: Result<(), GfxError>)
    ensures
        r is Ok <==> !(mode == GfxMode::AsusEgpu && !egpu_enable_exists),
        r matches Err(e) ==> e.is_not_supported(
            "Egpu mode requested when either the laptop doesn't support it or the kernel module is too old"@,
        ),
{
    if mode == GfxMode::AsusEgpu && !egpu_enable_exists {
        return Err(
            GfxError::NotSupported(
                "Egpu mode requested when either the laptop doesn't support it or the kernel module is too old".to_owned(),
            ),
        );
    }
    Ok(())
}

/// The mode to set up on (re)load: the one the kernel command line asks for
/// (which also becomes the configured mode), else the current mode; `None`
/// when that mode cannot be set up (Vfio while VFIO is disabled, AsusEgpu
/// without the eGPU switch).
pub fn reload_mode(config: &mut GfxConfig, cmdline_mode: Option<GfxMode>, egpu_enable_exists: bool) -> (r: Option<GfxMode>)
    ensures
        final(config)@ == match cmdline_mode {
            Some(m) => with_mode(old(config)@, m),
            None => old(config)@,
        },
        ({
            let mode = match cmdline_mode {
                Some(m) => m,
                None => current_mode(old(config)@),
            };
            if mode == GfxMode::Vfio && !old(config)@.vfio_enable {
                r is None
            } else if mode == GfxMode::AsusEgpu && !egpu_enable_exists {
                r is None
            } else {
                r == Some(mode)
            }
        }),
{
    let vfio_enable = config.vfio_enable;
    let mode = match cmdline_mode {
        Some(m) => {
            config.mode = m;
            m
        },
        None => get_gfx_mode(config),
    };
    if mode == GfxMode::Vfio && !vfio_enable {
        return None;
    }
    if mode == GfxMode::AsusEgpu && !egpu_enable_exists {
        return None;
    }
    Some(mode)
}

/// The boot tasks for `mode`: the mode the ASUS safety check settled on
/// (when it could decide) replaces it, in the configuration too; then the
/// boot action list for the resulting mode.
pub fn boot_tasks(config: &mut GfxConfig, vendor: GfxVendor, mode: GfxMode, checked_mode: Option<GfxMode>) -> (r: (
    GfxMode,
    Vec<StagedAction>,
))
    ensures
        final(config)@ == match checked_mode {
            Some(m) => with_mode(old(config)@, m),
            None => old(config)@,
        },
        r.0 == match checked_mode {
            Some(m) => m,
            None => mode,
        },
        r.1@ == boot_actions(*final(config), vendor, r.0),
{
    let mut mode = mode;
    if let Some(checked) = checked_mode {
        config.mode = checked;
        mode = checked;
    }
    let actions = StagedAction::action_list_for_boot(config, vendor, mode);
    (mode, actions)
}

/// Start a change to `mode`: the user action is a reboot when the
/// configuration always reboots, else what the modes call for; the actions
/// are those that switch from the configured mode; both are recorded as
/// pending.
pub fn begin_mode_change(config: &mut GfxConfig, vendor: GfxVendor, mode: GfxMode) -> (r: (
    UserActionRequired,
    Action,
))
    ensures
        r.0 == (if old(config)@.always_reboot {
            UserActionRequired::Reboot
        } else {
            user_action_for(mode, old(config)@.mode)
        }),
        r.1@ == switch_actions(*old(config), vendor, old(config)@.mode, mode),
        final(config)@ == with_pending(old(config)@, Some(mode), Some(r.0)),
{
    let from = config.mode;
    let user_action_required = if config.always_reboot {
        UserActionRequired::Reboot
    } else {
        UserActionRequired::mode_change_action(mode, config.mode)
    };
    let actions = StagedAction::action_list_for_switch(config, vendor, from, mode);
    config.pending_mode = Some(mode);
    config.pending_action = Some(user_action_required);
    (user_action_required, actions)
}

/// What a request for a mode change answers: the user action the switch
/// itself asks for when it stages nothing, else the user action the change
/// needs.
pub fn mode_change_reply(user_action: UserActionRequired, actions: &Action) -> (r: UserActionRequired)
    ensures
        r == match actions@ {
            ActionPlan::UserAction(u) => u,
            ActionPlan::StagedActions(_) => user_action,
        },
{
    match actions {
        Action::UserAction(u) => *u,
        Action::StagedActions(_) => user_action,
    }
}

/// Whether a failed action ends the whole change: only a timeout (such as
/// waiting for logout) does; after other failures the remaining actions
/// still run.
pub fn action_failure_stops(err: &GfxError) -> (r: bool)
    ensures
        r == (*err is SystemdUnitWaitTimeout),
{
    match err {
        GfxError::SystemdUnitWaitTimeout(_) => true,
        _ => false,
    }
}

/// Which run of staged actions an outcome comes from.
#[derive(Debug, Clone, Copy, PartialEq, Eq, Structural)]
pub enum RunPhase {
    /// The actions that set the mode up on boot
    Boot,
    /// The actions of a requested mode change
    Change,
    /// The actions that switch back after a failed change
    SwitchBack,
}

/// What a run does after one of its actions.
#[derive(Debug, Clone, Copy, PartialEq, Eq, Structural)]
pub enum RunNext {
    /// Go on; the action counts as done
    Continue,
    /// Go on, but the run has failed
    ContinueFailed,
    /// Stop the run; it has failed
    Stop,
}

/// What a run does after an action whose step was `step` ended with
/// `outcome`: a success goes on, and so does a failure to place the Vulkan
/// ICD profile (it is only reported); otherwise on boot every failure is
/// reported and the run goes on, a mode change stops only at a timeout (such
/// as waiting for logout) and goes on failed after other failures, and the
/// switch back stops at its first failure.
pub open spec fn run_next(phase: RunPhase, step: ActionStep, outcome: Result<(), GfxError>) -> RunNext {
    match outcome {
        Ok(_) => RunNext::Continue,
        Err(e) => if step == ActionStep::CheckVulkanIcd {
            RunNext::Continue
        } else {
            match phase {
                RunPhase::Boot => RunNext::ContinueFailed,
                RunPhase::Change => if e is SystemdUnitWaitTimeout {
                    RunNext::Stop
                } else {
                    RunNext::ContinueFailed
                },
                RunPhase::SwitchBack => RunNext::Stop,
            }
        },
    }
}

pub fn run_outcome(phase: RunPhase, step: ActionStep, outcome: &Result<(), GfxError>) -> (r: RunNext)
    ensures
        r == run_next(phase, step, *outcome),
{
    match outcome {
        Ok(_) => RunNext::Continue,
        Err(e) => {
            if step == ActionStep::CheckVulkanIcd {
                return RunNext::Continue;
            }
            match phase {
                RunPhase::Boot => RunNext::ContinueFailed,
                RunPhase::Change => if action_failure_stops(e) {
                    RunNext::Stop
                } else {
                    RunNext::ContinueFailed
                },
                RunPhase::SwitchBack => RunNext::Stop,
            }
        },
    }
}

/// Finish a change to `mode` after its actions ran: nothing is pending any
/// more; on success `mode` is the configured mode, after a failure the
/// actions that switch back from `mode` to the configured mode are returned.
pub fn finish_mode_change(config: &mut GfxConfig, vendor: GfxVendor, mode: GfxMode, failed: bool) -> (r: Option<Action>)
    ensures
        !failed ==> final(config)@ == with_mode(with_pending(old(config)@, None, None), mode),
        !failed ==> (r is None),
        failed ==> final(config)@ == with_pending(old(config)@, None, None),
        failed ==> (r matches Some(a) && a@ == switch_actions(*final(config), vendor, mode, old(config)@.mode)),
{
    config.pending_mode = None;
    config.pending_action = None;
    if !failed {
        config.mode = mode;
        return None;
    }
    let from = config.mode;
    Some(StagedAction::action_list_for_switch(config, vendor, mode, from))
}

/// The mode reported over D-Bus: AsusMuxDgpu while the MUX is in discrete
/// mode, else the current mode.
pub fn dbus_mode(mux_mode: Option<AsusGpuMuxMode>, config: &GfxConfig) -> (r: GfxMode)
    ensures
        r == (if mux_mode == Some(AsusGpuMuxMode::Discreet) {
            GfxMode::AsusMuxDgpu
        } else {
            current_mode(config@)
        }),
{
    if let Some(state) = mux_mode {
        if state == AsusGpuMuxMode::Discreet {
            return GfxMode::AsusMuxDgpu;
        }
    }
    get_gfx_mode(config)
}

/// The supported modes reported over D-Bus: with the MUX in discrete mode
/// AsusMuxDgpu, Integrated and Hybrid; else the supported modes.
pub fn dbus_supported(
    mux_mode: Option<AsusGpuMuxMode>,
    vendor: GfxVendor,
    platform: PlatformSupport,
    config: &GfxConfig,
) -> (r: Vec<GfxMode>)
    ensures
        r@ == (if mux_mode == Some(AsusGpuMuxMode::Discreet) {
            seq![GfxMode::AsusMuxDgpu, GfxMode::Integrated, GfxMode::Hybrid]
        } else {
            supported_modes(vendor, platform, config@.vfio_enable)
        }),
{
    if let Some(state) = mux_mode {
        if state == AsusGpuMuxMode::Discreet {
            let r = vec![GfxMode::AsusMuxDgpu, GfxMode::Integrated, GfxMode::Hybrid];
            assert(r@ =~= seq![GfxMode::AsusMuxDgpu, GfxMode::Integrated, GfxMode::Hybrid]);
            return r;
        }
    }
    get_supported_modes(vendor, platform, config)
}

/// The dGPU power state reported over D-Bus: AsusMuxDiscreet while the MUX is
/// in discrete mode, else the dGPU's power state.
pub fn dbus_power(mux_mode: Option<AsusGpuMuxMode>, dgpu: &DiscreetGpu, asus: &AsusState, status_file: Option<String>) -> (r: Result<
    GfxPower,
    GfxError,
>)
    ensures
        mux_mode == Some(AsusGpuMuxMode::Discreet) ==> r == Ok::<GfxPower, GfxError>(GfxPower::AsusMuxDiscreet),
        mux_mode != Some(AsusGpuMuxMode::Discreet) ==> (match r {
            Ok(p) => dgpu_power(dgpu@, *asus, status_file) == Some(p),
            Err(e) => dgpu_power(dgpu@, *asus, status_file) is None && e.is_not_supported(
                "get_runtime_status: Could not find dGPU"@,
            ),
        }),
{
    if let Some(state) = mux_mode {
        if state == AsusGpuMuxMode::Discreet {
            return Ok(GfxPower::AsusMuxDiscreet);
        }
    }
    dgpu.get_runtime_status(asus, status_file)
}

/// Take over a configuration sent over D-Bus: the VFIO, reboot and logind
/// settings change at once; the sent mode is returned, to be set as the mode
/// (a change like any other, which leaves the configuration alone when the
/// mode is already set). The hotplug method is not changed.
pub fn apply_dbus_config(cfg: &mut GfxConfig, config: &GfxConfigDbus) -> (r: GfxMode)
    ensures
        final(cfg)@ == with_dbus_settings(old(cfg)@, *config),
        r == config.mode,
{
    cfg.vfio_enable = config.vfio_enable;
    cfg.vfio_save = config.vfio_save;
    cfg.always_reboot = config.always_reboot;
    cfg.no_logind = config.no_logind;
    cfg.logout_timeout_s = config.logout_timeout_s;
    config.mode
}

/// On waking from suspend the dGPU must be disabled again when the machine
/// is in Integrated mode using the ASUS switch, and the switch exists.
pub fn disable_dgpu_on_wake(config: &GfxConfig, dgpu_disable_exists: bool) -> (r: bool)
    ensures
        r == (config@.mode == GfxMode::Integrated && config@.hotplug_type == HotplugType::Asus
            && dgpu_disable_exists),
{
    config.mode == GfxMode::Integrated && config.hotplug_type == HotplugType::Asus && dgpu_disable_exists
}

/// The D-Bus view of the configuration.
pub fn dbus_config(config: &GfxConfig) -> (r: GfxConfigDbus)
    ensures
        r == dbus_config_of(config@),
{
    GfxConfigDbus::from_config(config)
}


/// A change that completes leaves the requested mode configured and nothing
/// pending, and changes nothing else of a configuration that had nothing
/// pending.
pub proof fn lemma_completed_change_sets_mode_only(c: GfxConfigView, mode: GfxMode, a: UserActionRequired)
    requires
        c.pending_mode is None,
        c.pending_action is None,
    ensures
        with_mode(with_pending(with_pending(c, Some(mode), Some(a)), None, None), mode) == with_mode(c, mode),
{
}

/// A change that fails leaves a configuration that had nothing pending as it
/// was.
pub proof fn lemma_failed_change_keeps_config(c: GfxConfigView, mode: GfxMode, a: UserActionRequired)
    requires
        c.pending_mode is None,
        c.pending_action is None,
    ensures
        with_pending(with_pending(c, Some(mode), Some(a)), None, None) == c,
{
}

/// While a change is under way the pending mode and user action read back
/// as those the change recorded; once it completes, the mode read back is the
/// one asked for (unless a temporary mode overrides it) and nothing is
/// pending.
pub proof fn lemma_mode_change_reads_back(c: GfxConfigView, mode: GfxMode, a: UserActionRequired)
    requires
        c.tmp_mode is None,
    ensures
        ({
            let during = with_pending(c, Some(mode), Some(a));
            &&& (match during.pending_mode {
                Some(m) => m,
                None => GfxMode::Unknown,
            }) == mode
            &&& (match during.pending_action {
                Some(x) => x,
                None => UserActionRequired::Nothing,
            }) == a
        }),
        ({
            let after = with_mode(with_pending(with_pending(c, Some(mode), Some(a)), None, None), mode);
            &&& current_mode(after) == mode
            &&& after.pending_mode is None
            &&& after.pending_action is None
        }),
{
}

/// The configuration read over D-Bus after one was sent gives back the sent
/// settings, with the mode and the hotplug method left as they were.
pub proof fn lemma_dbus_config_reads_back(c: GfxConfigView, d: GfxConfigDbus)
    ensures
        dbus_config_of(with_dbus_settings(c, d)) == (GfxConfigDbus { mode: c.mode, hotplug_type: c.hotplug_type, ..d }),
{
}

/// What the supported modes hold: without a known dGPU (and without the
/// ASUS dGPU switch) only Integrated; otherwise Integrated and Hybrid always,
/// Vfio exactly when it is enabled, AsusEgpu and AsusMuxDgpu exactly when
/// their switches exist, and NvidiaNoModeset exactly when the kernel was
/// booted with Nvidia modesetting off.
#[verifier::rlimit(50)]
pub proof fn lemma_supported_modes(vendor: GfxVendor, p: PlatformSupport, vfio_enable: bool)
    ensures
        ({
            let l = supported_modes(vendor, p, vfio_enable);
            let known = !(vendor == GfxVendor::Unknown && !p.dgpu_disable_exists);
            &&& l.contains(GfxMode::Integrated)
            &&& l.contains(GfxMode::Hybrid) == known
            &&& l.contains(GfxMode::Vfio) == (known && vfio_enable)
            &&& l.contains(GfxMode::AsusEgpu) == (known && p.egpu_enable_exists)
            &&& l.contains(GfxMode::AsusMuxDgpu) == (known && p.gpu_mux_exists)
            &&& l.contains(GfxMode::NvidiaNoModeset) == (known && p.nvidia_modeset == Some(false))
            &&& !l.contains(GfxMode::Unknown)
        }),
{
    let l = supported_modes(vendor, p, vfio_enable);
    let known = !(vendor == GfxVendor::Unknown && !p.dgpu_disable_exists);
    if known {
        let a = seq![GfxMode::Integrated, GfxMode::Hybrid];
        let b = if vfio_enable { seq![GfxMode::Vfio] } else { Seq::<GfxMode>::empty() };
        let c = if p.egpu_enable_exists { seq![GfxMode::AsusEgpu] } else { Seq::<GfxMode>::empty() };
        let d = if p.gpu_mux_exists { seq![GfxMode::AsusMuxDgpu] } else { Seq::<GfxMode>::empty() };
        let e = if p.nvidia_modeset == Some(false) {
            seq![GfxMode::NvidiaNoModeset]
        } else {
            Seq::<GfxMode>::empty()
        };
        assert(l == a + b + c + d + e);
        // every mode occurs at most once, at a position given by what is listed before it
        assert forall|m: GfxMode| #[trigger] l.contains(m) <==> (a.contains(m) || b.contains(m) || c.contains(m)
            || d.contains(m) || e.contains(m)) by {
            if l.contains(m) {
                let i = choose|i: int| 0 <= i < l.len() && l[i] == m;
                if i < a.len() {
                    assert(a[i] == m);
                } else if i < a.len() + b.len() {
                    assert(b[i - a.len()] == m);
                } else if i < a.len() + b.len() + c.len() {
                    assert(c[i - a.len() - b.len()] == m);
                } else if i < a.len() + b.len() + c.len() + d.len() {
                    assert(d[i - a.len() - b.len() - c.len()] == m);
                } else {
                    assert(e[i - a.len() - b.len() - c.len() - d.len()] == m);
                }
            }
            if a.contains(m) {
                let i = choose|i: int| 0 <= i < a.len() && a[i] == m;
                assert(l[i] == m);
            }
            if b.contains(m) {
                let i = choose|i: int| 0 <= i < b.len() && b[i] == m;
                assert(l[a.len() + i] == m);
            }
            if c.contains(m) {
                let i = choose|i: int| 0 <= i < c.len() && c[i] == m;
                assert(l[a.len() + b.len() + i] == m);
            }
            if d.contains(m) {
                let i = choose|i: int| 0 <= i < d.len() && d[i] == m;
                assert(l[a.len() + b.len() + c.len() + i] == m);
            }
            if e.contains(m) {
                let i = choose|i: int| 0 <= i < e.len() && e[i] == m;
                assert(l[a.len() + b.len() + c.len() + d.len() + i] == m);
            }
        }
        assert(a[0] == GfxMode::Integrated && a[1] == GfxMode::Hybrid);
        assert(a.contains(GfxMode::Integrated) && a.contains(GfxMode::Hybrid));
        if vfio_enable { assert(b[0] == GfxMode::Vfio); }
        if p.egpu_enable_exists { assert(c[0] == GfxMode::AsusEgpu); }
        if p.gpu_mux_exists { assert(d[0] == GfxMode::AsusMuxDgpu); }
        if p.nvidia_modeset == Some(false) { assert(e[0] == GfxMode::NvidiaNoModeset); }
    } else {
        assert(l[0] == GfxMode::Integrated);
    }
}

} // verus!
