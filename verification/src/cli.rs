//! The decisions of the command-line client: when to show its usage, what it
//! tells the user after asking the daemon for a mode, and which hint it gives
//! when the daemon could not be reached.
use vstd::prelude::*;
use vstd::string::StringExecFns;

use crate::actions::{user_action_message, user_action_name, UserActionRequired};
use crate::pci_device::{mode_name, GfxMode};

verus! {

/// What the command line asked for.
#[derive(Debug, Clone, Copy, PartialEq, Eq, Structural)]
pub struct CliRequest {
    /// Print the help message
    pub help: bool,
    /// Set the graphics mode
    pub mode: Option<GfxMode>,
    /// Get the daemon's version
    pub version: bool,
    /// Get the current mode
    pub get: bool,
    /// Get the supported modes
    pub supported: bool,
    /// Get the dGPU vendor name
    pub vendor: bool,
    /// Get the current power status
    pub status: bool,
    /// Get the pending user action, if any
    pub pend_action: bool,
    /// Get the pending mode change, if any
    pub pend_mode: bool,
}

/// The request asks the daemon for nothing.
pub open spec fn asks_nothing(r: CliRequest) -> bool {
    r.mode is None && !r.get && !r.version && !r.supported && !r.vendor && !r.status && !r.pend_action
        && !r.pend_mode
}

/// The usage is shown when help is asked for or nothing else is.
pub fn shows_usage(request: &CliRequest) -> (r: bool)
    ensures
        r == (asks_nothing(*request) || request.help),
{
    request.mode.is_none() && !request.get && !request.version && !request.supported && !request.vendor
        && !request.status && !request.pend_action && !request.pend_mode || request.help
}

/// What the client prints after the daemon answered a request for a mode.
pub struct CliReply {
    pub text: String,
    /// Printed on standard error rather than standard output
    pub to_stderr: bool,
    /// The client then exits with a failure status
    pub exit_failure: bool,
}

/// The text printed after asking for `mode` and being told `action`.
pub open spec fn set_mode_text(mode: GfxMode, action: UserActionRequired) -> Seq<char> {
    match action {
        UserActionRequired::SwitchToIntegrated => "You must change to Integrated before you can change to "@
            + mode_name(mode),
        UserActionRequired::Logout => "Graphics mode changed to "@ + mode_name(mode)
            + ". Required user action is: "@ + user_action_message(action),
        UserActionRequired::Nothing => "Graphics mode changed to "@ + mode_name(mode),
        UserActionRequired::Reboot => "A reboot is required to complete the mode change"@,
        UserActionRequired::AsusEgpuDisable => user_action_name(action),
    }
}

/// The reply to a mode request: a refusal to switch from a mode that must
/// first go to Integrated is an error, everything else is reported normally.
pub fn set_mode_reply(mode: GfxMode, action: UserActionRequired) -> (r: CliReply)
    ensures
        r.text@ == set_mode_text(mode, action),
        r.to_stderr == (action == UserActionRequired::SwitchToIntegrated),
        r.exit_failure == (action == UserActionRequired::SwitchToIntegrated),
{
    match action {
        UserActionRequired::SwitchToIntegrated => {
            let mut text = "You must change to Integrated before you can change to ".to_owned();
            text.append(mode.name());
            CliReply { text, to_stderr: true, exit_failure: true }
        },
        UserActionRequired::Logout => {
            let mut text = "Graphics mode changed to ".to_owned();
            text.append(mode.name());
            text.append(". Required user action is: ");
            text.append(action.message());
            CliReply { text, to_stderr: false, exit_failure: false }
        },
        UserActionRequired::Nothing => {
            let mut text = "Graphics mode changed to ".to_owned();
            text.append(mode.name());
            CliReply { text, to_stderr: false, exit_failure: false }
        },
        UserActionRequired::Reboot => {
            let text = "A reboot is required to complete the mode change".to_owned();
            CliReply { text, to_stderr: false, exit_failure: false }
        },
        UserActionRequired::AsusEgpuDisable => {
            let text = action.name().to_owned();
            CliReply { text, to_stderr: false, exit_failure: false }
        },
    }
}

/// The hint printed when a request failed, given whether the daemon's unit
/// is enabled and running: enable it, start it, or read its logs.
pub open spec fn daemon_hint_text(enabled: bool, active: bool) -> Seq<char> {
    if !enabled {
        "\x1b[0;31msupergfxd is not enabled, enable it with `systemctl enable supergfxd\x1b[0m"@
    } else if !active {
        "\x1b[0;31msupergfxd is not running, start it with `systemctl start supergfxd\x1b[0m"@
    } else {
        "Please check `journalctl -b -u supergfxd`, and `systemctl status supergfxd`"@
    }
}

pub fn daemon_hint(enabled: bool, active: bool) -> (r: &'static str)
    ensures
        r@ == daemon_hint_text(enabled, active),
{
    if !enabled {
        "\x1b[0;31msupergfxd is not enabled, enable it with `systemctl enable supergfxd\x1b[0m"
    } else if !active {
        "\x1b[0;31msupergfxd is not running, start it with `systemctl start supergfxd\x1b[0m"
    } else {
        "Please check `journalctl -b -u supergfxd`, and `systemctl status supergfxd`"
    }
}

} // verus!
