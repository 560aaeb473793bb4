use supergfxctl::actions::UserActionRequired;
use supergfxctl::cli::{daemon_hint, set_mode_reply, shows_usage, CliRequest};
use supergfxctl::cmdline::{get_kernel_cmdline_mode, get_kernel_cmdline_nvidia_modeset};
use supergfxctl::error::GfxError;
use supergfxctl::pci_device::GfxMode;

fn nothing_asked() -> CliRequest {
    CliRequest {
        help: false,
        mode: None,
        version: false,
        get: false,
        supported: false,
        vendor: false,
        status: false,
        pend_action: false,
        pend_mode: false,
    }
}

#[test]
fn usage_when_nothing_or_help_is_asked() {
    assert!(shows_usage(&nothing_asked()));
    let mut r = nothing_asked();
    r.get = true;
    assert!(!shows_usage(&r));
    r.help = true;
    assert!(shows_usage(&r));
    let mut r = nothing_asked();
    r.mode = Some(GfxMode::Vfio);
    assert!(!shows_usage(&r));
    let mut r = nothing_asked();
    r.pend_mode = true;
    assert!(!shows_usage(&r));
}

#[test]
fn set_mode_replies() {
    let r = set_mode_reply(GfxMode::Vfio, UserActionRequired::SwitchToIntegrated);
    assert_eq!(r.text, "You must change to Integrated before you can change to Vfio");
    assert!(r.to_stderr && r.exit_failure);

    let r = set_mode_reply(GfxMode::Integrated, UserActionRequired::Logout);
    assert_eq!(
        r.text,
        "Graphics mode changed to Integrated. Required user action is: Logout required to complete mode change"
    );
    assert!(!r.to_stderr && !r.exit_failure);

    let r = set_mode_reply(GfxMode::Hybrid, UserActionRequired::Nothing);
    assert_eq!(r.text, "Graphics mode changed to Hybrid");

    let r = set_mode_reply(GfxMode::AsusMuxDgpu, UserActionRequired::Reboot);
    assert_eq!(r.text, "A reboot is required to complete the mode change");
    assert!(!r.exit_failure);

    let r = set_mode_reply(GfxMode::AsusMuxDgpu, UserActionRequired::AsusEgpuDisable);
    assert_eq!(r.text, "AsusEgpuDisable");

    let r = set_mode_reply(GfxMode::Unknown, UserActionRequired::Nothing);
    assert_eq!(r.text, "Graphics mode changed to Unknown");
}

#[test]
fn daemon_hints() {
    assert_eq!(
        daemon_hint(false, false),
        "\x1b[0;31msupergfxd is not enabled, enable it with `systemctl enable supergfxd\x1b[0m"
    );
    assert_eq!(
        daemon_hint(true, false),
        "\x1b[0;31msupergfxd is not running, start it with `systemctl start supergfxd\x1b[0m"
    );
    assert_eq!(
        daemon_hint(true, true),
        "Please check `journalctl -b -u supergfxd`, and `systemctl status supergfxd`"
    );
}

#[test]
fn cmdline_mode() {
    let c = "BOOT_IMAGE=/vmlinuz root=UUID=x ro quiet supergfxd.mode=Integrated splash\n";
    assert_eq!(get_kernel_cmdline_mode(c).unwrap(), Some(GfxMode::Integrated));
    let c = "ro quiet supergfxd.mode=Vfio\n";
    assert_eq!(get_kernel_cmdline_mode(c).unwrap(), Some(GfxMode::Vfio));
    assert_eq!(get_kernel_cmdline_mode("ro quiet splash\n").unwrap(), None);
    assert_eq!(get_kernel_cmdline_mode("").unwrap(), None);
    assert!(matches!(
        get_kernel_cmdline_mode("supergfxd.mode=Compute quiet"),
        Err(GfxError::ParseMode)
    ));
    // only the first token that names the option counts
    assert_eq!(
        get_kernel_cmdline_mode("supergfxd.mode=Hybrid supergfxd.mode=Vfio").unwrap(),
        Some(GfxMode::Hybrid)
    );
}

#[test]
fn cmdline_nvidia_modeset() {
    assert_eq!(get_kernel_cmdline_nvidia_modeset("quiet nvidia-drm.modeset=1 splash"), Some(true));
    assert_eq!(get_kernel_cmdline_nvidia_modeset("quiet nvidia-drm.modeset=0 splash"), Some(false));
    assert_eq!(get_kernel_cmdline_nvidia_modeset("quiet splash"), None);
    // the last token still holds the line end
    assert_eq!(get_kernel_cmdline_nvidia_modeset("quiet nvidia-drm.modeset=1\n"), Some(false));
}
