//! GPU modes, vendors and power states, the PCI devices that make up the
//! discrete GPU, and what is read from and written to sysfs for them.
use vstd::prelude::*;

use crate::drivers::{nvidia_drivers, DriverAction};
use crate::error::GfxError;
use crate::special_asus::{AsusGpuMuxMode, AsusState};
use crate::sysfs::{write_of, SysfsWrite};
use crate::text::{
    all_ascii, is_white_space, lower_ascii, trim_white, trim_end_white,
    trim_start_white, before_first, chars_vec, contains_chars, contains_seq, first_field, join_path, push_char,
    spec_join_path, spec_to_lowercase, starts_with_seq, str_contains, str_eq,
    str_starts_with, to_lowercase_str, trim_str, after_first, after_first_str,
};

verus! {

/// How the dGPU is taken off and put back on the bus.
#[derive(Debug, PartialEq, Eq, Structural, Copy, Clone)]
pub enum HotplugType {
    /// Use only kernel level hotplug feature
    Std,
    /// Use ASUS dgpu_disable
    Asus,
    /// Do not use hotplugging
    NoHotplug,
}

#[derive(Debug, PartialEq, Eq, Structural, Copy, Clone)]
pub enum HotplugState {
    On,
    Off,
}

pub open spec fn hotplug_word(s: HotplugState) -> Seq<char> {
    match s {
        HotplugState::On => "1"@,
        HotplugState::Off => "0"@,
    }
}

impl HotplugState {
    /// "1" (in any case, surrounded by whitespace) is `On`, anything else `Off`.
    pub fn from_str(s: &str) -> (r: Result<HotplugState, GfxError>)
        ensures
            r == Ok::<HotplugState, GfxError>(
                if trim_white(spec_to_lowercase(s@)) == "1"@ {
                    HotplugState::On
                } else {
                    HotplugState::Off
                },
            ),
            all_ascii(s@) ==> r == Ok::<HotplugState, GfxError>(
                if trim_white(lower_ascii(s@)) == "1"@ {
                    HotplugState::On
                } else {
                    HotplugState::Off
                },
            ),
    {
        proof {
            lemma_lower_ascii_is_ascii(s@);
        }
        let lower = to_lowercase_str(s);
        let t = trim_str(lower.as_str());
        if str_eq(t, "1") {
            Ok(HotplugState::On)
        } else {
            Ok(HotplugState::Off)
        }
    }

    /// The value written to a hotplug slot's `power` file.
    pub fn as_str(self) -> (r: &'static str)
        ensures
            r@ == hotplug_word(self),
    {
        match self {
            HotplugState::On => "1",
            HotplugState::Off => "0",
        }
    }
}

/// The power state of the dGPU as reported to users.
#[derive(Debug, PartialEq, Eq, Structural, Copy, Clone)]
pub enum GfxPower {
    Active,
    Suspended,
    Off,
    AsusDisabled,
    AsusMuxDiscreet,
    Unknown,
}

impl Default for GfxPower {
    fn default() -> (r: GfxPower)
        ensures
            r == GfxPower::Unknown,
    {
        GfxPower::Unknown
    }
}

/// The power state named by a (lowercased, trimmed) status word.
pub open spec fn power_from_word(w: Seq<char>) -> GfxPower {
    if w == "active"@ {
        GfxPower::Active
    } else if w == "suspended"@ {
        GfxPower::Suspended
    } else if w == "off"@ {
        GfxPower::Off
    } else if w == "dgpu_disabled"@ {
        GfxPower::AsusDisabled
    } else if w == "asus_mux_discreet"@ {
        GfxPower::AsusMuxDiscreet
    } else {
        GfxPower::Unknown
    }
}

pub open spec fn power_word(p: GfxPower) -> Seq<char> {
    match p {
        GfxPower::Active => "active"@,
        GfxPower::Suspended => "suspended"@,
        GfxPower::Off => "off"@,
        GfxPower::AsusDisabled => "dgpu_disabled"@,
        GfxPower::AsusMuxDiscreet => "asus_mux_discreet"@,
        GfxPower::Unknown => "unknown"@,
    }
}

impl GfxPower {
    /// Parse a runtime status as the kernel (or this daemon) spells it; any
    /// other word is `Unknown`.
    pub fn from_str(s: &str) -> (r: Result<GfxPower, GfxError>)
        ensures
            r == Ok::<GfxPower, GfxError>(power_from_word(trim_white(spec_to_lowercase(s@)))),
            all_ascii(s@) ==> r == Ok::<GfxPower, GfxError>(power_from_word(trim_white(lower_ascii(s@)))),
    {
        proof {
            lemma_lower_ascii_is_ascii(s@);
        }
        let lower = to_lowercase_str(s);
        let t = trim_str(lower.as_str());
        let p = if str_eq(t, "active") {
            GfxPower::Active
        } else if str_eq(t, "suspended") {
            GfxPower::Suspended
        } else if str_eq(t, "off") {
            GfxPower::Off
        } else if str_eq(t, "dgpu_disabled") {
            GfxPower::AsusDisabled
        } else if str_eq(t, "asus_mux_discreet") {
            GfxPower::AsusMuxDiscreet
        } else {
            GfxPower::Unknown
        };
        Ok(p)
    }

    pub fn as_str(&self) -> (r: &'static str)
        ensures
            r@ == power_word(*self),
    {
        match self {
            GfxPower::Active => "active",
            GfxPower::Suspended => "suspended",
            GfxPower::Off => "off",
            GfxPower::AsusDisabled => "dgpu_disabled",
            GfxPower::AsusMuxDiscreet => "asus_mux_discreet",
            GfxPower::Unknown => "unknown",
        }
    }
}

#[derive(Debug, PartialEq, Eq, Structural, Copy, Clone)]
pub enum GfxVendor {
    Nvidia,
    Amd,
    Intel,
    Unknown,
    AsusDgpuDisabled,
}

pub open spec fn vendor_from_id(v: u16) -> GfxVendor {
    if v == 0x1002 {
        GfxVendor::Amd
    } else if v == 0x10DE {
        GfxVendor::Nvidia
    } else if v == 0x8086 {
        GfxVendor::Intel
    } else {
        GfxVendor::Unknown
    }
}

pub open spec fn vendor_from_id_str(s: Seq<char>) -> GfxVendor {
    if s == "0x1002"@ || s == "1002"@ {
        GfxVendor::Amd
    } else if s == "0x10DE"@ || s == "10DE"@ {
        GfxVendor::Nvidia
    } else if s == "0x8086"@ || s == "8086"@ {
        GfxVendor::Intel
    } else {
        GfxVendor::Unknown
    }
}

pub open spec fn vendor_name(v: GfxVendor) -> Seq<char> {
    match v {
        GfxVendor::Nvidia => "Nvidia"@,
        GfxVendor::Amd => "AMD"@,
        GfxVendor::Intel => "Intel"@,
        GfxVendor::Unknown => "Unknown"@,
        GfxVendor::AsusDgpuDisabled => "ASUS dGPU disabled"@,
    }
}

impl GfxVendor {
    /// The vendor with this PCI vendor id.
    pub fn from_id(vendor: u16) -> (r: GfxVendor)
        ensures
            r == vendor_from_id(vendor),
    {
        if vendor == 0x1002 {
            GfxVendor::Amd
        } else if vendor == 0x10DE {
            GfxVendor::Nvidia
        } else if vendor == 0x8086 {
            GfxVendor::Intel
        } else {
            GfxVendor::Unknown
        }
    }

    /// The vendor with this PCI vendor id, written in upper-case hex with or
    /// without a `0x` prefix.
    pub fn from_id_str(vendor: &str) -> (r: GfxVendor)
        ensures
            r == vendor_from_id_str(vendor@),
    {
        if str_eq(vendor, "0x1002") || str_eq(vendor, "1002") {
            GfxVendor::Amd
        } else if str_eq(vendor, "0x10DE") || str_eq(vendor, "10DE") {
            GfxVendor::Nvidia
        } else if str_eq(vendor, "0x8086") || str_eq(vendor, "8086") {
            GfxVendor::Intel
        } else {
            GfxVendor::Unknown
        }
    }

    pub fn as_str(&self) -> (r: &'static str)
        ensures
            r@ == vendor_name(*self),
    {
        match self {
            GfxVendor::Nvidia => "Nvidia",
            GfxVendor::Amd => "AMD",
            GfxVendor::Intel => "Intel",
            GfxVendor::Unknown => "Unknown",
            GfxVendor::AsusDgpuDisabled => "ASUS dGPU disabled",
        }
    }
}

/// All the available modes. Every mode except `None` and `AsusMuxDgpu` should
/// assume that either the ASUS specific `gpu_mux_mode` sysfs entry is not
/// available or is set to iGPU mode.
#[derive(Debug, PartialEq, Eq, Structural, Copy, Clone)]
pub enum GfxMode {
    Hybrid,
    Integrated,
    /// For hardware booted with `nvidia-drm.modeset=0`; allows hot unloading of nvidia
    NvidiaNoModeset,
    Vfio,
    /// The ASUS EGPU is in use
    AsusEgpu,
    /// The ASUS GPU MUX is set to dGPU mode
    AsusMuxDgpu,
    /// No mode known
    Unknown,
}

impl Default for GfxMode {
    fn default() -> (r: GfxMode)
        ensures
            r == GfxMode::Unknown,
    {
        GfxMode::Unknown
    }
}

/// The name a mode is shown with; `Unknown` shows as "Unknown".
pub open spec fn mode_name(m: GfxMode) -> Seq<char> {
    match m {
        GfxMode::Hybrid => "Hybrid"@,
        GfxMode::Integrated => "Integrated"@,
        GfxMode::NvidiaNoModeset => "NvidiaNoModeset"@,
        GfxMode::Vfio => "Vfio"@,
        GfxMode::AsusEgpu => "AsusEgpu"@,
        GfxMode::AsusMuxDgpu => "AsusMuxDgpu"@,
        GfxMode::Unknown => "Unknown"@,
    }
}

/// The mode a (trimmed) name selects; there is no name for `Unknown`.
pub open spec fn mode_from_name(t: Seq<char>) -> Result<GfxMode, GfxError> {
    if t == "Hybrid"@ {
        Ok(GfxMode::Hybrid)
    } else if t == "Integrated"@ {
        Ok(GfxMode::Integrated)
    } else if t == "NvidiaNoModeset"@ {
        Ok(GfxMode::NvidiaNoModeset)
    } else if t == "Vfio"@ {
        Ok(GfxMode::Vfio)
    } else if t == "AsusEgpu"@ {
        Ok(GfxMode::AsusEgpu)
    } else if t == "AsusMuxDgpu"@ {
        Ok(GfxMode::AsusMuxDgpu)
    } else {
        Err(GfxError::ParseMode)
    }
}

impl GfxMode {
    pub fn name(&self) -> (r: &'static str)
        ensures
            r@ == mode_name(*self),
    {
        match self {
            GfxMode::Hybrid => "Hybrid",
            GfxMode::Integrated => "Integrated",
            GfxMode::NvidiaNoModeset => "NvidiaNoModeset",
            GfxMode::Vfio => "Vfio",
            GfxMode::AsusEgpu => "AsusEgpu",
            GfxMode::AsusMuxDgpu => "AsusMuxDgpu",
            GfxMode::Unknown => "Unknown",
        }
    }

    /// Parse a mode by its name, ignoring surrounding whitespace.
    pub fn from_str(s: &str) -> (r: Result<GfxMode, GfxError>)
        ensures
            r == mode_from_name(trim_white(s@)),
    {
        let t = trim_str(s);
        if str_eq(t, "Hybrid") {
            Ok(GfxMode::Hybrid)
        } else if str_eq(t, "Integrated") {
            Ok(GfxMode::Integrated)
        } else if str_eq(t, "NvidiaNoModeset") {
            Ok(GfxMode::NvidiaNoModeset)
        } else if str_eq(t, "Vfio") {
            Ok(GfxMode::Vfio)
        } else if str_eq(t, "AsusEgpu") {
            Ok(GfxMode::AsusEgpu)
        } else if str_eq(t, "AsusMuxDgpu") {
            Ok(GfxMode::AsusMuxDgpu)
        } else {
            Err(GfxError::ParseMode)
        }
    }
}

/// Control whether a device uses, or does not use, runtime power management.
#[derive(Copy, Clone, Debug, PartialEq, Eq, Structural)]
pub enum RuntimePowerManagement {
    Auto,
    On,
    Off,
}

pub open spec fn pm_word(pm: RuntimePowerManagement) -> Seq<char> {
    match pm {
        RuntimePowerManagement::Auto => "auto"@,
        RuntimePowerManagement::On => "on"@,
        RuntimePowerManagement::Off => "off"@,
    }
}

pub open spec fn pm_from_word(w: Seq<char>) -> RuntimePowerManagement {
    if w == "auto"@ {
        RuntimePowerManagement::Auto
    } else if w == "on"@ {
        RuntimePowerManagement::On
    } else if w == "off"@ {
        RuntimePowerManagement::Off
    } else {
        RuntimePowerManagement::On
    }
}

impl RuntimePowerManagement {
    pub fn as_str(self) -> (r: &'static str)
        ensures
            r@ == pm_word(self),
    {
        match self {
            RuntimePowerManagement::Auto => "auto",
            RuntimePowerManagement::On => "on",
            RuntimePowerManagement::Off => "off",
        }
    }

    /// "auto", "on" and "off" name their setting; anything else is `On`.
    pub fn from_word(pm: &str) -> (r: RuntimePowerManagement)
        ensures
            r == pm_from_word(pm@),
    {
        if str_eq(pm, "auto") {
            RuntimePowerManagement::Auto
        } else if str_eq(pm, "on") {
            RuntimePowerManagement::On
        } else if str_eq(pm, "off") {
            RuntimePowerManagement::Off
        } else {
            RuntimePowerManagement::On
        }
    }
}

/// Whether a PCI database label names a discrete GPU.
pub open spec fn dgpu_label(label: Seq<char>) -> bool {
    contains_seq(label, "Radeon RX"@) || contains_seq(label, "AMD/ATI"@) || contains_seq(
        label,
        "GeForce"@,
    ) || contains_seq(label, "Geforce"@) || contains_seq(label, "Quadro"@) || contains_seq(
        label,
        "T1200"@,
    )
}

/// Whether a device label (as `lspci` or the PCI database gives it) names a
/// discrete GPU.
pub fn lscpi_dgpu_check(label: &str) -> (r: bool)
    ensures
        r == dgpu_label(label@),
{
    let l = chars_vec(label);
    let pats = ["Radeon RX", "AMD/ATI", "GeForce", "Geforce", "Quadro", "T1200"];
    let mut i: usize = 0;
    while i < 6
        invariant
            0 <= i <= 6,
            pats@ == seq!["Radeon RX", "AMD/ATI", "GeForce", "Geforce", "Quadro", "T1200"],
            l@ == label@,
            forall|j: int| 0 <= j < i ==> !contains_seq(label@, (#[trigger] pats@[j])@),
        decreases 6 - i,
    {
        let p = chars_vec(pats[i]);
        if contains_chars(&l, &p) {
            return true;
        }
        i = i + 1;
    }
    assert(!contains_seq(label@, pats@[0]@));
    assert(!contains_seq(label@, pats@[1]@));
    assert(!contains_seq(label@, pats@[2]@));
    assert(!contains_seq(label@, pats@[3]@));
    assert(!contains_seq(label@, pats@[4]@));
    assert(!contains_seq(label@, pats@[5]@));
    false
}


/// The display connector of a DRM entry `cardN-NAME` below a device (the
/// part after the first `-`), when the entry's status file says that
/// something is connected.
pub fn connected_display(entry: &str, status: &str) -> (r: Option<String>)
    ensures
        trim_white(status@) == "connected"@ ==> (r matches Some(n) && n@ == after_first(entry@, '-')),
        trim_white(status@) != "connected"@ ==> r is None,
{
    if str_eq(trim_str(status), "connected") {
        Some(after_first_str(entry, '-'))
    } else {
        None
    }
}

/// Whether the hotplug slot whose address file holds `slot_address` is the
/// slot of the device `sysname`: the device's name contains the address.
pub fn slot_holds(sysname: &str, slot_address: &str) -> (r: bool)
    ensures
        r == contains_seq(sysname@, trim_white(slot_address@)),
{
    str_contains(sysname, trim_str(slot_address))
}

/// What the PCI scan reports of one device, in scan order: its names, its
/// udev properties, and what sysfs says about it.
pub struct PciEntry {
    /// Kernel name, e.g. `0000:01:00.0`
    pub sysname: String,
    /// Path of the device below /sys
    pub syspath: String,
    /// The `PCI_ID` property, `vendor:device` in upper-case hex
    pub pci_id: Option<String>,
    /// The `PCI_CLASS` property
    pub pci_class: Option<String>,
    /// The display connectors of the device that have something connected
    pub displays: Vec<String>,
    /// For the first entry of the device's `hwmon` directory, whether it has an
    /// `in1_input` file; `None` when there is no such entry
    pub hwmon_in1_input: Option<Result<bool, GfxError>>,
    /// The device's model label (`ID_MODEL_FROM_DATABASE`, or what `lspci`
    /// says when the property is missing); only consulted where
    /// `label_needed` holds
    pub label: Result<String, GfxError>,
    /// The power file of the hotplug slot the device sits in, when there is one
    pub slot_power: Option<String>,
}

/// The PCI id belongs to an Nvidia or AMD device.
pub open spec fn gpu_vendor_id(id: Seq<char>) -> bool {
    starts_with_seq(id, "10DE"@) || starts_with_seq(id, "1002"@)
}

/// Whether a PCI id names an Nvidia or AMD device, the only vendors whose
/// devices make up a discrete GPU here.
pub fn is_gpu_vendor_id(id: &str) -> (r: bool)
    ensures
        r == gpu_vendor_id(id@),
{
    str_starts_with(id, "10DE") || str_starts_with(id, "1002")
}

/// The internal panel is connected to the device: it is the integrated GPU.
pub open spec fn drives_internal_panel(displays: Seq<String>) -> bool {
    exists|i: int| 0 <= i < displays.len() && (#[trigger] displays[i])@ == "eDP-1"@
}

/// The first verdict on a GPU-vendor device: it drives no internal panel and
/// is a display controller.
pub open spec fn dgpu_by_display(e: PciEntry, id: Seq<char>, class: Seq<char>) -> bool {
    !drives_internal_panel(e.displays@) && starts_with_seq(class, "30"@) && gpu_vendor_id(id)
}

/// The verdict before the device's label is consulted: by its display
/// connections, and for AMD devices that fail that test, by the absence of an
/// `in1_input` sensor (the iGPU has one).
pub open spec fn dgpu_by_sensors(e: PciEntry, id: Seq<char>, class: Seq<char>) -> Result<bool, GfxError> {
    let d = dgpu_by_display(e, id, class);
    if !d && starts_with_seq(id, "1002"@) {
        match e.hwmon_in1_input {
            None => Ok(d),
            Some(Err(x)) => Err(x),
            Some(Ok(exists)) => Ok(!exists),
        }
    } else {
        Ok(d)
    }
}

/// Whether a GPU-vendor device is the dGPU: by its display connections and
/// sensors, and when those say no, by its model label naming a discrete card
/// (a label that could not be read is an error).
pub open spec fn dgpu_verdict(e: PciEntry, id: Seq<char>, class: Seq<char>) -> Result<bool, GfxError> {
    match dgpu_by_sensors(e, id, class) {
        Err(x) => Err(x),
        Ok(true) => Ok(true),
        Ok(false) => match e.label {
            Ok(l) => Ok(dgpu_label(l@)),
            Err(x) => Err(x),
        },
    }
}

/// The name of the PCI device a function belongs to: the kernel name without
/// its trailing function number and dot.
pub open spec fn parent_name(sysname: Seq<char>) -> Seq<char> {
    trim_end_dots(trim_end_numeric(sysname))
}

/// What `char::is_numeric` says of a character.
pub uninterp spec fn spec_is_numeric(c: char) -> bool;

pub open spec fn trim_end_numeric(s: Seq<char>) -> Seq<char>
    decreases s.len(),
{
    if s.len() > 0 && spec_is_numeric(s.last()) {
        trim_end_numeric(s.drop_last())
    } else {
        s
    }
}

pub open spec fn trim_end_dots(s: Seq<char>) -> Seq<char>
    decreases s.len(),
{
    if s.len() > 0 && s.last() == '.' {
        trim_end_dots(s.drop_last())
    } else {
        s
    }
}

/// `char::is_numeric`: whether the character has a Unicode numeric general
/// category (Nd, Nl, No). The contract says that the ASCII digits are numeric
/// and no other ASCII character is; beyond ASCII the result is only named.
#[verifier::external_body]
fn is_numeric_char(c: char) -> (r: bool)
    ensures
        r == spec_is_numeric(c),
        (c as u32) < 128 ==> (r <==> ('0' <= c && c <= '9')),
{
    c.is_numeric()
}

/// The prefix `s[..n]` of a character vector, as a string.
fn prefix_string(v: &Vec<char>, n: usize) -> (r: String)
    requires
        n <= v.len(),
    ensures
        r@ == v@.subrange(0, n as int),
{
    let mut r = String::new();
    let mut i: usize = 0;
    while i < n
        invariant
            i <= n <= v.len(),
            r@ == v@.subrange(0, i as int),
        decreases n - i,
    {
        push_char(&mut r, v[i]);
        i = i + 1;
        assert(r@ =~= v@.subrange(0, i as int));
    }
    r
}

/// The name of the PCI device that the function `sysname` belongs to.
pub fn parent_of(sysname: &str) -> (r: String)
    ensures
        r@ == parent_name(sysname@),
{
    let v = chars_vec(sysname);
    let mut n: usize = v.len();
    assert(v@.subrange(0, n as int) =~= sysname@);
    while n > 0 && is_numeric_char(v[n - 1])
        invariant
            n <= v.len(),
            v@ == sysname@,
            trim_end_numeric(sysname@) == trim_end_numeric(v@.subrange(0, n as int)),
        decreases n,
    {
        assert(v@.subrange(0, n as int).drop_last() =~= v@.subrange(0, n - 1));
        n = n - 1;
    }
    let ghost t = v@.subrange(0, n as int);
    assert(trim_end_numeric(t) == t);
    let mut m: usize = n;
    assert(v@.subrange(0, m as int) =~= t);
    while m > 0 && v[m - 1] == '.'
        invariant
            m <= n <= v.len(),
            t == v@.subrange(0, n as int),
            trim_end_dots(t) == trim_end_dots(v@.subrange(0, m as int)),
        decreases m,
    {
        assert(v@.subrange(0, m as int).drop_last() =~= v@.subrange(0, m - 1));
        m = m - 1;
    }
    prefix_string(&v, m)
}

/// The device a scan entry contributes, given the name of the device whose
/// functions are being collected (empty before the dGPU is found). Devices
/// other than the dGPU are kept when they are functions of that device.
pub open spec fn entry_device(e: PciEntry, parent: Seq<char>) -> Result<Option<DeviceView>, GfxError> {
    match (e.pci_id, e.pci_class) {
        (Some(id), Some(class)) => if gpu_vendor_id(id@) {
            match dgpu_verdict(e, id@, class@) {
                Err(x) => Err(x),
                Ok(dgpu) => if dgpu || (parent.len() > 0 && contains_seq(e.sysname@, parent)) {
                    Ok(Some(DeviceView {
                        dev_path: e.syspath@,
                        hotplug_path: if dgpu {
                            match e.slot_power {
                                Some(p) => Some(p@),
                                None => None,
                            }
                        } else {
                            None
                        },
                        vendor: vendor_from_id_str(before_first(id@, ':')),
                        is_dgpu: dgpu,
                        name: e.sysname@,
                        pci_id: id@,
                    }))
                } else {
                    Ok(None)
                },
            }
        } else {
            Ok(None)
        },
        _ => Ok(None),
    }
}

/// The devices of the dGPU that a scan finds in `entries` from position `i`
/// on, given the device name collected so far and the devices already kept.
/// The scan stops at the first entry that lies outside the collected device.
pub open spec fn scan_devices(
    entries: Seq<PciEntry>,
    i: int,
    parent: Seq<char>,
    found: Seq<DeviceView>,
) -> Result<Seq<DeviceView>, GfxError>
    decreases entries.len() - i,
{
    if i < 0 || i >= entries.len() {
        if found.len() == 0 {
            Err(GfxError::DgpuNotFound)
        } else {
            Ok(found)
        }
    } else {
        let e = entries[i];
        match entry_device(e, parent) {
            Err(x) => Err(x),
            Ok(kept) => {
                let found2 = match kept {
                    Some(d) => found.push(d),
                    None => found,
                };
                let parent2 = match kept {
                    Some(d) => parent_name(e.sysname@),
                    None => parent,
                };
                if parent2.len() > 0 && !contains_seq(e.sysname@, parent2) {
                    if found2.len() == 0 {
                        Err(GfxError::DgpuNotFound)
                    } else {
                        Ok(found2)
                    }
                } else {
                    scan_devices(entries, i + 1, parent2, found2)
                }
            },
        }
    }
}

/// One PCI function of the graphics device.
#[derive(Debug)]
pub struct Device {
    /// Concrete path to the device control
    dev_path: String,
    /// Concrete path to the slot this device is in for hotplug support
    hotplug_path: Option<String>,
    vendor: GfxVendor,
    is_dgpu: bool,
    /// System name given by kernel, e.g `0000:01:00.0`
    name: String,
    /// Vendor:Device, typically used only for VFIO setup
    pci_id: String,
}

pub struct DeviceView {
    pub dev_path: Seq<char>,
    pub hotplug_path: Option<Seq<char>>,
    pub vendor: GfxVendor,
    pub is_dgpu: bool,
    pub name: Seq<char>,
    pub pci_id: Seq<char>,
}

impl View for Device {
    type V = DeviceView;

    closed spec fn view(&self) -> DeviceView {
        DeviceView {
            dev_path: self.dev_path@,
            hotplug_path: match self.hotplug_path {
                Some(p) => Some(p@),
                None => None,
            },
            vendor: self.vendor,
            is_dgpu: self.is_dgpu,
            name: self.name@,
            pci_id: self.pci_id@,
        }
    }
}

/// The views of a list of devices.
pub open spec fn device_views(v: Seq<Device>) -> Seq<DeviceView> {
    v.map_values(|d: Device| d@)
}

impl Clone for Device {
    fn clone(&self) -> (r: Self)
        ensures
            r@ == self@,
    {
        Device {
            dev_path: self.dev_path.clone(),
            hotplug_path: match &self.hotplug_path {
                Some(p) => Some(p.clone()),
                None => None,
            },
            vendor: self.vendor,
            is_dgpu: self.is_dgpu,
            name: self.name.clone(),
            pci_id: self.pci_id.clone(),
        }
    }
}

/// The verdict on a GPU-vendor device before its label is consulted.
fn sensors_verdict(e: &PciEntry, id: &str, class: &str) -> (r: Result<bool, GfxError>)
    ensures
        r == dgpu_by_sensors(*e, id@, class@),
{
    let mut edp = false;
    let mut k: usize = 0;
    while k < e.displays.len()
        invariant
            k <= e.displays.len(),
            edp <==> exists|j: int| 0 <= j < k && (#[trigger] e.displays@[j])@ == "eDP-1"@,
        decreases e.displays.len() - k,
    {
        if str_eq(e.displays[k].as_str(), "eDP-1") {
            edp = true;
        }
        k = k + 1;
    }
    let mut dgpu = false;
    if !edp {
        dgpu = str_starts_with(class, "30") && (str_starts_with(id, "10DE")
            || str_starts_with(id, "1002"));
    }
    assert(dgpu == dgpu_by_display(*e, id@, class@));
    if !dgpu && str_starts_with(id, "1002") {
        match &e.hwmon_in1_input {
            None => {},
            Some(Err(x)) => {
                return Err(x.clone());
            },
            Some(Ok(exists)) => {
                dgpu = !*exists;
            },
        }
    }
    Ok(dgpu)
}

/// Whether the scan must know the device's model label: it is a GPU-vendor
/// device whose display connections and sensors say it is not the dGPU.
/// Only then does the label (and `lspci`, when the PCI database has none)
/// matter.
pub fn label_needed(e: &PciEntry) -> (r: bool)
    ensures
        r == match (e.pci_id, e.pci_class) {
            (Some(id), Some(class)) => gpu_vendor_id(id@) && dgpu_by_sensors(*e, id@, class@) == Ok::<
                bool,
                GfxError,
            >(false),
            _ => false,
        },
{
    match (&e.pci_id, &e.pci_class) {
        (Some(id), Some(class)) => {
            if !is_gpu_vendor_id(id.as_str()) {
                return false;
            }
            match sensors_verdict(e, id.as_str(), class.as_str()) {
                Ok(d) => !d,
                Err(_) => false,
            }
        },
        _ => false,
    }
}

/// The device a scan entry contributes (see `entry_device`).
fn device_of_entry(e: &PciEntry, parent: &String) -> (r: Result<Option<Device>, GfxError>)
    ensures
        match (r, entry_device(*e, parent@)) {
            (Ok(Some(d)), Ok(Some(v))) => d@ == v,
            (Ok(None), Ok(None)) => true,
            (Err(x), Err(y)) => x == y,
            _ => false,
        },
{
    match (&e.pci_id, &e.pci_class) {
        (Some(id), Some(class)) => {
            if !is_gpu_vendor_id(id.as_str()) {
                return Ok(None);
            }
            let vendor = first_field(id.as_str(), ':');
            let mut dgpu = match sensors_verdict(e, id.as_str(), class.as_str()) {
                Err(x) => {
                    return Err(x);
                },
                Ok(d) => d,
            };
            assert(dgpu_by_sensors(*e, id@, class@) == Ok::<bool, GfxError>(dgpu));
            if !dgpu {
                match &e.label {
                    Err(x) => {
                        return Err(x.clone());
                    },
                    Ok(l) => {
                        dgpu = lscpi_dgpu_check(l.as_str());
                    },
                }
            }
            assert(dgpu_verdict(*e, id@, class@) == Ok::<bool, GfxError>(dgpu));
            if dgpu || (!parent.as_str().is_empty() && str_contains(e.sysname.as_str(), parent.as_str())) {
                let hotplug_path = if dgpu {
                    match &e.slot_power {
                        Some(p) => Some(p.clone()),
                        None => None,
                    }
                } else {
                    None
                };
                let d = Device {
                    dev_path: e.syspath.clone(),
                    hotplug_path,
                    vendor: GfxVendor::from_id_str(vendor.as_str()),
                    is_dgpu: dgpu,
                    name: e.sysname.clone(),
                    pci_id: id.clone(),
                };
                Ok(Some(d))
            } else {
                Ok(None)
            }
        },
        _ => Ok(None),
    }
}

impl Device {
    pub fn dev_path(&self) -> (r: &String)
        ensures
            r@ == self@.dev_path,
    {
        &self.dev_path
    }

    pub fn vendor(&self) -> (r: GfxVendor)
        ensures
            r == self@.vendor,
    {
        self.vendor
    }

    pub fn is_dgpu(&self) -> (r: bool)
        ensures
            r == self@.is_dgpu,
    {
        self.is_dgpu
    }

    pub fn pci_id(&self) -> (r: &str)
        ensures
            r@ == self@.pci_id,
    {
        self.pci_id.as_str()
    }

    pub fn name(&self) -> (r: &str)
        ensures
            r@ == self@.name,
    {
        self.name.as_str()
    }

    /// The write that powers the device's hotplug slot on or off; nothing
    /// when the device has no hotplug slot.
    pub fn set_hotplug(&self, state: HotplugState) -> (r: Option<SysfsWrite>)
        ensures
            match self@.hotplug_path {
                None => r is None,
                Some(p) => r matches Some(w) && w@ == write_of(p, hotplug_word(state)),
            },
    {
        match &self.hotplug_path {
            Some(path) => Some(SysfsWrite { path: path.clone(), data: state.as_str().to_owned() }),
            None => None,
        }
    }

    /// The runtime power management control file of the device.
    pub fn runtime_pm_path(&self) -> (r: String)
        ensures
            r@ == spec_join_path(spec_join_path(self@.dev_path, "power"@), "control"@),
    {
        let p = join_path(self.dev_path.as_str(), "power");
        join_path(p.as_str(), "control")
    }

    /// The write that sets the device's runtime power management (to be done
    /// only when the control file exists; a removed device has none).
    pub fn set_runtime_pm(&self, state: RuntimePowerManagement) -> (r: SysfsWrite)
        ensures
            r@ == write_of(
                spec_join_path(spec_join_path(self@.dev_path, "power"@), "control"@),
                pm_word(state),
            ),
    {
        SysfsWrite { path: self.runtime_pm_path(), data: state.as_str().to_owned() }
    }

    /// The runtime status file of the device.
    pub fn runtime_status_path(&self) -> (r: String)
        ensures
            r@ == spec_join_path(spec_join_path(self@.dev_path, "power"@), "runtime_status"@),
    {
        let p = join_path(self.dev_path.as_str(), "power");
        join_path(p.as_str(), "runtime_status")
    }

    /// The device's power state, from what reading its runtime status file
    /// gave; a file that could not be read means the device is off.
    pub fn get_runtime_status(&self, status_file: Option<String>) -> (r: Result<GfxPower, GfxError>)
        ensures
            r == Ok::<GfxPower, GfxError>(
                match status_file {
                    Some(s) => power_from_word(trim_white(spec_to_lowercase(s@))),
                    None => GfxPower::Off,
                },
            ),
    {
        match status_file {
            Some(inner) => GfxPower::from_str(inner.as_str()),
            None => Ok(GfxPower::Off),
        }
    }

    /// The link to the driver bound to the device.
    pub fn driver_link(&self) -> (r: String)
        ensures
            r@ == spec_join_path(self@.dev_path, "driver"@),
    {
        join_path(self.dev_path.as_str(), "driver")
    }

    /// The write that unbinds the device from its driver, given where the
    /// driver link resolves to when it resolves to an existing directory;
    /// nothing when the driver is gone (already unloaded).
    pub fn unbind(&self, driver: Option<String>) -> (r: Option<SysfsWrite>)
        ensures
            match driver {
                None => r is None,
                Some(d) => r matches Some(w) && w@ == write_of(spec_join_path(d@, "unbind"@), self@.name),
            },
    {
        match driver {
            Some(d) => Some(SysfsWrite { path: join_path(d.as_str(), "unbind"), data: self.name.clone() }),
            None => None,
        }
    }

    /// The write that removes the device from the PCI tree, given whether
    /// its directory still exists; nothing when it was removed already.
    pub fn remove(&self, dev_path_exists: bool) -> (r: Option<SysfsWrite>)
        ensures
            dev_path_exists <==> r is Some,
            r matches Some(w) ==> w@ == write_of(spec_join_path(self@.dev_path, "remove"@), "1"@),
    {
        if dev_path_exists {
            return Some(SysfsWrite { path: join_path(self.dev_path.as_str(), "remove"), data: "1".to_owned() });
        }
        None
    }

    /// Find the devices of the discrete GPU among the PCI devices of a scan,
    /// in scan order: the dGPU itself and the functions of the same device
    /// that follow it. Fails with `DgpuNotFound` when there are none.
    pub fn find(entries: &Vec<PciEntry>) -> (r: Result<Vec<Self>, GfxError>)
        ensures
            match (r, scan_devices(entries@, 0, Seq::empty(), Seq::empty())) {
                (Ok(v), Ok(w)) => device_views(v@) == w,
                (Err(x), Err(y)) => x == y,
                _ => false,
            },
    {
        let mut devices: Vec<Device> = Vec::new();
        let mut parent = String::new();
        let mut i: usize = 0;
        assert(device_views(devices@) =~= Seq::<DeviceView>::empty());
        assert(parent@ =~= Seq::<char>::empty());
        while i < entries.len()
            invariant
                i <= entries.len(),
                scan_devices(entries@, 0, Seq::empty(), Seq::empty()) == scan_devices(
                    entries@,
                    i as int,
                    parent@,
                    device_views(devices@),
                ),
            decreases entries.len() - i,
        {
            let e = &entries[i];
            let kept = device_of_entry(e, &parent);
            let ghost old_devices = devices@;
            match kept {
                Err(x) => {
                    return Err(x);
                },
                Ok(Some(d)) => {
                    parent = parent_of(e.sysname.as_str());
                    devices.push(d);
                    assert(device_views(devices@) =~= device_views(old_devices).push(d@));
                },
                Ok(None) => {},
            }
            if !parent.as_str().is_empty() && !str_contains(e.sysname.as_str(), parent.as_str()) {
                if devices.len() == 0 {
                    return Err(GfxError::DgpuNotFound);
                }
                return Ok(devices);
            }
            i = i + 1;
        }
        if devices.len() == 0 {
            return Err(GfxError::DgpuNotFound);
        }
        Ok(devices)
    }
}


/// The index of the last dGPU among the devices, if any.
pub open spec fn last_dgpu(devs: Seq<DeviceView>) -> Option<int>
    decreases devs.len(),
{
    if devs.len() == 0 {
        None
    } else if devs.last().is_dgpu {
        Some(devs.len() - 1)
    } else {
        last_dgpu(devs.drop_last())
    }
}

/// The vendor the ASUS switches imply when no dGPU device is found: a
/// disabled dGPU, or an Nvidia dGPU behind a MUX in discrete mode.
pub open spec fn vendor_without_devices(asus: AsusState) -> GfxVendor {
    if asus.dgpu_disable_exists && asus.dgpu_disabled == Ok::<bool, GfxError>(true) {
        GfxVendor::AsusDgpuDisabled
    } else if asus.gpu_mux_exists && asus.gpu_mux_mode == Ok::<AsusGpuMuxMode, GfxError>(AsusGpuMuxMode::Discreet) {
        GfxVendor::Nvidia
    } else {
        GfxVendor::Unknown
    }
}

pub struct DiscreetGpuView {
    pub vendor: GfxVendor,
    pub dgpu_index: int,
    pub devices: Seq<DeviceView>,
}

/// Collection of all graphics devices. Functions intend to work on the device
/// determined to be the discreet GPU only.
pub struct DiscreetGpu {
    vendor: GfxVendor,
    dgpu_index: usize,
    devices: Vec<Device>,
}

impl View for DiscreetGpu {
    type V = DiscreetGpuView;

    closed spec fn view(&self) -> DiscreetGpuView {
        DiscreetGpuView {
            vendor: self.vendor,
            dgpu_index: self.dgpu_index as int,
            devices: device_views(self.devices@),
        }
    }
}

impl DiscreetGpuView {
    /// The dGPU index points at a device whenever there are devices.
    pub open spec fn wf(self) -> bool {
        self.devices.len() == 0 || (0 <= self.dgpu_index < self.devices.len())
    }

    /// The device tracked as the dGPU.
    pub open spec fn dgpu(self) -> Option<DeviceView> {
        if self.devices.len() == 0 {
            None
        } else {
            Some(self.devices[self.dgpu_index])
        }
    }
}

/// What the dGPU's power state is, given what the ASUS switches and (when
/// there is a tracked dGPU of a known vendor) its runtime status file say;
/// `None` when it cannot be told.
pub open spec fn dgpu_power(g: DiscreetGpuView, asus: AsusState, status_file: Option<String>) -> Option<GfxPower> {
    if g.devices.len() > 0 {
        if g.vendor == GfxVendor::AsusDgpuDisabled {
            Some(GfxPower::AsusDisabled)
        } else if g.vendor != GfxVendor::Unknown {
            Some(
                match status_file {
                    Some(s) => power_from_word(trim_white(spec_to_lowercase(s@))),
                    None => GfxPower::Off,
                },
            )
        } else {
            None
        }
    } else if asus.dgpu_disable_exists {
        if asus.dgpu_disabled == Ok::<bool, GfxError>(true) {
            Some(GfxPower::AsusDisabled)
        } else {
            None
        }
    } else if asus.gpu_mux_exists && asus.gpu_mux_mode == Ok::<AsusGpuMuxMode, GfxError>(
        AsusGpuMuxMode::Discreet,
    ) {
        Some(GfxPower::AsusMuxDiscreet)
    } else {
        None
    }
}

/// A usable dGPU handle: a dGPU of a known vendor other than a disabled one.
pub open spec fn has_usable_dgpu(g: DiscreetGpuView) -> bool {
    g.devices.len() > 0 && g.vendor != GfxVendor::Unknown && g.vendor != GfxVendor::AsusDgpuDisabled
}

impl DiscreetGpu {
    #[verifier::type_invariant]
    spec fn dgpu_index_in_range(self) -> bool {
        self.devices.len() == 0 || self.dgpu_index < self.devices.len()
    }

    /// The discrete GPU found by a PCI scan (`found`); when the scan found
    /// none, what the ASUS switches imply. The tracked dGPU is the last device
    /// found to be one, and its vendor the vendor of the whole.
    pub fn new(found: Result<Vec<Device>, GfxError>, asus: &AsusState) -> (r: DiscreetGpu)
        ensures
            r@.wf(),
            match found {
                Ok(devs) => {
                    &&& r@.devices == device_views(devs@)
                    &&& match last_dgpu(device_views(devs@)) {
                        Some(k) => r@.dgpu_index == k && r@.vendor == device_views(devs@)[k].vendor,
                        None => r@.dgpu_index == 0 && r@.vendor == GfxVendor::Unknown,
                    }
                },
                Err(_) => r@.devices.len() == 0 && r@.dgpu_index == 0 && r@.vendor
                    == vendor_without_devices(*asus),
            },
    {
        match found {
            Ok(device) => {
                let mut vendor = GfxVendor::Unknown;
                let mut dgpu_index: usize = 0;
                let mut idx: usize = 0;
                while idx < device.len()
                    invariant
                        idx <= device.len(),
                        match last_dgpu(device_views(device@.subrange(0, idx as int))) {
                            Some(k) => dgpu_index == k && vendor == device@[k]@.vendor,
                            None => dgpu_index == 0 && vendor == GfxVendor::Unknown,
                        },
                    decreases device.len() - idx,
                {
                    let ghost before = device_views(device@.subrange(0, idx as int));
                    assert(device_views(device@.subrange(0, idx + 1)).drop_last() =~= before);
                    if device[idx].is_dgpu() {
                        dgpu_index = idx;
                        vendor = device[idx].vendor();
                    }
                    idx = idx + 1;
                }
                assert(device@.subrange(0, device@.len() as int) =~= device@);
                proof {
                    lemma_last_dgpu_in_range(device_views(device@));
                }
                DiscreetGpu { vendor, dgpu_index, devices: device }
            },
            Err(_) => {
                let mut vendor = GfxVendor::Unknown;
                if asus.dgpu_disable_exists && matches!(asus.dgpu_disabled, Ok(true)) {
                    vendor = GfxVendor::AsusDgpuDisabled;
                } else if asus.gpu_mux_exists && matches!(asus.gpu_mux_mode, Ok(AsusGpuMuxMode::Discreet)) {
                    vendor = GfxVendor::Nvidia;
                }
                DiscreetGpu { vendor, dgpu_index: 0, devices: Vec::new() }
            },
        }
    }

    pub fn vendor(&self) -> (r: GfxVendor)
        ensures
            r == self@.vendor,
    {
        self.vendor
    }

    pub fn devices(&self) -> (r: &[Device])
        ensures
            device_views(r@) == self@.devices,
    {
        self.devices.as_slice()
    }

    /// The device tracked as the dGPU, when there are devices.
    pub fn dgpu(&self) -> (r: Option<&Device>)
        ensures
            match r {
                Some(d) => self@.dgpu() == Some(d@),
                None => self@.dgpu() is None,
            },
    {
        proof {
            use_type_invariant(self);
        }
        if self.devices.len() == 0 {
            None
        } else {
            Some(&self.devices[self.dgpu_index])
        }
    }

    pub fn is_nvidia(&self) -> (r: bool)
        ensures
            r == (self@.vendor == GfxVendor::Nvidia),
    {
        self.vendor == GfxVendor::Nvidia
    }

    pub fn is_amd(&self) -> (r: bool)
        ensures
            r == (self@.vendor == GfxVendor::Amd),
    {
        self.vendor == GfxVendor::Amd
    }

    pub fn is_intel(&self) -> (r: bool)
        ensures
            r == (self@.vendor == GfxVendor::Intel),
    {
        self.vendor == GfxVendor::Intel
    }

    /// The dGPU's power state. `status_file` is what reading the runtime
    /// status file of the tracked dGPU gave (`None` when it could not be read
    /// or there is no tracked dGPU).
    pub fn get_runtime_status(&self, asus: &AsusState, status_file: Option<String>) -> (r: Result<GfxPower, GfxError>)
        ensures
            match r {
                Ok(p) => dgpu_power(self@, *asus, status_file) == Some(p),
                Err(e) => dgpu_power(self@, *asus, status_file) is None && e.is_not_supported(
                    "get_runtime_status: Could not find dGPU"@,
                ),
            },
    {
        proof {
            use_type_invariant(self);
        }
        if self.devices.len() != 0 {
            if self.vendor == GfxVendor::AsusDgpuDisabled {
                return Ok(GfxPower::AsusDisabled);
            } else if self.vendor != GfxVendor::Unknown {
                return self.devices[self.dgpu_index].get_runtime_status(status_file);
            }
        } else if asus.dgpu_disable_exists {
            if let Ok(disabled) = &asus.dgpu_disabled {
                if *disabled {
                    return Ok(GfxPower::AsusDisabled);
                }
            }
        } else if asus.gpu_mux_exists {
            if let Ok(mode) = &asus.gpu_mux_mode {
                if *mode == AsusGpuMuxMode::Discreet {
                    return Ok(GfxPower::AsusMuxDiscreet);
                }
            }
        }
        Err(GfxError::NotSupported("get_runtime_status: Could not find dGPU".to_owned()))
    }

    /// The writes that set runtime power management on every device (each to
    /// be done when its control file exists). Nothing to do without devices
    /// or with a disabled dGPU; an error when the vendor is unknown.
    pub fn set_runtime_pm(&self, pm: RuntimePowerManagement) -> (r: Result<Vec<SysfsWrite>, GfxError>)
        ensures
            self@.devices.len() == 0 ==> (r matches Ok(w) && w@.len() == 0),
            has_usable_dgpu(self@) ==> (r matches Ok(w) && w@.len() == self@.devices.len() && forall|i: int|
                0 <= i < w@.len() ==> (#[trigger] w@[i])@ == write_of(
                    spec_join_path(spec_join_path(self@.devices[i].dev_path, "power"@), "control"@),
                    pm_word(pm),
                )),
            self@.devices.len() > 0 && self@.vendor == GfxVendor::AsusDgpuDisabled ==> (r matches Ok(w)
                && w@.len() == 0),
            self@.devices.len() > 0 && self@.vendor == GfxVendor::Unknown ==> (r matches Err(e)
                && e.is_not_supported("set_runtime_pm: Could not find dGPU"@)),
    {
        if self.devices.len() == 0 {
            return Ok(Vec::new());
        }
        if self.vendor != GfxVendor::Unknown && self.vendor != GfxVendor::AsusDgpuDisabled {
            let mut writes: Vec<SysfsWrite> = Vec::new();
            let mut i: usize = 0;
            while i < self.devices.len()
                invariant
                    i <= self.devices.len(),
                    writes@.len() == i,
                    forall|j: int| 0 <= j < i ==> (#[trigger] writes@[j])@ == write_of(
                        spec_join_path(spec_join_path(self@.devices[j].dev_path, "power"@), "control"@),
                        pm_word(pm),
                    ),
                decreases self.devices.len() - i,
            {
                let w = self.devices[i].set_runtime_pm(pm);
                writes.push(w);
                i = i + 1;
            }
            return Ok(writes);
        }
        if self.vendor == GfxVendor::AsusDgpuDisabled {
            return Ok(Vec::new());
        }
        Err(GfxError::NotSupported("set_runtime_pm: Could not find dGPU".to_owned()))
    }

    /// The write that powers the first dGPU device's hotplug slot on or off;
    /// nothing when there is no dGPU device or it has no hotplug slot.
    pub fn set_hotplug(&self, state: HotplugState) -> (r: Option<SysfsWrite>)
        ensures
            match first_dgpu(self@.devices) {
                None => r is None,
                Some(k) => match self@.devices[k].hotplug_path {
                    None => r is None,
                    Some(p) => r matches Some(w) && w@ == write_of(p, hotplug_word(state)),
                },
            },
    {
        let mut i: usize = 0;
        while i < self.devices.len()
            invariant
                i <= self.devices.len(),
                forall|j: int| 0 <= j < i ==> !(#[trigger] self@.devices[j]).is_dgpu,
            decreases self.devices.len() - i,
        {
            if self.devices[i].is_dgpu() {
                proof {
                    lemma_first_dgpu_is(self@.devices, i as int);
                }
                return self.devices[i].set_hotplug(state);
            }
            i = i + 1;
        }
        proof {
            lemma_first_dgpu_none(self@.devices);
        }
        None
    }

    /// The devices to unbind from their drivers, last device first. An error
    /// when the vendor is unknown.
    pub fn unbind(&self) -> (r: Result<Vec<Device>, GfxError>)
        ensures
            self@.vendor != GfxVendor::Unknown <==> r is Ok,
            r matches Ok(v) ==> device_views(v@) == self@.devices.reverse(),
            r matches Err(e) ==> e.is_not_supported("unbind: Could not find dGPU"@),
    {
        if self.vendor != GfxVendor::Unknown {
            return Ok(self.devices_reversed());
        }
        Err(GfxError::NotSupported("unbind: Could not find dGPU".to_owned()))
    }

    /// The devices to remove from the PCI tree, last device first. An error
    /// when the vendor is unknown.
    pub fn remove(&self) -> (r: Result<Vec<Device>, GfxError>)
        ensures
            self@.vendor != GfxVendor::Unknown <==> r is Ok,
            r matches Ok(v) ==> device_views(v@) == self@.devices.reverse(),
            r matches Err(e) ==> e.is_not_supported("remove: Could not find dGPU"@),
    {
        if self.vendor != GfxVendor::Unknown {
            return Ok(self.devices_reversed());
        }
        Err(GfxError::NotSupported("remove: Could not find dGPU".to_owned()))
    }

    /// Unbind every device, then remove every device (each last device
    /// first): the devices in that order, or the error of `unbind`.
    pub fn unbind_remove(&self) -> (r: Result<Vec<Device>, GfxError>)
        ensures
            self@.vendor != GfxVendor::Unknown <==> r is Ok,
            r matches Ok(v) ==> device_views(v@) == self@.devices.reverse(),
            r matches Err(e) ==> e.is_not_supported("unbind: Could not find dGPU"@),
    {
        self.unbind()
    }

    fn devices_reversed(&self) -> (r: Vec<Device>)
        ensures
            device_views(r@) == self@.devices.reverse(),
    {
        let mut out: Vec<Device> = Vec::new();
        let n = self.devices.len();
        let mut i: usize = n;
        while i > 0
            invariant
                i <= n == self.devices.len(),
                out@.len() == n - i,
                forall|j: int| 0 <= j < n - i ==> (#[trigger] out@[j])@ == self.devices@[n - 1 - j]@,
            decreases i,
        {
            i = i - 1;
            out.push(self.devices[i].clone());
        }
        assert(device_views(out@) =~= self@.devices.reverse());
        out
    }

    /// The modules to load or remove for the dGPU: the Nvidia modules for an
    /// Nvidia dGPU, none otherwise.
    pub fn do_driver_action(&self, action: DriverAction) -> (r: Vec<&'static str>)
        ensures
            self@.vendor == GfxVendor::Nvidia ==> r@.len() == 4 && r@[0]@ == "nvidia_drm"@ && r@[1]@
                == "nvidia_modeset"@ && r@[2]@ == "nvidia_uvm"@ && r@[3]@ == "nvidia"@,
            self@.vendor != GfxVendor::Nvidia ==> r@.len() == 0,
    {
        if self.is_nvidia() {
            return nvidia_drivers();
        }
        Vec::new()
    }
}

/// The index of the first dGPU among the devices, if any.
pub open spec fn first_dgpu(devs: Seq<DeviceView>) -> Option<int>
    decreases devs.len(),
{
    if devs.len() == 0 {
        None
    } else if devs[0].is_dgpu {
        Some(0)
    } else {
        match first_dgpu(devs.drop_first()) {
            Some(k) => Some(k + 1),
            None => None,
        }
    }
}

proof fn lemma_first_dgpu_is(devs: Seq<DeviceView>, i: int)
    requires
        0 <= i < devs.len(),
        devs[i].is_dgpu,
        forall|j: int| 0 <= j < i ==> !(#[trigger] devs[j]).is_dgpu,
    ensures
        first_dgpu(devs) == Some(i),
    decreases i,
{
    if i > 0 {
        assert(!devs[0].is_dgpu);
        assert forall|j: int| 0 <= j < i - 1 implies !(#[trigger] devs.drop_first()[j]).is_dgpu by {
            assert(devs.drop_first()[j] == devs[j + 1]);
        }
        lemma_first_dgpu_is(devs.drop_first(), i - 1);
    }
}

proof fn lemma_first_dgpu_none(devs: Seq<DeviceView>)
    requires
        forall|j: int| 0 <= j < devs.len() ==> !(#[trigger] devs[j]).is_dgpu,
    ensures
        first_dgpu(devs) is None,
    decreases devs.len(),
{
    if devs.len() > 0 {
        assert(!devs[0].is_dgpu);
        assert forall|j: int| 0 <= j < devs.len() - 1 implies !(#[trigger] devs.drop_first()[j]).is_dgpu by {
            assert(devs.drop_first()[j] == devs[j + 1]);
        }
        lemma_first_dgpu_none(devs.drop_first());
    }
}

proof fn lemma_last_dgpu_in_range(devs: Seq<DeviceView>)
    ensures
        last_dgpu(devs) matches Some(k) ==> 0 <= k < devs.len() && devs[k].is_dgpu,
    decreases devs.len(),
{
    if devs.len() > 0 && !devs.last().is_dgpu {
        lemma_last_dgpu_in_range(devs.drop_last());
    }
}

proof fn lemma_lower_ascii_is_ascii(s: Seq<char>)
    ensures
        all_ascii(s) ==> all_ascii(lower_ascii(s)),
{
    if all_ascii(s) {
        assert forall|i: int| 0 <= i < lower_ascii(s).len() implies (#[trigger] lower_ascii(s)[i] as u32) < 128 by {
            assert((s[i] as u32) < 128);
            if 'A' <= s[i] && s[i] <= 'Z' {
                assert((s[i] as u32) + 32 < 128);
            }
        }
    }
}

/// A word without whitespace at either end is its own trimmed form.
proof fn lemma_trim_bare_word(w: Seq<char>)
    requires
        w.len() > 0,
        !is_white_space(w[0]),
        !is_white_space(w.last()),
    ensures
        trim_white(w) == w,
{
    assert(trim_start_white(w) == w);
    assert(trim_end_white(w) == w);
}

/// Every mode but `Unknown` is read back from its name.
pub proof fn lemma_mode_name_parses_back(m: GfxMode)
    requires
        m != GfxMode::Unknown,
    ensures
        all_ascii(mode_name(m)),
        mode_from_name(trim_white(mode_name(m))) == Ok::<GfxMode, GfxError>(m),
{
    reveal_strlit("Hybrid");
    reveal_strlit("Integrated");
    reveal_strlit("NvidiaNoModeset");
    reveal_strlit("Vfio");
    reveal_strlit("AsusEgpu");
    reveal_strlit("AsusMuxDgpu");
    let w = mode_name(m);
    lemma_trim_bare_word(w);
}

/// Every power state is read back from its word.
pub proof fn lemma_power_word_parses_back(p: GfxPower)
    ensures
        all_ascii(power_word(p)),
        power_from_word(trim_white(lower_ascii(power_word(p)))) == p,
{
    reveal_strlit("active");
    reveal_strlit("suspended");
    reveal_strlit("off");
    reveal_strlit("dgpu_disabled");
    reveal_strlit("asus_mux_discreet");
    reveal_strlit("unknown");
    let w = power_word(p);
    assert(lower_ascii(w) =~= w);
    lemma_trim_bare_word(w);
}

/// Every hotplug state is read back from the word written for it.
pub proof fn lemma_hotplug_word_parses_back(st: HotplugState)
    ensures
        all_ascii(hotplug_word(st)),
        (if trim_white(lower_ascii(hotplug_word(st))) == "1"@ {
            HotplugState::On
        } else {
            HotplugState::Off
        }) == st,
{
    reveal_strlit("1");
    reveal_strlit("0");
    let w = hotplug_word(st);
    assert(lower_ascii(w) =~= w);
    lemma_trim_bare_word(w);
}

/// Every runtime power management setting is read back from its word.
pub proof fn lemma_pm_word_parses_back(pm: RuntimePowerManagement)
    ensures
        pm_from_word(pm_word(pm)) == pm,
{
    reveal_strlit("auto");
    reveal_strlit("on");
    reveal_strlit("off");
    assert("on"@.len() != "auto"@.len());
    assert("off"@.len() != "auto"@.len());
    assert("off"@.len() != "on"@.len());
}


/// A scan that already kept a device keeps it first.
proof fn lemma_scan_keeps_first(entries: Seq<PciEntry>, i: int, parent: Seq<char>, found: Seq<DeviceView>)
    requires
        found.len() > 0,
    ensures
        scan_devices(entries, i, parent, found) matches Ok(w) ==> w.len() >= found.len() && w[0] == found[0],
    decreases entries.len() - i,
{
    if 0 <= i < entries.len() {
        let e = entries[i];
        match entry_device(e, parent) {
            Ok(kept) => {
                let found2 = match kept {
                    Some(d) => found.push(d),
                    None => found,
                };
                let parent2 = match kept {
                    Some(d) => parent_name(e.sysname@),
                    None => parent,
                };
                lemma_scan_keeps_first(entries, i + 1, parent2, found2);
            },
            Err(_) => {},
        }
    }
}

proof fn lemma_scan_from_nothing(entries: Seq<PciEntry>, i: int)
    ensures
        scan_devices(entries, i, Seq::empty(), Seq::empty()) matches Ok(w) ==> w.len() > 0 && w[0].is_dgpu,
    decreases entries.len() - i,
{
    if 0 <= i < entries.len() {
        let e = entries[i];
        match entry_device(e, Seq::empty()) {
            Ok(Some(d)) => {
                lemma_scan_keeps_first(entries, i + 1, parent_name(e.sysname@), seq![d]);
            },
            Ok(None) => {
                lemma_scan_from_nothing(entries, i + 1);
            },
            Err(_) => {},
        }
    }
}

/// A scan that succeeds has found the dGPU, and lists it first.
pub proof fn lemma_scan_finds_dgpu_first(entries: Seq<PciEntry>)
    ensures
        scan_devices(entries, 0, Seq::empty(), Seq::empty()) matches Ok(w) ==> w.len() > 0 && w[0].is_dgpu,
{
    lemma_scan_from_nothing(entries, 0);
}

proof fn lemma_scan_vendor_ids(entries: Seq<PciEntry>, i: int, parent: Seq<char>, found: Seq<DeviceView>)
    requires
        forall|k: int| 0 <= k < found.len() ==> gpu_vendor_id((#[trigger] found[k]).pci_id),
    ensures
        scan_devices(entries, i, parent, found) matches Ok(w) ==> forall|k: int|
            0 <= k < w.len() ==> gpu_vendor_id((#[trigger] w[k]).pci_id),
    decreases entries.len() - i,
{
    if 0 <= i < entries.len() {
        let e = entries[i];
        match entry_device(e, parent) {
            Ok(kept) => {
                let found2 = match kept {
                    Some(d) => found.push(d),
                    None => found,
                };
                let parent2 = match kept {
                    Some(d) => parent_name(e.sysname@),
                    None => parent,
                };
                assert forall|k: int| 0 <= k < found2.len() implies gpu_vendor_id((#[trigger] found2[k]).pci_id) by {
                    if k < found.len() {
                        assert(found2[k] == found[k]);
                    }
                }
                lemma_scan_vendor_ids(entries, i + 1, parent2, found2);
            },
            Err(_) => {},
        }
    }
}

/// Every device a successful scan keeps is an Nvidia or AMD device (its PCI
/// id starts with `10DE` or `1002`).
pub proof fn lemma_scan_keeps_gpu_vendors(entries: Seq<PciEntry>)
    ensures
        scan_devices(entries, 0, Seq::empty(), Seq::empty()) matches Ok(w) ==> forall|k: int|
            0 <= k < w.len() ==> gpu_vendor_id((#[trigger] w[k]).pci_id),
{
    lemma_scan_vendor_ids(entries, 0, Seq::empty(), Seq::empty());
}

} // verus!
