//! The error type of the library.
use vstd::prelude::*;

use crate::actions::StagedAction;

verus! {

/// Everything that can go wrong while deciding or carrying out a mode change.
/// Variants that come from the system carry the path or command involved and
/// a description of the underlying failure.
#[derive(Debug)]
pub enum GfxError {
    ParseMode,
    DgpuNotFound,
    NotSupported(String),
    /// The first action may not follow (or precede) the second one.
    IncorrectActionOrder(StagedAction, StagedAction),
    SystemdUnitAction(String),
    SystemdUnitWaitTimeout(String),
    Path(String, String),
    Read(String, String),
    Write(String, String),
    Command(String, String),
    Udev(String, String),
    Io(String),
    Zbus(String),
}

impl GfxError {
    /// This is a `Read` error about `what`, saying `detail`.
    pub open spec fn is_read_error(self, what: Seq<char>, detail: Seq<char>) -> bool {
        self matches GfxError::Read(w, d) && w@ == what && d@ == detail
    }

    /// This is a `NotSupported` error saying `detail`.
    pub open spec fn is_not_supported(self, detail: Seq<char>) -> bool {
        self matches GfxError::NotSupported(d) && d@ == detail
    }
}

impl Clone for GfxError {
    fn clone(&self) -> (r: Self)
        ensures
            r == *self,
    {
        match self {
            GfxError::ParseMode => GfxError::ParseMode,
            GfxError::DgpuNotFound => GfxError::DgpuNotFound,
            GfxError::NotSupported(s) => GfxError::NotSupported(s.clone()),
            GfxError::IncorrectActionOrder(a, b) => GfxError::IncorrectActionOrder(*a, *b),
            GfxError::SystemdUnitAction(s) => GfxError::SystemdUnitAction(s.clone()),
            GfxError::SystemdUnitWaitTimeout(s) => GfxError::SystemdUnitWaitTimeout(s.clone()),
            GfxError::Path(a, b) => GfxError::Path(a.clone(), b.clone()),
            GfxError::Read(a, b) => GfxError::Read(a.clone(), b.clone()),
            GfxError::Write(a, b) => GfxError::Write(a.clone(), b.clone()),
            GfxError::Command(a, b) => GfxError::Command(a.clone(), b.clone()),
            GfxError::Udev(a, b) => GfxError::Udev(a.clone(), b.clone()),
            GfxError::Io(s) => GfxError::Io(s.clone()),
            GfxError::Zbus(s) => GfxError::Zbus(s.clone()),
        }
    }
}

} // verus!
