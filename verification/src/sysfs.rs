//! A write to a sysfs (or configuration) file, decided by the library and
//! carried out by the caller.
use vstd::prelude::*;

verus! {

/// Write `data` to the file at `path`.
pub struct SysfsWrite {
    pub path: String,
    pub data: String,
}

pub struct SysfsWriteView {
    pub path: Seq<char>,
    pub data: Seq<char>,
}

impl View for SysfsWrite {
    type V = SysfsWriteView;

    open spec fn view(&self) -> SysfsWriteView {
        SysfsWriteView { path: self.path@, data: self.data@ }
    }
}

pub open spec fn write_of(path: Seq<char>, data: Seq<char>) -> SysfsWriteView {
    SysfsWriteView { path, data }
}

} // verus!
