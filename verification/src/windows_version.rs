//! The running Windows version, as the kernel reports it.
//!
//! Only the comparison logic lives here; reading the version out of the
//! kernel's shared data page is host-specific and stays with the
//! surrounding binary.

use vstd::prelude::*;

verus! {

/// A Windows version triple, ordered lexicographically.
#[derive(Clone, Copy, PartialEq, Eq, Structural, Debug)]
pub struct WindowsVersion {
    pub major: u32,
    pub minor: u32,
    pub build: u32,
}

impl WindowsVersion {
    pub fn new(major: u32, minor: u32, build: u32) -> (r: WindowsVersion)
        ensures
            r.major == major,
            r.minor == minor,
            r.build == build,
    {
        WindowsVersion { major, minor, build }
    }

    /// Whether this version is at least 10.0.22000, the first Windows 11
    /// build, in lexicographic order.
    pub open spec fn spec_is_windows_11_or_greater(self) -> bool {
        ||| self.major > 10
        ||| (self.major == 10 && self.minor > 0)
        ||| (self.major == 10 && self.minor == 0 && self.build >= 22000)
    }

    pub fn is_windows_11_or_greater(&self) -> (r: bool)
        ensures
            r == self.spec_is_windows_11_or_greater(),
    {
        if self.major != 10 {
            self.major > 10
        } else if self.minor != 0 {
            true
        } else {
            self.build >= 22000
        }
    }
}

} // verus!
