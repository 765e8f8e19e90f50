use vstd::prelude::*;

verus! {

/// The capability tiers that decide which metadata layout a journal query
/// should ask for; `Unknown` is the tier before any version has been
/// supplied.
#[derive(Clone, Copy, Debug, PartialEq, Eq, Structural)]
pub enum WindowsVersion {
    Other,
    Win7,
    GreaterWin7,
    Unknown,
}

impl WindowsVersion {
    /// The tier of reported version numbers: major 6 minor 1 is the
    /// intermediate tier; the other 6.x releases and majors 10 and 11 are
    /// current; everything else is legacy. Obtaining the numbers themselves
    /// is an OS call and happens outside this library.
    pub fn from_version_numbers(major: u32, minor: u32) -> (r: Self)
        ensures
            r == Self::spec_from_version_numbers(major, minor),
    {
        if major == 6 && minor == 1 {
            WindowsVersion::Win7
        } else if major == 6 || major == 10 || major == 11 {
            WindowsVersion::GreaterWin7
        } else {
            WindowsVersion::Other
        }
    }

    /// The tier of reported version numbers.
    pub open spec fn spec_from_version_numbers(major: u32, minor: u32) -> WindowsVersion {
        if major == 6 && minor == 1 {
            WindowsVersion::Win7
        } else if major == 6 || major == 10 || major == 11 {
            WindowsVersion::GreaterWin7
        } else {
            WindowsVersion::Other
        }
    }
}

/// Receiving a detected capability tier.
pub trait SettingWindowsVersion<'a> {
    fn set_windows_version(&mut self, version: &'a WindowsVersion) {
    }
}

/// Selecting the metadata layout by a previously detected capability tier.
pub trait MatchVersion<'a> {
    /// The tier currently selected.
    spec fn current_version(&self) -> WindowsVersion;

    fn by_win_version(&mut self, version: &'a WindowsVersion)
        ensures
            final(self).current_version() == *version,
    ;
}

} // verus!
