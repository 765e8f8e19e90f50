pub mod windows_version;

use vstd::prelude::*;

verus! {

/// The capability tiers that decide which metadata layout a journal query
/// should ask for.
#[derive(Clone, Copy, Debug, PartialEq, Eq, Structural)]
pub enum WindowsVersion {
    Other,
    Win7,
    GreaterWin7,
}

/// The tier of reported version numbers: major 6 minor 1 is the intermediate
/// tier; the other 6.x releases and majors 10 and 11 are current; everything
/// else is legacy.
pub open spec fn spec_classify_os_version(major: u32, minor: u32) -> WindowsVersion {
    if major == 6 && minor == 1 {
        WindowsVersion::Win7
    } else if major == 6 || major == 10 || major == 11 {
        WindowsVersion::GreaterWin7
    } else {
        WindowsVersion::Other
    }
}

/// The capability tier for the version numbers the operating system reports.
/// Obtaining the numbers themselves is an OS call and happens outside this
/// library.
pub fn classify_os_version(major: u32, minor: u32) -> (r: WindowsVersion)
    ensures
        r == spec_classify_os_version(major, minor),
{
    if major == 6 && minor == 1 {
        WindowsVersion::Win7
    } else if major == 6 || major == 10 || major == 11 {
        WindowsVersion::GreaterWin7
    } else {
        WindowsVersion::Other
    }
}

} // verus!
