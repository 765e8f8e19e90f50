use usn_journal::util::{classify_os_version, WindowsVersion};
use usn_journal::util::windows_version::WindowsVersion as DetectedVersion;

#[test]
fn version_numbers_classify_to_tiers() {
    assert!(matches!(classify_os_version(6, 1), WindowsVersion::Win7));
    assert!(matches!(classify_os_version(6, 0), WindowsVersion::GreaterWin7));
    assert!(matches!(classify_os_version(6, 2), WindowsVersion::GreaterWin7));
    assert!(matches!(classify_os_version(10, 0), WindowsVersion::GreaterWin7));
    assert!(matches!(classify_os_version(11, 0), WindowsVersion::GreaterWin7));
    assert!(matches!(classify_os_version(5, 1), WindowsVersion::Other));
}

#[test]
fn detected_version_numbers_classify_to_tiers() {
    assert!(matches!(
        DetectedVersion::from_version_numbers(6, 1),
        DetectedVersion::Win7
    ));
    assert!(matches!(
        DetectedVersion::from_version_numbers(10, 0),
        DetectedVersion::GreaterWin7
    ));
    assert!(matches!(
        DetectedVersion::from_version_numbers(4, 0),
        DetectedVersion::Other
    ));
}
