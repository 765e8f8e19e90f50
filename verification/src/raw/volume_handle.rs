use vstd::prelude::*;
use crate::windows_string::push_char;

verus! {

/// The device path of a volume, `\\.\X:` for drive letter `X`.
pub open spec fn spec_volume_path(c: char) -> Seq<char> {
    seq!['\\', '\\', '.', '\\', c, ':']
}

/// A volume named by its device path. Opening the path is a privileged
/// operation of the journal device channel and happens outside this library;
/// this type only carries the path.
pub struct VolumeHandle {
    pub volume: String,
}

impl VolumeHandle {
    /// The volume with device path `\\.\<volume>:`.
    pub fn new(volume: char) -> (r: Self)
        ensures
            r.volume@ == spec_volume_path(volume),
    {
        let mut s = String::from_str("\\\\.\\");
        proof {
            reveal_strlit("\\\\.\\");
        }
        push_char(&mut s, volume);
        push_char(&mut s, ':');
        proof {
            assert(s@ =~= spec_volume_path(volume));
        }
        VolumeHandle { volume: s }
    }
}

} // verus!
