use vstd::prelude::*;
use crate::volume_handle::VolumeHandle;

verus! {

/// The change journal of one opened volume. The privileged device-control
/// operations on it (querying its metadata, reading records, creating and
/// deleting the journal) go through the journal device channel at the OS
/// boundary; this type carries the volume they act on.
pub struct UsnJournal<'a> {
    pub handle: &'a VolumeHandle,
}

impl<'a> UsnJournal<'a> {
    pub fn new(volume: &'a VolumeHandle) -> (r: Self)
        ensures
            r.handle == volume,
    {
        UsnJournal { handle: volume }
    }
}

} // verus!
