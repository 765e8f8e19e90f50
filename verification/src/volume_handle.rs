use vstd::prelude::*;
use crate::error::UsnError;
use crate::raw::volume_handle::spec_volume_path;
use crate::windows_string::push_char;

verus! {

/// The native code reported when a handle is asked for but not valid.
pub const ERROR_INVALID_HANDLE: u32 = 6;

/// A handle value the OS treats as usable: the null and the "invalid
/// handle" sentinel are not.
pub open spec fn spec_handle_valid(h: i64) -> bool {
    h != 0 && h != -1
}

/// An opened volume: its device path and the raw handle value the open
/// returned. Opening the path is a privileged call of the OS boundary,
/// which supplies the handle; a freshly made value carries the null handle
/// until then.
pub struct VolumeHandle {
    pub volume: String,
    pub handle: i64,
}

impl VolumeHandle {
    /// The volume with device path `\\.\<volume>:` and no open handle yet.
    pub fn new(volume: char) -> (r: Self)
        ensures
            r.volume@ == spec_volume_path(volume),
            r.handle == 0,
    {
        let mut s = String::from_str("\\\\.\\");
        proof {
            reveal_strlit("\\\\.\\");
        }
        push_char(&mut s, volume);
        push_char(&mut s, ':');
        proof {
            assert(s@ =~= spec_volume_path(volume));
        }
        VolumeHandle { volume: s, handle: 0 }
    }

    /// The raw handle, exactly when it is a usable value; otherwise the
    /// native invalid-handle error.
    pub fn get_handle(&self) -> (r: Result<i64, UsnError>)
        ensures
            spec_handle_valid(self.handle) ==> r == Ok::<i64, UsnError>(self.handle),
            !spec_handle_valid(self.handle) ==> r == Err::<i64, UsnError>(
                UsnError::DeviceError(ERROR_INVALID_HANDLE),
            ),
    {
        if self.handle != 0 && self.handle != -1 {
            Ok(self.handle)
        } else {
            Err(UsnError::DeviceError(ERROR_INVALID_HANDLE))
        }
    }
}

} // verus!
