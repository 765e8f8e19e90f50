use vstd::prelude::*;

verus! {

/// The error kinds that journal reading can surface.
///
/// `MetadataUnavailable` means the journal's identity and bounds could not be
/// obtained, so no stream can be started. `MalformedBuffer` means a record's
/// self-declared length was zero or larger than the bytes remaining in the
/// buffer, so walking the buffer was aborted rather than over-read.
/// `UnsupportedRecordVersion` names a record whose format tag is outside the
/// known set; the normalizer degrades such records to a partial value instead
/// of raising it, so it is part of the error model but never returned by this
/// crate's own functions. `DeviceError` carries the native error code reported
/// by the journal device channel.
#[derive(Clone, Copy, Debug, PartialEq, Eq, Structural)]
pub enum UsnError {
    MetadataUnavailable,
    MalformedBuffer,
    UnsupportedRecordVersion,
    DeviceError(u32),
}

} // verus!
