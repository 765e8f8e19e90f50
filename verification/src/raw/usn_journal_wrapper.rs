use vstd::prelude::*;
use crate::error::UsnError;
use crate::raw::windows::RawJournalData;
use crate::usn_journal_data::DataVer;

verus! {

/// One raw buffer handed back by a bounded journal read: an owned byte
/// region of which the first `len` bytes were populated by the read.
///
/// A well-formed buffer has `len` no larger than the region; the walker in
/// [`crate::raw::parser`] re-checks this and treats a violation as a
/// malformed buffer, so nothing here is trusted.
pub struct RawRecords {
    pub raw: Vec<u8>,
    pub len: u32,
}

impl RawRecords {
    /// The buffer's populated bytes fit inside the region it owns.
    pub open spec fn wf(self) -> bool {
        self.len as int <= self.raw@.len()
    }
}

/// The journal device channel: the privileged, one-shot operations that only
/// the operating system can perform. Implementations live outside this
/// library (a device-backed one, or a canned one in tests); the streaming
/// logic is verified against exactly what is promised here and nothing more.
pub trait UsnJournalWrapper {
    /// Create a journal on the volume. Not exercised by the streaming path.
    fn raw_create(&self);

    /// Query the journal's metadata in the layout of the given tier. On
    /// success the returned layout is the one that was asked for; on failure
    /// the device's error is reported.
    fn raw_query(&self, ver: DataVer) -> (r: Result<RawJournalData, UsnError>)
        ensures
            r matches Ok(d) ==> d.is_ver(ver),
    ;

    /// One bounded read of records at and after `start_usn` from the journal
    /// identified by `usn_journal_id`. The returned buffer is well-formed;
    /// a device-level failure surfaces as a buffer with `len == 0`, which the
    /// stream treats as "no data available right now".
    fn raw_read(&self, start_usn: i64, usn_journal_id: u64, capacity: usize) -> (r: Result<
        RawRecords,
        UsnError,
    >)
        ensures
            r matches Ok(b) ==> b.wf(),
    ;

    /// Enumerate record identities. Not exercised by the streaming path.
    fn raw_enum(&self, capacity: usize) -> (r: Result<RawRecords, UsnError>)
        ensures
            r matches Ok(b) ==> b.wf(),
    ;

    /// Delete the journal. Not exercised by the streaming path.
    fn raw_delete(&self);
}

} // verus!
