use vstd::prelude::*;
use crate::reader::RecordFetcher;
use crate::usn_journal_record_iter::UsnJournalIter;

verus! {

/// The mathematical value of a canonical change record.
pub struct RecordView {
    pub usn: i64,
    pub timestamp: i64,
    pub file_reference_number: u64,
    pub parent_file_reference_number: u64,
    pub reason: u32,
    pub name: Seq<char>,
}

/// One canonical, owned change record, independent of the on-disk layout it
/// was decoded from: its sequence number, its timestamp in 100ns ticks since
/// the journal's fixed epoch, the identities of the file and its parent, the
/// change reason flags, and the file name.
#[derive(Clone, Debug)]
pub struct Record {
    pub usn: i64,
    pub timestamp: i64,
    pub file_reference_number: u64,
    pub parent_file_reference_number: u64,
    pub reason: u32,
    pub name: String,
}

impl View for Record {
    type V = RecordView;

    open spec fn view(&self) -> RecordView {
        RecordView {
            usn: self.usn,
            timestamp: self.timestamp,
            file_reference_number: self.file_reference_number,
            parent_file_reference_number: self.parent_file_reference_number,
            reason: self.reason,
            name: self.name@,
        }
    }
}

/// The value of a record whose every field is zero and whose name is empty.
pub open spec fn spec_default_record() -> RecordView {
    RecordView {
        usn: 0,
        timestamp: 0,
        file_reference_number: 0,
        parent_file_reference_number: 0,
        reason: 0,
        name: Seq::empty(),
    }
}

impl Default for Record {
    fn default() -> (r: Self)
        ensures
            r@ == spec_default_record(),
    {
        Record {
            usn: 0,
            timestamp: 0,
            file_reference_number: 0,
            parent_file_reference_number: 0,
            reason: 0,
            name: String::new(),
        }
    }
}

/// The timestamp's tick count scaled to whole seconds, rounding toward
/// zero, as the machine's signed division does.
pub open spec fn spec_ticks_to_seconds(t: i64) -> int {
    if t >= 0 {
        t as int / 10_000_000
    } else {
        -((-(t as int)) / 10_000_000)
    }
}

impl Record {
    /// The record's timestamp as Unix-epoch seconds: the 100ns tick count is
    /// scaled to seconds, rounding toward zero, and shifted by the
    /// 11644473600 seconds between the journal's epoch and the Unix epoch.
    pub fn get_unix_timestamp(&self) -> (r: i64)
        ensures
            r == spec_ticks_to_seconds(self.timestamp) - 11_644_473_600,
    {
        let secs: i64 = if self.timestamp >= 0 {
            ((self.timestamp as u64) / 10_000_000) as i64
        } else {
            let magnitude: u64 = (-(self.timestamp as i128)) as u64;
            -((magnitude / 10_000_000) as i64)
        };
        secs - 11_644_473_600
    }
}

/// One fetched block of canonical records, together with the fetcher that
/// can refill the stream once the block is drained.
pub struct Records<F: RecordFetcher> {
    pub content: Vec<Record>,
    pub fetcher: F,
}

impl<F: RecordFetcher> Records<F> {
    /// The stream over this block: it starts on the block's records and
    /// refills from the fetcher.
    pub fn into_iter(self) -> (r: UsnJournalIter<F>)
        ensures
            r.records@ == self.content@,
            r.fetcher == self.fetcher,
            r.current == 0,
    {
        UsnJournalIter::new(self.content, self.fetcher)
    }
}

} // verus!
