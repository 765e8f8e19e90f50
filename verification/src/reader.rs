use vstd::prelude::*;
use crate::error::UsnError;
use crate::raw::parser::{walk, RawUsnRecord, UsnRecordV2};
use crate::raw::usn_journal_wrapper::UsnJournalWrapper;
use crate::usn_journal_data::UsnJournalDataFactory;
use crate::usn_journal_record::UsnRecordFactory;
use crate::usn_record::{Record, Records};

verus! {

/// Fetching the next block of records, advancing whatever cursor the
/// implementation keeps. What a fetch hands back is up to the
/// implementation — the stream is verified to behave for every outcome, and
/// implementations outside this library (a device-backed reader, a canned
/// one in tests) promise nothing here.
pub trait RecordFetcher {
    fn do_fetch(&mut self) -> Result<Vec<Record>, UsnError>;
}

/// `recs` is what walking a buffer of `valid` meaningful bytes `b` under the
/// version-2 layout and normalizing each record yields.
pub open spec fn normalized_walk(b: Seq<u8>, valid: int, recs: Seq<Record>) -> bool {
    match walk(b, valid) {
        Option::Some(slices) => recs.len() == slices.len() && (forall|i: int|
            0 <= i < slices.len() ==> (#[trigger] recs[i])@ == UsnRecordV2::normalize_spec(
                UsnRecordV2::decode_spec(b.subrange(slices[i].0, slices[i].0 + slices[i].1)),
            )),
        Option::None => false,
    }
}

/// Where the cursor stands after one block was fetched from buffer `b` with
/// `valid` meaningful bytes: the resume point the read operation reports in
/// the buffer's leading eight bytes, or the old position when the read
/// returned less than that.
pub open spec fn spec_advanced_cursor(prev: i64, b: Seq<u8>, valid: int) -> i64 {
    if valid >= 8 {
        vstd::bytes::spec_u64_from_le_bytes(b.subrange(0, 8)) as i64
    } else {
        prev
    }
}

/// Reads blocks of canonical records end to end: negotiates the journal
/// descriptor, issues one bounded read at its cursor under that journal's
/// identity, walks the buffer and normalizes every record, and advances the
/// cursor once per cleanly parsed block to the resume point the read
/// reported — never per record, and never past a buffer that failed to
/// parse.
pub struct Reader<'a, U: UsnJournalWrapper> {
    pub usn_journal: &'a U,
    pub start_usn: i64,
}

impl<'a, U: UsnJournalWrapper> Reader<'a, U> {
    pub fn new(usn_journal: &'a U) -> (r: Self)
        ensures
            r.usn_journal == usn_journal,
            r.start_usn == 0,
    {
        Reader { usn_journal, start_usn: 0 }
    }

    /// One negotiate-read-walk-normalize round at the current cursor.
    /// Whatever buffer the channel hands back, a returned block is exactly
    /// the normalized walk of that buffer, and the cursor moves to that
    /// buffer's reported resume point; a failure of any stage passes through
    /// as its error and leaves the cursor where it stood.
    pub fn fetch_records(&mut self) -> (r: Result<Vec<Record>, UsnError>)
        ensures
            final(self).usn_journal == old(self).usn_journal,
            r matches Err(e) ==> final(self).start_usn == old(self).start_usn,
            r matches Ok(v) ==> exists|b: Seq<u8>, valid: int|
                #[trigger] normalized_walk(b, valid, v@) && final(self).start_usn
                    == spec_advanced_cursor(old(self).start_usn, b, valid),
    {
        let data_factory = UsnJournalDataFactory::new(self.usn_journal);
        let data = match data_factory.query() {
            Ok(d) => d,
            Err(e) => {
                return Err(e);
            },
        };
        let mut record_factory = UsnRecordFactory::new(self.usn_journal);
        record_factory.set_usn_journal_id(data.data.usn_journal_id);
        record_factory.start_usn = self.start_usn;
        let raw_records = match record_factory.read(65535) {
            Ok(raw) => raw,
            Err(e) => {
                return Err(e);
            },
        };
        let ghost b = raw_records.raw.raw@;
        let ghost valid = raw_records.raw.len as int;
        let resume = raw_records.next;
        let normalized = raw_records.normalize();
        match normalized {
            Ok(v) => {
                if let Some(u) = resume {
                    self.start_usn = u;
                }
                proof {
                    assert(normalized_walk(b, valid, v@) && self.start_usn
                        == spec_advanced_cursor(old(self).start_usn, b, valid));
                }
                Ok(v)
            },
            Err(e) => Err(e),
        }
    }

    /// One fetched block together with this reader, its cursor advanced, for
    /// refills.
    pub fn read(self) -> (r: Result<Records<Reader<'a, U>>, UsnError>)
        ensures
            r matches Ok(recs) ==> recs.fetcher.usn_journal == self.usn_journal && exists|
                b: Seq<u8>,
                valid: int,
            |
                #[trigger] normalized_walk(b, valid, recs.content@) && recs.fetcher.start_usn
                    == spec_advanced_cursor(self.start_usn, b, valid),
    {
        let ghost prev = self;
        let mut this = self;
        match this.fetch_records() {
            Ok(content) => {
                let ghost (b0, v0): (Seq<u8>, int) = choose|b: Seq<u8>, valid: int|
                    normalized_walk(b, valid, content@) && this.start_usn == spec_advanced_cursor(
                        prev.start_usn,
                        b,
                        valid,
                    );
                let recs = Records { content, fetcher: this };
                proof {
                    assert(normalized_walk(b0, v0, recs.content@) && recs.fetcher.start_usn
                        == spec_advanced_cursor(prev.start_usn, b0, v0));
                }
                Ok(recs)
            },
            Err(e) => Err(e),
        }
    }
}

impl<'a, U: UsnJournalWrapper> RecordFetcher for Reader<'a, U> {
    fn do_fetch(&mut self) -> Result<Vec<Record>, UsnError> {
        self.fetch_records()
    }
}

} // verus!
