use vstd::prelude::*;
use vstd::bytes::u64_from_le_bytes;
use vstd::slice::slice_subrange;
use crate::error::UsnError;
use crate::raw::parser::{walk, Parser, RawUsnRecord};
use crate::raw::usn_journal_wrapper::{RawRecords, UsnJournalWrapper};

pub use crate::raw::parser::{UsnRecordV2, UsnRecordV2View};

verus! {

/// The sequence number the read operation reports for resuming the next
/// read: the buffer's leading eight bytes, present when the read returned
/// that much.
pub open spec fn spec_resume_usn(raw: RawRecords) -> Option<i64> {
    if raw.len >= 8 {
        Some(vstd::bytes::spec_u64_from_le_bytes(raw.raw@.subrange(0, 8)) as i64)
    } else {
        None
    }
}

/// Issues bounded record reads: holds the cursor (`start_usn`) and the
/// journal identity that every read must name.
pub struct UsnRecordFactory<'a, U: UsnJournalWrapper> {
    pub usn_journal: &'a U,
    pub start_usn: i64,
    pub usn_journal_id: Option<u64>,
}

impl<'a, U: UsnJournalWrapper> UsnRecordFactory<'a, U> {
    pub fn new(usn_journal: &'a U) -> (r: Self)
        ensures
            r.usn_journal == usn_journal,
            r.start_usn == 0,
            r.usn_journal_id is None,
    {
        UsnRecordFactory { usn_journal, start_usn: 0, usn_journal_id: None }
    }

    pub fn set_usn_journal_id(&mut self, id: u64)
        ensures
            final(self).usn_journal_id == Some(id),
            final(self).start_usn == old(self).start_usn,
            final(self).usn_journal == old(self).usn_journal,
    {
        self.usn_journal_id = Some(id);
    }

    /// One bounded read at the current cursor. Without a journal identity no
    /// read can be issued and the result is `MetadataUnavailable`; a device
    /// error from the channel passes through. The buffer's first eight bytes
    /// are the sequence number the next read should resume from, recorded in
    /// `next` whenever the read returned that much.
    pub fn read(&self, capacity: usize) -> (r: Result<UsnJournalRecord<'a, U>, UsnError>)
        ensures
            self.usn_journal_id is None ==> (r matches Err(e) && e
                == UsnError::MetadataUnavailable),
            r matches Ok(j) ==> self.usn_journal_id is Some && j.raw.wf() && j.usn_journal
                == self.usn_journal && j.next == spec_resume_usn(j.raw),
    {
        match self.usn_journal_id {
            Option::None => Err(UsnError::MetadataUnavailable),
            Option::Some(id) => {
                match self.usn_journal.raw_read(self.start_usn, id, capacity) {
                    Ok(raw) => {
                        let next: Option<i64> = if raw.len >= 8 {
                            let leading = u64_from_le_bytes(
                                slice_subrange(raw.raw.as_slice(), 0, 8),
                            );
                            Some(#[verifier::truncate] (leading as i64))
                        } else {
                            None
                        };
                        Ok(UsnJournalRecord { usn_journal: self.usn_journal, raw, next })
                    },
                    Err(e) => Err(e),
                }
            },
        }
    }
}

/// The outcome of one bounded read: the raw buffer, the journal it came
/// from, and the resume point once known.
pub struct UsnJournalRecord<'a, U: UsnJournalWrapper> {
    pub usn_journal: &'a U,
    pub raw: RawRecords,
    pub next: Option<i64>,
}

/// A change record reduced to its sequence number.
#[derive(Clone, Copy, Debug, PartialEq, Eq, Structural)]
pub struct Record {
    pub usn: i64,
}

impl<'a, U: UsnJournalWrapper> UsnJournalRecord<'a, U> {
    /// The sequence numbers of the records in the fetched buffer, walked
    /// under the version-2 layout: in on-disk order, or `MalformedBuffer`
    /// exactly when the walk stops on a bad declared length.
    pub fn parse(self) -> (r: Result<Vec<Record>, UsnError>)
        ensures
            self.raw.len as int > self.raw.raw@.len() ==> (r matches Err(e) && e
                == UsnError::MalformedBuffer),
            self.raw.len as int <= self.raw.raw@.len() ==> match walk(
                self.raw.raw@,
                self.raw.len as int,
            ) {
                Option::Some(slices) => r matches Ok(v) && v@.len() == slices.len() && (forall|
                    i: int,
                |
                    0 <= i < slices.len() ==> (#[trigger] v@[i]).usn == UsnRecordV2::decode_spec(
                        self.raw.raw@.subrange(slices[i].0, slices[i].0 + slices[i].1),
                    ).usn),
                Option::None => r matches Err(e) && e == UsnError::MalformedBuffer,
            },
    {
        let parsed: Result<Vec<UsnRecordV2>, UsnError> = self.raw.parse();
        match parsed {
            Err(e) => Err(e),
            Ok(raws) => {
                let mut records: Vec<Record> = Vec::new();
                let mut i: usize = 0;
                while i < raws.len()
                    invariant
                        0 <= i <= raws@.len(),
                        records@.len() == i,
                        forall|j: int|
                            0 <= j < i ==> (#[trigger] records@[j]).usn == raws@[j]@.usn,
                    decreases raws@.len() - i,
                {
                    records.push(Record { usn: raws[i].usn });
                    i = i + 1;
                }
                Ok(records)
            },
        }
    }

    /// The canonical records of the fetched buffer: each version-2 record
    /// decoded and normalized, in on-disk order, or `MalformedBuffer`
    /// exactly when the walk stops on a bad declared length.
    pub fn normalize(self) -> (r: Result<Vec<crate::usn_record::Record>, UsnError>)
        ensures
            self.raw.len as int > self.raw.raw@.len() ==> (r matches Err(e) && e
                == UsnError::MalformedBuffer),
            self.raw.len as int <= self.raw.raw@.len() ==> match walk(
                self.raw.raw@,
                self.raw.len as int,
            ) {
                Option::Some(slices) => r matches Ok(v) && v@.len() == slices.len() && (forall|
                    i: int,
                |
                    0 <= i < slices.len() ==> (#[trigger] v@[i])@ == UsnRecordV2::normalize_spec(
                        UsnRecordV2::decode_spec(
                            self.raw.raw@.subrange(slices[i].0, slices[i].0 + slices[i].1),
                        ),
                    )),
                Option::None => r matches Err(e) && e == UsnError::MalformedBuffer,
            },
    {
        let parsed: Result<Vec<UsnRecordV2>, UsnError> = self.raw.parse();
        match parsed {
            Err(e) => Err(e),
            Ok(raws) => {
                let mut records: Vec<crate::usn_record::Record> = Vec::new();
                let mut i: usize = 0;
                while i < raws.len()
                    invariant
                        0 <= i <= raws@.len(),
                        records@.len() == i,
                        forall|j: int|
                            0 <= j < i ==> (#[trigger] records@[j])@ == UsnRecordV2::normalize_spec(
                                raws@[j]@,
                            ),
                    decreases raws@.len() - i,
                {
                    let rec = raws[i].normalize();
                    records.push(rec);
                    i = i + 1;
                }
                Ok(records)
            },
        }
    }
}

} // verus!
