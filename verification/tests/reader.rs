use std::cell::Cell;
use usn_journal::error::UsnError;
use usn_journal::raw::usn_journal_wrapper::{RawRecords, UsnJournalWrapper};
use usn_journal::raw::windows::{RawJournalData, UsnJournalDataV0, UsnJournalDataV1, UsnJournalDataV2};
use usn_journal::reader::{Reader, RecordFetcher};
use usn_journal::usn_journal_data::DataVer;

fn zero_v0() -> UsnJournalDataV0 {
    UsnJournalDataV0 {
        usn_journal_id: 0,
        first_usn: 0,
        next_usn: 0,
        lowest_valid_usn: 0,
        max_usn: 0,
        maximum_size: 0,
        allocation_delta: 0,
    }
}

fn zero_v1() -> UsnJournalDataV1 {
    UsnJournalDataV1 {
        usn_journal_id: 0,
        first_usn: 0,
        next_usn: 0,
        lowest_valid_usn: 0,
        max_usn: 0,
        maximum_size: 0,
        allocation_delta: 0,
        min_supported_major_version: 0,
        max_supported_major_version: 0,
    }
}

fn zero_v2() -> UsnJournalDataV2 {
    UsnJournalDataV2 {
        usn_journal_id: 0,
        first_usn: 0,
        next_usn: 0,
        lowest_valid_usn: 0,
        max_usn: 0,
        maximum_size: 0,
        allocation_delta: 0,
        min_supported_major_version: 0,
        max_supported_major_version: 0,
        flags: 0,
        range_track_chunk_size: 0,
        range_track_file_size_threshold: 0,
    }
}

struct TestUsnJournal {
    seen_start_usn: Cell<i64>,
}

impl TestUsnJournal {
    fn new() -> Self {
        TestUsnJournal { seen_start_usn: Cell::new(-1) }
    }
}

impl UsnJournalWrapper for TestUsnJournal {
    fn raw_create(&self) {
        unreachable!()
    }

    fn raw_query(&self, ver: DataVer) -> Result<RawJournalData, UsnError> {
        Ok(match ver {
            DataVer::V0 => RawJournalData::V0(zero_v0()),
            DataVer::V1 => RawJournalData::V1(zero_v1()),
            DataVer::V2 => RawJournalData::V2(zero_v2()),
        })
    }

    fn raw_read(&self, start_usn: i64, _usn_journal_id: u64, _capacity: usize) -> Result<RawRecords, UsnError> {
        self.seen_start_usn.set(start_usn);
        let p = [
            144u8, 0, 128, 144, 0, 0, 0, 0, 144, 0, 0, 0, 2, 0, 0, 0, 76, 119, 0, 0, 0, 0, 4,
            0, 195, 162, 3, 0, 0, 0, 2, 0, 0, 0, 128, 144, 0, 0, 0, 0, 10, 27, 185, 192, 46,
            86, 216, 1, 3, 0, 0, 128, 0, 0, 0, 0, 0, 0, 0, 0, 32, 0, 0, 0, 80, 0, 60, 0, 51, 0,
            51, 0, 48, 0, 66, 0, 67, 0, 50, 0, 51, 0, 53, 0, 68, 0, 66, 0, 55, 0, 65, 0, 55, 0,
            56, 0, 56, 0, 50, 0, 52, 0, 52, 0, 67, 0, 57, 0, 68, 0, 67, 0, 66, 0, 65, 0, 52, 0,
            68, 0, 50, 0, 56, 0, 68, 0, 65, 0, 51, 0, 57, 0, 70, 0, 53, 0, 56, 0, 66, 0, 52, 0,
            48, 0, 56, 0, 53, 0,
        ];
        let mut pp = vec![0u8; 65535];
        pp[0..148].clone_from_slice(&p);
        Ok(RawRecords { raw: pp, len: 152 })
    }

    fn raw_enum(&self, _capacity: usize) -> Result<RawRecords, UsnError> {
        unreachable!()
    }

    fn raw_delete(&self) {
        unreachable!()
    }
}

#[test]
fn it_should_be_read() {
    let journal = TestUsnJournal::new();
    let mut reader = Reader::new(&journal);
    let records = reader.do_fetch().unwrap();
    let only_one = records.first().unwrap();

    assert_eq!(records.len(), 1);
    assert_eq!(only_one.usn, 2424307712);
}

#[test]
fn it_should_be_read_and_into() {
    let journal = TestUsnJournal::new();
    let reader = Reader::new(&journal);
    let records = reader.read().unwrap();
    let mut iter = records.into_iter();
    let only_one = iter.next().unwrap().unwrap();

    assert_eq!(only_one.usn, 2424307712);
}

#[test]
fn fetched_record_has_normalized_fields() {
    let journal = TestUsnJournal::new();
    let mut reader = Reader::new(&journal);
    let records = reader.do_fetch().unwrap();
    let only_one = records.first().unwrap();

    assert_eq!(only_one.timestamp, 0x01D8562EC0B91B0A_i64);
    assert_eq!(only_one.reason, 0x80000003);
    assert_eq!(only_one.name, "330BC235DB7A788244C9DCBA4D28DA39F58B4085");
}

#[test]
fn cursor_advances_to_the_reported_resume_point_once_per_block() {
    let journal = TestUsnJournal::new();
    let mut reader = Reader::new(&journal);

    reader.do_fetch().unwrap();
    assert_eq!(journal.seen_start_usn.get(), 0);
    assert_eq!(reader.start_usn, 2424307856);

    reader.do_fetch().unwrap();
    assert_eq!(journal.seen_start_usn.get(), 2424307856);
}
