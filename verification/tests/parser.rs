use usn_journal::error::UsnError;
use usn_journal::raw::parser::{Parser, RawUsnRecord, UsnRecordV2};
use usn_journal::raw::usn_journal_wrapper::RawRecords;

/// A minimal well-formed version-2 record: 60-byte header plus a 6-byte
/// UTF-16 name, padded to the declared length.
fn record_bytes(usn: i64, name: &str, declared_len: u32) -> Vec<u8> {
    let name_units: Vec<u16> = name.encode_utf16().collect();
    let name_len = (name_units.len() * 2) as u16;
    let mut rec = vec![0u8; declared_len as usize];
    rec[0..4].clone_from_slice(&declared_len.to_le_bytes());
    rec[4..6].clone_from_slice(&2u16.to_le_bytes());
    rec[24..32].clone_from_slice(&usn.to_le_bytes());
    rec[56..58].clone_from_slice(&name_len.to_le_bytes());
    rec[58..60].clone_from_slice(&60u16.to_le_bytes());
    for (i, unit) in name_units.iter().enumerate() {
        rec[60 + 2 * i..62 + 2 * i].clone_from_slice(&unit.to_le_bytes());
    }
    rec
}

fn buffer_of(records: &[Vec<u8>]) -> RawRecords {
    let mut raw = vec![0u8; 8];
    for rec in records {
        raw.extend_from_slice(rec);
    }
    let len = raw.len() as u32;
    RawRecords { raw, len }
}

#[test]
fn walk_returns_each_record_in_order() {
    let buffer = buffer_of(&[record_bytes(10, "a", 64), record_bytes(20, "b", 64)]);
    let records: Vec<UsnRecordV2> = buffer.parse().unwrap();

    assert_eq!(records.len(), 2);
    assert_eq!(records[0].usn, 10);
    assert_eq!(records[0].record_length, 64);
    assert_eq!(records[0].len(), 64);
    assert_eq!(records[1].usn, 20);

    let first = records[0].normalize();
    assert_eq!(first.usn, 10);
    assert_eq!(first.name, "a");
}

#[test]
fn zero_declared_length_is_malformed() {
    let mut rec = record_bytes(10, "a", 64);
    rec[0..4].clone_from_slice(&0u32.to_le_bytes());
    let buffer = buffer_of(&[rec]);
    let res: Result<Vec<UsnRecordV2>, UsnError> = buffer.parse();

    assert_eq!(res.err().unwrap(), UsnError::MalformedBuffer);
}

#[test]
fn oversized_declared_length_is_malformed() {
    let mut rec = record_bytes(10, "a", 64);
    rec[0..4].clone_from_slice(&4096u32.to_le_bytes());
    let buffer = buffer_of(&[rec]);
    let res: Result<Vec<UsnRecordV2>, UsnError> = buffer.parse();

    assert_eq!(res.err().unwrap(), UsnError::MalformedBuffer);
}

#[test]
fn malformed_record_after_good_ones_aborts_the_buffer() {
    let mut bad = record_bytes(30, "c", 64);
    bad[0..4].clone_from_slice(&0u32.to_le_bytes());
    let buffer = buffer_of(&[record_bytes(10, "a", 64), bad]);
    let res: Result<Vec<UsnRecordV2>, UsnError> = buffer.parse();

    assert_eq!(res.err().unwrap(), UsnError::MalformedBuffer);
}

#[test]
fn valid_length_beyond_the_buffer_is_malformed() {
    let buffer = RawRecords { raw: vec![0u8; 16], len: 64 };
    let res: Result<Vec<UsnRecordV2>, UsnError> = buffer.parse();

    assert_eq!(res.err().unwrap(), UsnError::MalformedBuffer);
}

#[test]
fn trailing_bytes_up_to_eight_end_the_walk() {
    let mut buffer = buffer_of(&[record_bytes(10, "a", 64)]);
    buffer.raw.extend_from_slice(&[0u8; 8]);
    buffer.len += 8;
    let records: Vec<UsnRecordV2> = buffer.parse().unwrap();

    assert_eq!(records.len(), 1);
}

#[test]
fn short_buffer_has_no_records() {
    let buffer = RawRecords { raw: vec![0u8; 8], len: 8 };
    let records: Vec<UsnRecordV2> = buffer.parse().unwrap();
    assert_eq!(records.len(), 0);

    let empty = RawRecords { raw: vec![], len: 0 };
    let records: Vec<UsnRecordV2> = empty.parse().unwrap();
    assert_eq!(records.len(), 0);
}

#[test]
fn unknown_major_version_degrades_to_an_empty_name() {
    let mut rec = record_bytes(10, "a", 64);
    rec[4..6].clone_from_slice(&3u16.to_le_bytes());
    let buffer = buffer_of(&[rec]);
    let records: Vec<UsnRecordV2> = buffer.parse().unwrap();

    assert_eq!(records.len(), 1);
    let normalized = records[0].normalize();
    assert_eq!(normalized.usn, 10);
    assert_eq!(normalized.name, "");
}

#[test]
fn name_run_outside_the_record_is_dropped() {
    let mut rec = record_bytes(10, "a", 64);
    rec[56..58].clone_from_slice(&200u16.to_le_bytes());
    let buffer = buffer_of(&[rec]);
    let records: Vec<UsnRecordV2> = buffer.parse().unwrap();

    assert_eq!(records[0].normalize().name, "");
}
