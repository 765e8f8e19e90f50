use usn_journal::error::UsnError;
use usn_journal::reader::RecordFetcher;
use usn_journal::usn_record::{Record, Records};

struct MockFetcher {}

impl RecordFetcher for MockFetcher {
    fn do_fetch(&mut self) -> Result<Vec<Record>, UsnError> {
        Ok(vec![
            Record {
                usn: 1,
                ..Default::default()
            },
            Record {
                usn: 2,
                ..Default::default()
            },
        ])
    }
}

#[test]
fn it_should_into_iter() {
    let records = Records {
        content: vec![
            Record {
                usn: 1,
                ..Default::default()
            },
            Record {
                usn: 2,
                ..Default::default()
            },
        ],
        fetcher: MockFetcher {},
    };

    let mut iter = records.content.into_iter();
    let r1 = iter.next().unwrap();

    assert_eq!(r1.usn, 1);
}

#[test]
fn it_should_convert_timestamp() {
    let record = Record {
        timestamp: 132989000930000000,
        ..Default::default()
    };

    let unix_timestapm = record.get_unix_timestamp();
    assert_eq!(unix_timestapm, 1654426493);
}

#[test]
fn negative_timestamps_convert_like_machine_division() {
    let record = Record {
        timestamp: -10_000_001,
        ..Default::default()
    };
    assert_eq!(record.get_unix_timestamp(), -1 - 11_644_473_600);

    let barely = Record {
        timestamp: -9_999_999,
        ..Default::default()
    };
    assert_eq!(barely.get_unix_timestamp(), -11_644_473_600);
}

#[test]
fn default_record_is_all_zero() {
    let record = Record::default();

    assert_eq!(record.usn, 0);
    assert_eq!(record.timestamp, 0);
    assert_eq!(record.file_reference_number, 0);
    assert_eq!(record.parent_file_reference_number, 0);
    assert_eq!(record.reason, 0);
    assert_eq!(record.name, "");
}
