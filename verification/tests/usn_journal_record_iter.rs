use usn_journal::error::UsnError;
use usn_journal::reader::RecordFetcher;
use usn_journal::usn_journal_record_iter::UsnJournalIter;
use usn_journal::usn_record::{Record, Records};

struct MockFetcher {}

impl RecordFetcher for MockFetcher {
    fn do_fetch(&mut self) -> Result<Vec<Record>, UsnError> {
        Ok(vec![
            Record {
                usn: 3,
                ..Default::default()
            },
            Record {
                usn: 4,
                ..Default::default()
            },
        ])
    }
}

struct MockFetcher2 {}

impl RecordFetcher for MockFetcher2 {
    fn do_fetch(&mut self) -> Result<Vec<Record>, UsnError> {
        Ok(vec![])
    }
}

struct QuietThenBusyFetcher {
    calls: u32,
}

impl RecordFetcher for QuietThenBusyFetcher {
    fn do_fetch(&mut self) -> Result<Vec<Record>, UsnError> {
        let n = self.calls;
        self.calls = n + 1;
        if n == 0 {
            Ok(vec![])
        } else {
            Ok(vec![Record {
                usn: 7,
                ..Default::default()
            }])
        }
    }
}

struct FailingFetcher {}

impl RecordFetcher for FailingFetcher {
    fn do_fetch(&mut self) -> Result<Vec<Record>, UsnError> {
        Err(UsnError::DeviceError(5))
    }
}

#[test]
fn it_should_be_got_none() {
    let mut iter = UsnJournalIter::new(vec![], MockFetcher2 {});

    let first = iter.next();
    assert!(first.is_none());
}

#[test]
fn it_should_be_got_next() {
    let records = Records {
        content: vec![
            Record {
                usn: 1,
                ..Default::default()
            },
            Record {
                usn: 2,
                ..Default::default()
            },
        ],
        fetcher: MockFetcher {},
    };
    let mut iter = records.into_iter();
    let first = iter.next().unwrap().unwrap();
    let second = iter.next().unwrap().unwrap();
    let third = iter.next().unwrap().unwrap();
    let forth = iter.next().unwrap().unwrap();

    assert_eq!(first.usn, 1);
    assert_eq!(second.usn, 2);
    assert_eq!(third.usn, 3);
    assert_eq!(forth.usn, 4);
}

#[test]
fn exhaustion_is_transient() {
    let mut iter = UsnJournalIter::new(vec![], QuietThenBusyFetcher { calls: 0 });

    let quiet = iter.next();
    assert!(quiet.is_none());

    let busy = iter.next().unwrap().unwrap();
    assert_eq!(busy.usn, 7);
}

#[test]
fn fetch_failure_surfaces_the_error_and_next_call_retries() {
    let mut iter = UsnJournalIter::new(vec![], FailingFetcher {});

    let first = iter.next().unwrap();
    assert_eq!(first.err().unwrap(), UsnError::DeviceError(5));

    let second = iter.next().unwrap();
    assert_eq!(second.err().unwrap(), UsnError::DeviceError(5));
}

#[test]
fn refill_hands_out_the_front_and_keeps_the_rest() {
    let mut iter = UsnJournalIter::new(vec![], MockFetcher2 {});

    let none = iter.refill(vec![]);
    assert!(none.is_none());
    assert!(iter.records.is_empty());

    let block = vec![
        Record {
            usn: 9,
            ..Default::default()
        },
        Record {
            usn: 10,
            ..Default::default()
        },
    ];
    let front = iter.refill(block).unwrap().unwrap();
    assert_eq!(front.usn, 9);
    assert_eq!(iter.records.len(), 1);
    assert_eq!(iter.records[0].usn, 10);
    assert_eq!(iter.current, 0);
}
