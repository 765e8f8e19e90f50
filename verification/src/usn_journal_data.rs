use vstd::prelude::*;
use vstd::std_specs::convert::FromSpecImpl;
use crate::error::UsnError;
use crate::raw::usn_journal_wrapper::UsnJournalWrapper;
use crate::raw::windows::{RawJournalData, UsnJournalDataV0, UsnJournalDataV1, UsnJournalDataV2};
use crate::util::windows_version::{MatchVersion, WindowsVersion};

verus! {

/// The canonical journal descriptor: identity, sequence-number bounds, and
/// sizing, the same for every metadata layout. Fields absent from older
/// layouts are `None`, so a caller can tell absence from a genuine zero.
#[derive(Clone, Copy, Debug, PartialEq)]
pub struct Data {
    pub usn_journal_id: u64,
    pub first_usn: i64,
    pub next_usn: i64,
    pub lowest_valid_usn: i64,
    pub max_usn: i64,
    pub maximum_size: u64,
    pub allocation_delta: u64,
    pub min_supported_major_version: Option<u16>,
    pub max_supported_major_version: Option<u16>,
    pub flags: Option<u32>,
    pub range_track_chunk_size: Option<u64>,
    pub range_track_file_size_threshold: Option<i64>,
}

impl Data {
    /// A descriptor's bounds are ordered: the oldest record on disk comes no
    /// later than the oldest valid one, which comes no later than the next
    /// to be written.
    pub open spec fn bounds_ordered(self) -> bool {
        self.first_usn <= self.lowest_valid_usn <= self.next_usn
    }
}

impl From<UsnJournalDataV0> for Data {
    fn from(u: UsnJournalDataV0) -> (r: Self) {
        Data {
            usn_journal_id: u.usn_journal_id,
            first_usn: u.first_usn,
            next_usn: u.next_usn,
            lowest_valid_usn: u.lowest_valid_usn,
            max_usn: u.max_usn,
            maximum_size: u.maximum_size,
            allocation_delta: u.allocation_delta,
            min_supported_major_version: None,
            max_supported_major_version: None,
            flags: None,
            range_track_chunk_size: None,
            range_track_file_size_threshold: None,
        }
    }
}

impl FromSpecImpl<UsnJournalDataV0> for Data {
    open spec fn obeys_from_spec() -> bool {
        true
    }

    open spec fn from_spec(u: UsnJournalDataV0) -> Data {
        Data {
            usn_journal_id: u.usn_journal_id,
            first_usn: u.first_usn,
            next_usn: u.next_usn,
            lowest_valid_usn: u.lowest_valid_usn,
            max_usn: u.max_usn,
            maximum_size: u.maximum_size,
            allocation_delta: u.allocation_delta,
            min_supported_major_version: None,
            max_supported_major_version: None,
            flags: None,
            range_track_chunk_size: None,
            range_track_file_size_threshold: None,
        }
    }
}

impl From<UsnJournalDataV1> for Data {
    fn from(u: UsnJournalDataV1) -> (r: Self) {
        Data {
            usn_journal_id: u.usn_journal_id,
            first_usn: u.first_usn,
            next_usn: u.next_usn,
            lowest_valid_usn: u.lowest_valid_usn,
            max_usn: u.max_usn,
            maximum_size: u.maximum_size,
            allocation_delta: u.allocation_delta,
            min_supported_major_version: Some(u.min_supported_major_version),
            max_supported_major_version: Some(u.max_supported_major_version),
            flags: None,
            range_track_chunk_size: None,
            range_track_file_size_threshold: None,
        }
    }
}

impl FromSpecImpl<UsnJournalDataV1> for Data {
    open spec fn obeys_from_spec() -> bool {
        true
    }

    open spec fn from_spec(u: UsnJournalDataV1) -> Data {
        Data {
            usn_journal_id: u.usn_journal_id,
            first_usn: u.first_usn,
            next_usn: u.next_usn,
            lowest_valid_usn: u.lowest_valid_usn,
            max_usn: u.max_usn,
            maximum_size: u.maximum_size,
            allocation_delta: u.allocation_delta,
            min_supported_major_version: Some(u.min_supported_major_version),
            max_supported_major_version: Some(u.max_supported_major_version),
            flags: None,
            range_track_chunk_size: None,
            range_track_file_size_threshold: None,
        }
    }
}

impl From<UsnJournalDataV2> for Data {
    fn from(u: UsnJournalDataV2) -> (r: Self) {
        Data {
            usn_journal_id: u.usn_journal_id,
            first_usn: u.first_usn,
            next_usn: u.next_usn,
            lowest_valid_usn: u.lowest_valid_usn,
            max_usn: u.max_usn,
            maximum_size: u.maximum_size,
            allocation_delta: u.allocation_delta,
            min_supported_major_version: Some(u.min_supported_major_version),
            max_supported_major_version: Some(u.max_supported_major_version),
            flags: Some(u.flags),
            range_track_chunk_size: Some(u.range_track_chunk_size),
            range_track_file_size_threshold: Some(u.range_track_file_size_threshold),
        }
    }
}

impl FromSpecImpl<UsnJournalDataV2> for Data {
    open spec fn obeys_from_spec() -> bool {
        true
    }

    open spec fn from_spec(u: UsnJournalDataV2) -> Data {
        Data {
            usn_journal_id: u.usn_journal_id,
            first_usn: u.first_usn,
            next_usn: u.next_usn,
            lowest_valid_usn: u.lowest_valid_usn,
            max_usn: u.max_usn,
            maximum_size: u.maximum_size,
            allocation_delta: u.allocation_delta,
            min_supported_major_version: Some(u.min_supported_major_version),
            max_supported_major_version: Some(u.max_supported_major_version),
            flags: Some(u.flags),
            range_track_chunk_size: Some(u.range_track_chunk_size),
            range_track_file_size_threshold: Some(u.range_track_file_size_threshold),
        }
    }
}

/// The tag of a journal metadata layout version.
#[derive(Clone, Copy, Debug, PartialEq, Eq, Structural)]
pub enum DataVer {
    V0,
    V1,
    V2,
}

/// A negotiated journal descriptor: the canonical data, the layout version
/// it was read in, and the journal it belongs to.
pub struct UsnJournalData<'a, U: UsnJournalWrapper> {
    pub usn_journal: &'a U,
    pub ver: DataVer,
    pub data: Data,
}

/// Negotiates the journal descriptor: issues one metadata query through the
/// journal device channel, in the layout selected by the detected capability
/// tier, and maps the answer into the canonical [`Data`].
pub struct UsnJournalDataFactory<'a, U: UsnJournalWrapper> {
    usn_journal: &'a U,
    version: WindowsVersion,
}

/// The layout tier that each capability tier queries in.
pub open spec fn spec_ver_for(version: WindowsVersion) -> DataVer {
    match version {
        WindowsVersion::GreaterWin7 => DataVer::V2,
        WindowsVersion::Win7 => DataVer::V1,
        _ => DataVer::V0,
    }
}

impl<'a, U: UsnJournalWrapper> MatchVersion<'a> for UsnJournalDataFactory<'a, U> {
    closed spec fn current_version(&self) -> WindowsVersion {
        self.version
    }

    fn by_win_version(&mut self, version: &'a WindowsVersion) {
        self.version = *version;
    }
}

impl<'a, U: UsnJournalWrapper> UsnJournalDataFactory<'a, U> {
    pub fn new(usn_journal: &'a U) -> (r: Self)
        ensures
            r.current_version() == WindowsVersion::Unknown,
    {
        UsnJournalDataFactory { usn_journal, version: WindowsVersion::Unknown }
    }

    /// Issue the one metadata query, in the layout of the selected tier, and
    /// normalize the answer. Fields the queried layout does not carry are
    /// `None` in the result; a failing query surfaces as
    /// `MetadataUnavailable`.
    pub fn query(&self) -> (r: Result<UsnJournalData<'a, U>, UsnError>)
        ensures
            r matches Ok(d) ==> {
                &&& d.ver == spec_ver_for(self.current_version())
                &&& (d.ver == DataVer::V0 ==> d.data.min_supported_major_version is None
                    && d.data.max_supported_major_version is None)
                &&& (d.ver == DataVer::V1 ==> d.data.min_supported_major_version is Some
                    && d.data.max_supported_major_version is Some)
                &&& (d.ver == DataVer::V2 ==> d.data.min_supported_major_version is Some
                    && d.data.max_supported_major_version is Some && d.data.flags is Some
                    && d.data.range_track_chunk_size is Some
                    && d.data.range_track_file_size_threshold is Some)
                &&& (d.ver != DataVer::V2 ==> d.data.flags is None
                    && d.data.range_track_chunk_size is None
                    && d.data.range_track_file_size_threshold is None)
            },
            r matches Err(e) ==> e == UsnError::MetadataUnavailable,
    {
        match self.version {
            WindowsVersion::GreaterWin7 => {
                match self.usn_journal.raw_query(DataVer::V2) {
                    Ok(raw) => match raw {
                        RawJournalData::V2(u) => Ok(UsnJournalData {
                            usn_journal: self.usn_journal,
                            ver: DataVer::V2,
                            data: Data::from(u),
                        }),
                        _ => {
                            proof {
                                assert(false);
                            }
                            Err(UsnError::MetadataUnavailable)
                        },
                    },
                    Err(_) => Err(UsnError::MetadataUnavailable),
                }
            },
            WindowsVersion::Win7 => {
                match self.usn_journal.raw_query(DataVer::V1) {
                    Ok(raw) => match raw {
                        RawJournalData::V1(u) => Ok(UsnJournalData {
                            usn_journal: self.usn_journal,
                            ver: DataVer::V1,
                            data: Data::from(u),
                        }),
                        _ => {
                            proof {
                                assert(false);
                            }
                            Err(UsnError::MetadataUnavailable)
                        },
                    },
                    Err(_) => Err(UsnError::MetadataUnavailable),
                }
            },
            _ => {
                match self.usn_journal.raw_query(DataVer::V0) {
                    Ok(raw) => match raw {
                        RawJournalData::V0(u) => Ok(UsnJournalData {
                            usn_journal: self.usn_journal,
                            ver: DataVer::V0,
                            data: Data::from(u),
                        }),
                        _ => {
                            proof {
                                assert(false);
                            }
                            Err(UsnError::MetadataUnavailable)
                        },
                    },
                    Err(_) => Err(UsnError::MetadataUnavailable),
                }
            },
        }
    }
}

} // verus!
