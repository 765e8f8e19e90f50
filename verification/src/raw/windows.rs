use vstd::prelude::*;
use vstd::bytes::{
    spec_u16_from_le_bytes, spec_u32_from_le_bytes, spec_u64_from_le_bytes, spec_u64_to_le_bytes,
    u16_from_le_bytes, u32_from_le_bytes, u64_from_le_bytes, u64_to_le_bytes,
};
use vstd::slice::slice_subrange;
use crate::raw::volume_handle::VolumeHandle;
use crate::usn_journal_data::DataVer;

verus! {

/// The baseline journal metadata layout: identity and sequence-number
/// bounds.
#[derive(Clone, Copy, Debug)]
pub struct UsnJournalDataV0 {
    pub usn_journal_id: u64,
    pub first_usn: i64,
    pub next_usn: i64,
    pub lowest_valid_usn: i64,
    pub max_usn: i64,
    pub maximum_size: u64,
    pub allocation_delta: u64,
}

/// The intermediate metadata layout: the baseline fields plus the supported
/// record version range.
#[derive(Clone, Copy, Debug)]
pub struct UsnJournalDataV1 {
    pub usn_journal_id: u64,
    pub first_usn: i64,
    pub next_usn: i64,
    pub lowest_valid_usn: i64,
    pub max_usn: i64,
    pub maximum_size: u64,
    pub allocation_delta: u64,
    pub min_supported_major_version: u16,
    pub max_supported_major_version: u16,
}

/// The current metadata layout: the intermediate fields plus flags and range
/// tracking parameters.
#[derive(Clone, Copy, Debug)]
pub struct UsnJournalDataV2 {
    pub usn_journal_id: u64,
    pub first_usn: i64,
    pub next_usn: i64,
    pub lowest_valid_usn: i64,
    pub max_usn: i64,
    pub maximum_size: u64,
    pub allocation_delta: u64,
    pub min_supported_major_version: u16,
    pub max_supported_major_version: u16,
    pub flags: u32,
    pub range_track_chunk_size: u64,
    pub range_track_file_size_threshold: i64,
}

/// The closed set of raw journal metadata layouts a query can fill.
pub trait RawUsnJournalData {

}

impl RawUsnJournalData for UsnJournalDataV0 {

}

impl RawUsnJournalData for UsnJournalDataV1 {

}

impl RawUsnJournalData for UsnJournalDataV2 {

}

/// What a metadata query hands back: one of the three historical layouts,
/// tagged.
pub enum RawJournalData {
    V0(UsnJournalDataV0),
    V1(UsnJournalDataV1),
    V2(UsnJournalDataV2),
}

impl RawJournalData {
    /// The layout is the one of the given tier.
    pub open spec fn is_ver(self, ver: DataVer) -> bool {
        match (self, ver) {
            (RawJournalData::V0(_), DataVer::V0) => true,
            (RawJournalData::V1(_), DataVer::V1) => true,
            (RawJournalData::V2(_), DataVer::V2) => true,
            _ => false,
        }
    }
}

/// Byte size of the baseline metadata layout.
pub const JOURNAL_DATA_V0_SIZE: usize = 56;

/// Byte size of the intermediate metadata layout.
pub const JOURNAL_DATA_V1_SIZE: usize = 60;

/// Byte size of the current metadata layout.
pub const JOURNAL_DATA_V2_SIZE: usize = 80;

/// The baseline layout's fields at their on-disk offsets in `b`.
pub open spec fn spec_journal_data_v0(b: Seq<u8>) -> UsnJournalDataV0 {
    UsnJournalDataV0 {
        usn_journal_id: spec_u64_from_le_bytes(b.subrange(0, 8)),
        first_usn: spec_u64_from_le_bytes(b.subrange(8, 16)) as i64,
        next_usn: spec_u64_from_le_bytes(b.subrange(16, 24)) as i64,
        lowest_valid_usn: spec_u64_from_le_bytes(b.subrange(24, 32)) as i64,
        max_usn: spec_u64_from_le_bytes(b.subrange(32, 40)) as i64,
        maximum_size: spec_u64_from_le_bytes(b.subrange(40, 48)),
        allocation_delta: spec_u64_from_le_bytes(b.subrange(48, 56)),
    }
}

/// The intermediate layout's fields at their on-disk offsets in `b`.
pub open spec fn spec_journal_data_v1(b: Seq<u8>) -> UsnJournalDataV1 {
    let base = spec_journal_data_v0(b);
    UsnJournalDataV1 {
        usn_journal_id: base.usn_journal_id,
        first_usn: base.first_usn,
        next_usn: base.next_usn,
        lowest_valid_usn: base.lowest_valid_usn,
        max_usn: base.max_usn,
        maximum_size: base.maximum_size,
        allocation_delta: base.allocation_delta,
        min_supported_major_version: spec_u16_from_le_bytes(b.subrange(56, 58)),
        max_supported_major_version: spec_u16_from_le_bytes(b.subrange(58, 60)),
    }
}

/// The current layout's fields at their on-disk offsets in `b`.
pub open spec fn spec_journal_data_v2(b: Seq<u8>) -> UsnJournalDataV2 {
    let base = spec_journal_data_v1(b);
    UsnJournalDataV2 {
        usn_journal_id: base.usn_journal_id,
        first_usn: base.first_usn,
        next_usn: base.next_usn,
        lowest_valid_usn: base.lowest_valid_usn,
        max_usn: base.max_usn,
        maximum_size: base.maximum_size,
        allocation_delta: base.allocation_delta,
        min_supported_major_version: base.min_supported_major_version,
        max_supported_major_version: base.max_supported_major_version,
        flags: spec_u32_from_le_bytes(b.subrange(60, 64)),
        range_track_chunk_size: spec_u64_from_le_bytes(b.subrange(64, 72)),
        range_track_file_size_threshold: spec_u64_from_le_bytes(b.subrange(72, 80)) as i64,
    }
}

/// The baseline layout held in `b`, decoded field by field, or `None` when
/// too few bytes came back for it.
pub fn journal_data_v0_from_bytes(b: &[u8]) -> (r: Option<UsnJournalDataV0>)
    ensures
        b@.len() < JOURNAL_DATA_V0_SIZE ==> r is None,
        b@.len() >= JOURNAL_DATA_V0_SIZE ==> r == Some(spec_journal_data_v0(b@)),
{
    if b.len() < JOURNAL_DATA_V0_SIZE {
        return None;
    }
    Some(UsnJournalDataV0 {
        usn_journal_id: u64_from_le_bytes(slice_subrange(b, 0, 8)),
        first_usn: #[verifier::truncate] (u64_from_le_bytes(slice_subrange(b, 8, 16)) as i64),
        next_usn: #[verifier::truncate] (u64_from_le_bytes(slice_subrange(b, 16, 24)) as i64),
        lowest_valid_usn: #[verifier::truncate] (u64_from_le_bytes(slice_subrange(b, 24, 32))
            as i64),
        max_usn: #[verifier::truncate] (u64_from_le_bytes(slice_subrange(b, 32, 40)) as i64),
        maximum_size: u64_from_le_bytes(slice_subrange(b, 40, 48)),
        allocation_delta: u64_from_le_bytes(slice_subrange(b, 48, 56)),
    })
}

/// The intermediate layout held in `b`, decoded field by field, or `None`
/// when too few bytes came back for it.
pub fn journal_data_v1_from_bytes(b: &[u8]) -> (r: Option<UsnJournalDataV1>)
    ensures
        b@.len() < JOURNAL_DATA_V1_SIZE ==> r is None,
        b@.len() >= JOURNAL_DATA_V1_SIZE ==> r == Some(spec_journal_data_v1(b@)),
{
    if b.len() < JOURNAL_DATA_V1_SIZE {
        return None;
    }
    let base = match journal_data_v0_from_bytes(b) {
        Some(base) => base,
        None => {
            return None;
        },
    };
    Some(UsnJournalDataV1 {
        usn_journal_id: base.usn_journal_id,
        first_usn: base.first_usn,
        next_usn: base.next_usn,
        lowest_valid_usn: base.lowest_valid_usn,
        max_usn: base.max_usn,
        maximum_size: base.maximum_size,
        allocation_delta: base.allocation_delta,
        min_supported_major_version: u16_from_le_bytes(slice_subrange(b, 56, 58)),
        max_supported_major_version: u16_from_le_bytes(slice_subrange(b, 58, 60)),
    })
}

/// The current layout held in `b`, decoded field by field, or `None` when
/// too few bytes came back for it.
pub fn journal_data_v2_from_bytes(b: &[u8]) -> (r: Option<UsnJournalDataV2>)
    ensures
        b@.len() < JOURNAL_DATA_V2_SIZE ==> r is None,
        b@.len() >= JOURNAL_DATA_V2_SIZE ==> r == Some(spec_journal_data_v2(b@)),
{
    if b.len() < JOURNAL_DATA_V2_SIZE {
        return None;
    }
    let base = match journal_data_v1_from_bytes(b) {
        Some(base) => base,
        None => {
            return None;
        },
    };
    Some(UsnJournalDataV2 {
        usn_journal_id: base.usn_journal_id,
        first_usn: base.first_usn,
        next_usn: base.next_usn,
        lowest_valid_usn: base.lowest_valid_usn,
        max_usn: base.max_usn,
        maximum_size: base.maximum_size,
        allocation_delta: base.allocation_delta,
        min_supported_major_version: base.min_supported_major_version,
        max_supported_major_version: base.max_supported_major_version,
        flags: u32_from_le_bytes(slice_subrange(b, 60, 64)),
        range_track_chunk_size: u64_from_le_bytes(slice_subrange(b, 64, 72)),
        range_track_file_size_threshold: #[verifier::truncate] (u64_from_le_bytes(
            slice_subrange(b, 72, 80),
        ) as i64),
    })
}

/// The bytes of the bounded-read request: the resume sequence number, the
/// all-ones reason mask, the zeroed close/timeout/wait parameters, and the
/// journal identity, laid out as the read control call expects them.
pub fn read_request_bytes(start_usn: i64, usn_journal_id: u64) -> (r: Vec<u8>)
    ensures
        r@.len() == 40,
        r@.subrange(0, 8) == spec_u64_to_le_bytes(start_usn as u64),
        forall|i: int| 8 <= i < 12 ==> r@[i] == 0xff,
        forall|i: int| 12 <= i < 32 ==> r@[i] == 0,
        r@.subrange(32, 40) == spec_u64_to_le_bytes(usn_journal_id),
{
    let mut out = u64_to_le_bytes(#[verifier::truncate] (start_usn as u64));
    let mut mask: Vec<u8> = vec![0xff; 4];
    let mut reserved: Vec<u8> = vec![0; 20];
    let mut id = u64_to_le_bytes(usn_journal_id);
    out.append(&mut mask);
    out.append(&mut reserved);
    out.append(&mut id);
    proof {
        assert(out@.subrange(0, 8) =~= spec_u64_to_le_bytes(start_usn as u64));
        assert(out@.subrange(32, 40) =~= spec_u64_to_le_bytes(usn_journal_id));
    }
    out
}

/// The journal of one volume as the operating system exposes it. The
/// privileged device-control calls themselves (querying, reading, creating
/// and deleting the journal) need the journal device channel and live
/// outside this library; this type carries the volume they act on.
pub struct WindowsUsnJournal<'a> {
    pub handle: &'a VolumeHandle,
}

impl<'a> WindowsUsnJournal<'a> {
    pub fn new(volume: &'a VolumeHandle) -> (r: Self)
        ensures
            r.handle == volume,
    {
        WindowsUsnJournal { handle: volume }
    }
}

} // verus!
