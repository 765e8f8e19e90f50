use vstd::prelude::*;
use vstd::bytes::{
    spec_u16_from_le_bytes, spec_u32_from_le_bytes, spec_u64_from_le_bytes, u16_from_le_bytes,
    u32_from_le_bytes, u64_from_le_bytes,
};
use vstd::slice::{slice_subrange, slice_to_vec};
use crate::error::UsnError;
use crate::raw::usn_journal_wrapper::RawRecords;
use crate::usn_record::{Record, RecordView};
use crate::windows_string::{u16_units_to_string_lossy, utf16_lossy};

verus! {

/// The slice boundaries of the records inside a raw buffer: starting right
/// after the 8-byte leading field written by the read operation, each
/// record's offset and self-declared length, chained until fewer than nine
/// bytes remain. `None` when a declared length is zero or larger than the
/// remaining bytes: walking such a buffer must stop rather than loop or
/// over-read.
pub open spec fn walk_from(b: Seq<u8>, valid: int, offset: int) -> Option<Seq<(int, int)>>
    decreases valid - offset,
{
    if valid - offset <= 8 {
        Some(Seq::empty())
    } else {
        let l = spec_u32_from_le_bytes(b.subrange(offset, offset + 4)) as int;
        if l == 0 || l > valid - offset {
            None
        } else {
            match walk_from(b, valid, offset + l) {
                Option::None => Option::None,
                Option::Some(rest) => Option::Some(seq![(offset, l)] + rest),
            }
        }
    }
}

/// The record slices of a whole buffer whose first `valid` bytes are
/// meaningful: the walk starts after the 8-byte leading field.
pub open spec fn walk(b: Seq<u8>, valid: int) -> Option<Seq<(int, int)>> {
    walk_from(b, valid, 8)
}

/// One record layout from the closed set of on-disk versions: it reports its
/// self-declared byte length, decodes from the bytes of one record, and
/// normalizes into the canonical record shape.
pub trait RawUsnRecord: View + Sized {
    /// The value this layout decodes to from the bytes of one record.
    spec fn decode_spec(b: Seq<u8>) -> Self::V;

    /// The record's self-declared byte length.
    spec fn declared_len(v: Self::V) -> u32;

    /// The canonical record a decoded value normalizes to.
    spec fn normalize_spec(v: Self::V) -> RecordView;

    fn len(&self) -> (r: u32)
        ensures
            r == Self::declared_len(self@),
    ;

    /// Decode the record held in `buf` at `offset` with `len` bytes.
    fn decode(buf: &Vec<u8>, offset: usize, len: usize) -> (r: Self)
        requires
            offset + len <= buf@.len(),
        ensures
            r@ == Self::decode_spec(buf@.subrange(offset as int, offset + len)),
    ;

    /// The canonical record for this raw record.
    fn normalize(&self) -> (r: Record)
        ensures
            r@ == Self::normalize_spec(self@),
    ;
}

/// Walking a raw buffer into its records.
pub trait Parser: Sized {
    /// The raw bytes being walked.
    spec fn buffer(self) -> Seq<u8>;

    /// The count of meaningful bytes in the buffer.
    spec fn valid_length(self) -> int;

    /// The records of the buffer under layout `R`, in on-disk order, or
    /// `MalformedBuffer` when a record's self-declared length is zero or
    /// overruns the meaningful bytes (or those bytes overrun the buffer).
    fn parse<R: RawUsnRecord>(self) -> (res: Result<Vec<R>, UsnError>)
        ensures
            self.valid_length() > self.buffer().len() ==> (res matches Err(e)
                && e == UsnError::MalformedBuffer),
            self.valid_length() <= self.buffer().len() ==> match walk(
                self.buffer(),
                self.valid_length(),
            ) {
                Option::Some(slices) => res matches Ok(v) && v@.len() == slices.len()
                    && (forall|i: int|
                    0 <= i < slices.len() ==> (#[trigger] v@[i])@ == R::decode_spec(
                        self.buffer().subrange(slices[i].0, slices[i].0 + slices[i].1),
                    )),
                Option::None => res matches Err(e) && e == UsnError::MalformedBuffer,
            },
    ;
}

impl Parser for RawRecords {
    open spec fn buffer(self) -> Seq<u8> {
        self.raw@
    }

    open spec fn valid_length(self) -> int {
        self.len as int
    }

    fn parse<R: RawUsnRecord>(self) -> (res: Result<Vec<R>, UsnError>) {
        let valid: usize = self.len as usize;
        if valid > self.raw.len() {
            return Err(UsnError::MalformedBuffer);
        }
        let mut records: Vec<R> = Vec::new();
        let ghost mut done: Seq<(int, int)> = Seq::empty();
        let mut offset: usize = 8;
        if valid <= 8 {
            proof {
                assert(walk(self.raw@, valid as int) == Some(Seq::<(int, int)>::empty()));
            }
            return Ok(records);
        }
        while valid - offset > 8
            invariant
                8 <= offset <= valid <= self.raw@.len(),
                valid == self.len as int,
                records@.len() == done.len(),
                forall|i: int|
                    0 <= i < done.len() ==> (#[trigger] records@[i])@ == R::decode_spec(
                        self.raw@.subrange(done[i].0, done[i].0 + done[i].1),
                    ),
                match walk_from(self.raw@, valid as int, offset as int) {
                    Option::Some(rest) => walk(self.raw@, valid as int) == Some(done + rest),
                    Option::None => walk(self.raw@, valid as int) is None,
                },
            decreases valid - offset,
        {
            let l_raw = u32_from_le_bytes(slice_subrange(self.raw.as_slice(), offset, offset + 4));
            let l = l_raw as usize;
            if l == 0 || l > valid - offset {
                return Err(UsnError::MalformedBuffer);
            }
            let rec = R::decode(&self.raw, offset, l);
            records.push(rec);
            proof {
                let ghost prev = done;
                done = done + seq![(offset as int, l as int)];
                match walk_from(self.raw@, valid as int, (offset + l) as int) {
                    Option::Some(rest2) => {
                        assert(prev + (seq![(offset as int, l as int)] + rest2) =~= done + rest2);
                    },
                    Option::None => {},
                }
            }
            offset = offset + l;
        }
        proof {
            assert(done + Seq::<(int, int)>::empty() =~= done);
        }
        Ok(records)
    }
}

/// Where the record at position `i` starts when records carry the declared
/// lengths `lens`: the first follows the 8-byte leading field, each next one
/// follows the previous by its declared length.
pub open spec fn offset_of(lens: Seq<int>, i: int) -> int
    decreases i,
{
    if i <= 0 {
        8
    } else {
        offset_of(lens, i - 1) + lens[i - 1]
    }
}

proof fn lemma_offset_monotone(lens: Seq<int>, a: int, c: int)
    requires
        0 <= a <= c <= lens.len(),
        forall|i: int| 0 <= i < lens.len() ==> 8 < #[trigger] lens[i],
    ensures
        offset_of(lens, a) <= offset_of(lens, c),
    decreases c - a,
{
    if a < c {
        lemma_offset_monotone(lens, a, c - 1);
    }
}

/// A chain of records whose bytes declare the lengths `lens` is walked one
/// record after the other: the walk from position `k`'s offset finds exactly
/// the records `k` and onward, followed by whatever the walk finds after the
/// chain; and it is malformed exactly when the walk after the chain is.
proof fn lemma_walk_chain(b: Seq<u8>, valid: int, lens: Seq<int>, k: int)
    requires
        0 <= k <= lens.len(),
        forall|i: int| 0 <= i < lens.len() ==> 8 < #[trigger] lens[i],
        forall|i: int|
            0 <= i < lens.len() ==> spec_u32_from_le_bytes(
                b.subrange(#[trigger] offset_of(lens, i), offset_of(lens, i) + 4),
            ) as int == lens[i],
        offset_of(lens, lens.len() as int) <= valid,
    ensures
        match walk_from(b, valid, offset_of(lens, lens.len() as int)) {
            Option::Some(tail) => walk_from(b, valid, offset_of(lens, k)) matches Option::Some(s)
                && s.len() == lens.len() - k + tail.len() && (forall|i: int|
                0 <= i < lens.len() - k ==> s[i] == (offset_of(lens, k + i), lens[k + i])) && (
            forall|i: int|
                lens.len() - k <= i < s.len() ==> s[i] == tail[i - (lens.len() - k)]),
            Option::None => walk_from(b, valid, offset_of(lens, k)) is None,
        },
    decreases lens.len() - k,
{
    if k == lens.len() {
    } else {
        let off = offset_of(lens, k);
        lemma_offset_monotone(lens, k + 1, lens.len() as int);
        assert(offset_of(lens, k + 1) == off + lens[k]);
        assert(valid - off > 8);
        let l = spec_u32_from_le_bytes(b.subrange(off, off + 4)) as int;
        assert(l == lens[k]);
        lemma_walk_chain(b, valid, lens, k + 1);
        match walk_from(b, valid, offset_of(lens, lens.len() as int)) {
            Option::Some(tail) => {
                let rest = walk_from(b, valid, off + l).unwrap();
                assert(walk_from(b, valid, off) == Option::Some(seq![(off, l)] + rest));
            },
            Option::None => {},
        }
    }
}

/// Length conservation. When a buffer's records declare lengths that add up
/// with the 8-byte leading field exactly to the count of meaningful bytes,
/// the walk succeeds and finds exactly those records, one per declared
/// length, in on-disk order, each at the offset its predecessors' lengths
/// put it at — so `parse` returns exactly that many records and reads no
/// byte past the meaningful length.
pub proof fn lemma_length_conservation(b: Seq<u8>, valid: int, lens: Seq<int>)
    requires
        forall|i: int| 0 <= i < lens.len() ==> 8 < #[trigger] lens[i],
        forall|i: int|
            0 <= i < lens.len() ==> spec_u32_from_le_bytes(
                b.subrange(#[trigger] offset_of(lens, i), offset_of(lens, i) + 4),
            ) as int == lens[i],
        offset_of(lens, lens.len() as int) == valid,
    ensures
        walk(b, valid) matches Option::Some(slices) && slices.len() == lens.len() && (forall|
            i: int,
        |
            0 <= i < lens.len() ==> slices[i] == (offset_of(lens, i), #[trigger] lens[i])),
{
    lemma_walk_chain(b, valid, lens, 0);
    assert(walk_from(b, valid, valid) == Option::Some(Seq::<(int, int)>::empty()));
    assert(offset_of(lens, 0) == 8);
}

/// At `off` the buffer declares a record length that is zero or larger than
/// the meaningful bytes remaining there.
pub open spec fn declares_bad_length(b: Seq<u8>, valid: int, off: int) -> bool {
    let l = spec_u32_from_le_bytes(b.subrange(off, off + 4)) as int;
    l == 0 || l > valid - off
}

/// Malformed-length safety. When, after any chain of well-formed records,
/// more than eight meaningful bytes remain but the next record declares a
/// length of zero or one larger than those remaining bytes, the walk
/// reports the buffer malformed — so `parse` returns `MalformedBuffer`
/// there instead of looping or reading out of bounds.
pub proof fn lemma_malformed_stops(b: Seq<u8>, valid: int, lens: Seq<int>)
    requires
        forall|i: int| 0 <= i < lens.len() ==> 8 < #[trigger] lens[i],
        forall|i: int|
            0 <= i < lens.len() ==> spec_u32_from_le_bytes(
                b.subrange(#[trigger] offset_of(lens, i), offset_of(lens, i) + 4),
            ) as int == lens[i],
        valid - offset_of(lens, lens.len() as int) > 8,
        declares_bad_length(b, valid, offset_of(lens, lens.len() as int)),
    ensures
        walk(b, valid) is None,
{
    let off = offset_of(lens, lens.len() as int);
    assert(walk_from(b, valid, off) is None);
    lemma_walk_chain(b, valid, lens, 0);
    assert(offset_of(lens, 0) == 8);
}

/// The UTF-16 code units held in a byte run, two little-endian bytes per
/// unit; a trailing odd byte carries no unit.
pub open spec fn utf16_units(b: Seq<u8>) -> Seq<u16> {
    Seq::new((b.len() / 2) as nat, |i: int| (b[2 * i] + b[2 * i + 1] * 256) as u16)
}

/// The mathematical value of a decoded version-2 record.
pub struct UsnRecordV2View {
    pub record_length: u32,
    pub major_version: u16,
    pub minor_version: u16,
    pub file_reference_number: u64,
    pub parent_file_reference_number: u64,
    pub usn: i64,
    pub timestamp: i64,
    pub reason: u32,
    pub source_info: u32,
    pub security_id: u32,
    pub file_attributes: u32,
    pub file_name_length: u16,
    pub file_name_offset: u16,
    pub file_name: Seq<u8>,
}

/// A version-2 change record, decoded field by field from its bytes: the
/// 60-byte fixed header followed by the file name, a UTF-16 byte run whose
/// offset and length the header declares. A record shorter than its own
/// header decodes to the all-zero value rather than over-reading.
pub struct UsnRecordV2 {
    pub record_length: u32,
    pub major_version: u16,
    pub minor_version: u16,
    pub file_reference_number: u64,
    pub parent_file_reference_number: u64,
    pub usn: i64,
    pub timestamp: i64,
    pub reason: u32,
    pub source_info: u32,
    pub security_id: u32,
    pub file_attributes: u32,
    pub file_name_length: u16,
    pub file_name_offset: u16,
    pub file_name: Vec<u8>,
}

impl View for UsnRecordV2 {
    type V = UsnRecordV2View;

    open spec fn view(&self) -> UsnRecordV2View {
        UsnRecordV2View {
            record_length: self.record_length,
            major_version: self.major_version,
            minor_version: self.minor_version,
            file_reference_number: self.file_reference_number,
            parent_file_reference_number: self.parent_file_reference_number,
            usn: self.usn,
            timestamp: self.timestamp,
            reason: self.reason,
            source_info: self.source_info,
            security_id: self.security_id,
            file_attributes: self.file_attributes,
            file_name_length: self.file_name_length,
            file_name_offset: self.file_name_offset,
            file_name: self.file_name@,
        }
    }
}

impl RawUsnRecord for UsnRecordV2 {
    open spec fn decode_spec(b: Seq<u8>) -> UsnRecordV2View {
        if b.len() < 60 {
            UsnRecordV2View {
                record_length: 0,
                major_version: 0,
                minor_version: 0,
                file_reference_number: 0,
                parent_file_reference_number: 0,
                usn: 0,
                timestamp: 0,
                reason: 0,
                source_info: 0,
                security_id: 0,
                file_attributes: 0,
                file_name_length: 0,
                file_name_offset: 0,
                file_name: Seq::empty(),
            }
        } else {
            let fnl = spec_u16_from_le_bytes(b.subrange(56, 58));
            let fno = spec_u16_from_le_bytes(b.subrange(58, 60));
            UsnRecordV2View {
                record_length: spec_u32_from_le_bytes(b.subrange(0, 4)),
                major_version: spec_u16_from_le_bytes(b.subrange(4, 6)),
                minor_version: spec_u16_from_le_bytes(b.subrange(6, 8)),
                file_reference_number: spec_u64_from_le_bytes(b.subrange(8, 16)),
                parent_file_reference_number: spec_u64_from_le_bytes(b.subrange(16, 24)),
                usn: spec_u64_from_le_bytes(b.subrange(24, 32)) as i64,
                timestamp: spec_u64_from_le_bytes(b.subrange(32, 40)) as i64,
                reason: spec_u32_from_le_bytes(b.subrange(40, 44)),
                source_info: spec_u32_from_le_bytes(b.subrange(44, 48)),
                security_id: spec_u32_from_le_bytes(b.subrange(48, 52)),
                file_attributes: spec_u32_from_le_bytes(b.subrange(52, 56)),
                file_name_length: fnl,
                file_name_offset: fno,
                file_name: if fno + fnl <= b.len() {
                    b.subrange(fno as int, fno + fnl)
                } else {
                    Seq::empty()
                },
            }
        }
    }

    open spec fn declared_len(v: UsnRecordV2View) -> u32 {
        v.record_length
    }

    open spec fn normalize_spec(v: UsnRecordV2View) -> RecordView {
        RecordView {
            usn: v.usn,
            timestamp: v.timestamp,
            file_reference_number: v.file_reference_number,
            parent_file_reference_number: v.parent_file_reference_number,
            reason: v.reason,
            name: if v.major_version == 2 {
                utf16_lossy(utf16_units(v.file_name))
            } else {
                Seq::empty()
            },
        }
    }

    fn len(&self) -> (r: u32) {
        self.record_length
    }

    fn decode(buf: &Vec<u8>, offset: usize, len: usize) -> (r: Self) {
        let ghost b = buf@.subrange(offset as int, offset + len);
        if len < 60 {
            return UsnRecordV2 {
                record_length: 0,
                major_version: 0,
                minor_version: 0,
                file_reference_number: 0,
                parent_file_reference_number: 0,
                usn: 0,
                timestamp: 0,
                reason: 0,
                source_info: 0,
                security_id: 0,
                file_attributes: 0,
                file_name_length: 0,
                file_name_offset: 0,
                file_name: Vec::new(),
            };
        }
        let end = buf.len();
        proof {
            assert(offset + len <= end);
        }
        let s = buf.as_slice();
        proof {
            assert(buf@.subrange(offset as int, offset + 4) =~= b.subrange(0, 4));
            assert(buf@.subrange(offset + 4, offset + 6) =~= b.subrange(4, 6));
            assert(buf@.subrange(offset + 6, offset + 8) =~= b.subrange(6, 8));
            assert(buf@.subrange(offset + 8, offset + 16) =~= b.subrange(8, 16));
            assert(buf@.subrange(offset + 16, offset + 24) =~= b.subrange(16, 24));
            assert(buf@.subrange(offset + 24, offset + 32) =~= b.subrange(24, 32));
            assert(buf@.subrange(offset + 32, offset + 40) =~= b.subrange(32, 40));
            assert(buf@.subrange(offset + 40, offset + 44) =~= b.subrange(40, 44));
            assert(buf@.subrange(offset + 44, offset + 48) =~= b.subrange(44, 48));
            assert(buf@.subrange(offset + 48, offset + 52) =~= b.subrange(48, 52));
            assert(buf@.subrange(offset + 52, offset + 56) =~= b.subrange(52, 56));
            assert(buf@.subrange(offset + 56, offset + 58) =~= b.subrange(56, 58));
            assert(buf@.subrange(offset + 58, offset + 60) =~= b.subrange(58, 60));
        }
        let file_name_length = u16_from_le_bytes(slice_subrange(s, offset + 56, offset + 58));
        let file_name_offset = u16_from_le_bytes(slice_subrange(s, offset + 58, offset + 60));
        let fno = file_name_offset as usize;
        let fnl = file_name_length as usize;
        let file_name: Vec<u8> = if fno + fnl <= len {
            proof {
                assert(buf@.subrange(offset + fno, offset + fno + fnl) =~= b.subrange(
                    fno as int,
                    fno + fnl,
                ));
            }
            slice_to_vec(slice_subrange(s, offset + fno, offset + fno + fnl))
        } else {
            Vec::new()
        };
        UsnRecordV2 {
            record_length: u32_from_le_bytes(slice_subrange(s, offset, offset + 4)),
            major_version: u16_from_le_bytes(slice_subrange(s, offset + 4, offset + 6)),
            minor_version: u16_from_le_bytes(slice_subrange(s, offset + 6, offset + 8)),
            file_reference_number: u64_from_le_bytes(slice_subrange(s, offset + 8, offset + 16)),
            parent_file_reference_number: u64_from_le_bytes(
                slice_subrange(s, offset + 16, offset + 24),
            ),
            usn: #[verifier::truncate] (u64_from_le_bytes(
                slice_subrange(s, offset + 24, offset + 32),
            ) as i64),
            timestamp: #[verifier::truncate] (u64_from_le_bytes(
                slice_subrange(s, offset + 32, offset + 40),
            ) as i64),
            reason: u32_from_le_bytes(slice_subrange(s, offset + 40, offset + 44)),
            source_info: u32_from_le_bytes(slice_subrange(s, offset + 44, offset + 48)),
            security_id: u32_from_le_bytes(slice_subrange(s, offset + 48, offset + 52)),
            file_attributes: u32_from_le_bytes(slice_subrange(s, offset + 52, offset + 56)),
            file_name_length,
            file_name_offset,
            file_name,
        }
    }

    fn normalize(&self) -> (r: Record) {
        let name: String = if self.major_version == 2 {
            let m = self.file_name.len();
            let n = m / 2;
            let mut units: Vec<u16> = Vec::new();
            let mut i: usize = 0;
            while i < n
                invariant
                    0 <= i <= n,
                    m == self.file_name@.len(),
                    n == m / 2,
                    units@.len() == i,
                    forall|j: int|
                        0 <= j < i ==> units@[j] == (self.file_name@[2 * j] + self.file_name@[2 * j
                            + 1] * 256) as u16,
                decreases n - i,
            {
                let lo = self.file_name[2 * i];
                let hi = self.file_name[2 * i + 1];
                units.push(lo as u16 + (hi as u16) * 256);
                i = i + 1;
            }
            proof {
                assert(units@ =~= utf16_units(self.file_name@));
            }
            u16_units_to_string_lossy(units.as_slice())
        } else {
            String::new()
        };
        Record {
            usn: self.usn,
            timestamp: self.timestamp,
            file_reference_number: self.file_reference_number,
            parent_file_reference_number: self.parent_file_reference_number,
            reason: self.reason,
            name,
        }
    }
}

} // verus!
