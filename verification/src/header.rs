//! The on-disk descriptor of a log instance.

use vstd::prelude::*;

use crate::codec::{
    be_u32_at, be_u32_bytes, be_u32_int, be_u64_at, be_u64_bytes, be_u64_int,
    lemma_be_u32_round_trip, lemma_be_u64_round_trip, push_be_u32, push_be_u64,
};
use crate::error::Error;
use crate::index::LogIndex;

verus! {

/// Byte signature that opens every log file of this format: "MLOG".
pub const MAGIC: u32 = 0x4d4c4f47;

/// The one supported format version.
pub const VERSION: u8 = 1;

/// Size of the serialized header in bytes.
pub const HEADER_BYTES: usize = 32;

/// The fixed-size binary descriptor at the start of a log file: the log's
/// total capacity and the logical bounds of its live data.
///
/// `start` marks the oldest live entry and `end` one past the newest; a log
/// with no entries has `start == end`. Both bounds carry the header's own
/// capacity, so each can compute the physical slot of the entry it marks.
///
/// The wire layout is fixed and big-endian: a 4-byte magic, a 4-byte
/// version, then capacity, start and end as 8-byte fields — 32 bytes in
/// all. Magic and version are checked strictly on parse; there is no
/// compatibility logic for other versions.
#[derive(Clone, Copy, Debug)]
pub struct Header {
    /// Total physical slot count of the log.
    pub len: u64,
    /// Logical position of the oldest live entry.
    pub start: LogIndex,
    /// Logical position one past the newest live entry.
    pub end: LogIndex,
}

impl Header {
    /// Well-formedness: both bounds carry this header's capacity, and the
    /// start bound does not pass the end bound.
    pub open spec fn wf(self) -> bool {
        &&& self.start.len == self.len
        &&& self.end.len == self.len
        &&& self.start.idx <= self.end.idx
    }

    /// What parsing a byte source yields, decided field by field in wire
    /// order: a source too short for the next field fails with
    /// `ReadHeader`; a wrong signature with `InvalidMagic`; a wrong version
    /// with `InvalidVersion`; otherwise the header described by the bytes,
    /// its bounds carrying the parsed capacity.
    pub open spec fn parse_spec(s: Seq<u8>) -> Result<Header, Error> {
        if s.len() < 4 {
            Err(Error::ReadHeader)
        } else if be_u32_int(s.subrange(0, 4)) != MAGIC {
            Err(Error::InvalidMagic)
        } else if s.len() < 8 {
            Err(Error::ReadHeader)
        } else if be_u32_int(s.subrange(4, 8)) != VERSION {
            Err(Error::InvalidVersion)
        } else if s.len() < HEADER_BYTES {
            Err(Error::ReadHeader)
        } else {
            Ok(Header {
                len: be_u64_int(s.subrange(8, 16)) as u64,
                start: LogIndex {
                    idx: be_u64_int(s.subrange(16, 24)) as u64,
                    len: be_u64_int(s.subrange(8, 16)) as u64,
                },
                end: LogIndex {
                    idx: be_u64_int(s.subrange(24, 32)) as u64,
                    len: be_u64_int(s.subrange(8, 16)) as u64,
                },
            })
        }
    }

    /// The exact 32 bytes that `to_bytes` emits for this header.
    pub open spec fn spec_bytes(self) -> Seq<u8> {
        be_u32_bytes(MAGIC) + be_u32_bytes(VERSION as u32) + be_u64_bytes(self.len)
            + be_u64_bytes(self.start.idx) + be_u64_bytes(self.end.idx)
    }

    /// Parses a header from the leading bytes of `bytes`.
    pub fn parse(bytes: &[u8]) -> (r: Result<Header, Error>)
        ensures
            r == Self::parse_spec(bytes@),
    {
        if bytes.len() < 4 {
            return Err(Error::ReadHeader);
        }
        let magic = be_u32_at(bytes, 0);
        if magic != MAGIC {
            return Err(Error::InvalidMagic);
        }
        if bytes.len() < 8 {
            return Err(Error::ReadHeader);
        }
        let version = be_u32_at(bytes, 4);
        if version != VERSION as u32 {
            return Err(Error::InvalidVersion);
        }
        if bytes.len() < HEADER_BYTES {
            return Err(Error::ReadHeader);
        }
        let len = be_u64_at(bytes, 8);
        let start_idx = be_u64_at(bytes, 16);
        let end_idx = be_u64_at(bytes, 24);
        let start = LogIndex { idx: start_idx, len };
        let end = LogIndex { idx: end_idx, len };
        Ok(Header { len, start, end })
    }

    /// Serializes the header: the complete fixed wire layout in one pass,
    /// magic and version first, then capacity and the two logical bounds.
    pub fn to_bytes(&self) -> (r: Vec<u8>)
        ensures
            r@ == self.spec_bytes(),
            r@.len() == HEADER_BYTES,
    {
        let mut out: Vec<u8> = Vec::new();
        push_be_u32(&mut out, MAGIC);
        push_be_u32(&mut out, VERSION as u32);
        push_be_u64(&mut out, self.len);
        push_be_u64(&mut out, self.start.logical());
        push_be_u64(&mut out, self.end.logical());
        proof {
            assert(out@ =~= self.spec_bytes());
        }
        out
    }
}

impl PartialEq for Header {
    /// Headers are equal when the capacities agree and both bounds agree
    /// by logical position — the capacities carried inside the bounds are
    /// not compared, as index equality ignores them.
    fn eq(&self, other: &Self) -> (r: bool)
        ensures
            r == (self.len == other.len && self.start.idx == other.start.idx
                && self.end.idx == other.end.idx),
    {
        self.len == other.len && self.start == other.start && self.end == other.end
    }
}

impl vstd::std_specs::cmp::PartialEqSpecImpl for Header {
    open spec fn obeys_eq_spec() -> bool {
        true
    }

    open spec fn eq_spec(&self, other: &Header) -> bool {
        self.len == other.len && self.start.idx == other.start.idx
            && self.end.idx == other.end.idx
    }
}

/// Each field of a serialized header reads back as the value it was written
/// from.
proof fn lemma_spec_bytes_fields(h: Header)
    ensures
        h.spec_bytes().len() == HEADER_BYTES,
        be_u32_int(h.spec_bytes().subrange(0, 4)) == MAGIC,
        be_u32_int(h.spec_bytes().subrange(4, 8)) == VERSION,
        be_u64_int(h.spec_bytes().subrange(8, 16)) == h.len,
        be_u64_int(h.spec_bytes().subrange(16, 24)) == h.start.idx,
        be_u64_int(h.spec_bytes().subrange(24, 32)) == h.end.idx,
{
    let s = h.spec_bytes();
    assert(s.subrange(0, 4) =~= be_u32_bytes(MAGIC));
    assert(s.subrange(4, 8) =~= be_u32_bytes(VERSION as u32));
    assert(s.subrange(8, 16) =~= be_u64_bytes(h.len));
    assert(s.subrange(16, 24) =~= be_u64_bytes(h.start.idx));
    assert(s.subrange(24, 32) =~= be_u64_bytes(h.end.idx));
    lemma_be_u32_round_trip(MAGIC);
    lemma_be_u32_round_trip(VERSION as u32);
    lemma_be_u64_round_trip(h.len);
    lemma_be_u64_round_trip(h.start.idx);
    lemma_be_u64_round_trip(h.end.idx);
}

/// Round trip: a well-formed header written to bytes parses back to the
/// same header — same capacity, and bounds equal in logical position.
pub proof fn lemma_header_round_trip(h: Header)
    requires
        h.wf(),
    ensures
        Header::parse_spec(h.spec_bytes()) == Ok::<Header, Error>(h),
{
    lemma_spec_bytes_fields(h);
    let s = h.spec_bytes();
    let parsed = Header::parse_spec(s);
    assert(parsed->Ok_0 == h);
}

} // verus!
