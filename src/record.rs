//! The record codec: a fixed 29-byte little-endian header followed by the
//! payload, protected by a CRC-32 over the header (CRC field zeroed) and the
//! payload.
//!
//! Header layout (byte offsets):
//! `start_pos` 0..8, `msg_length` 8..12, `magic_marker` 12..16,
//! `count_pushed` 16..20, `msg_type` 20, `crc` 21..25, reserved (zero) 25..29.
use vstd::prelude::*;

verus! {

/// Size of a record header in bytes.
pub const HEADER_SIZE: usize = 29;

/// The constant that opens the marker field of every header.
pub const MAGIC_MARKER: u32 = 0xEEFE_EFEE;

/// Offset of the magic marker inside a header.
pub const MARKER_OFFSET: usize = 12;

/// Offset of the CRC field inside a header.
pub const CRC_OFFSET: usize = 21;

/// Byte that stands for [`MsgType::String`] on disk.
pub const MSG_TYPE_STRING: u8 = 83;

/// Byte that stands for [`MsgType::Object`] on disk.
pub const MSG_TYPE_OBJECT: u8 = 79;

/// The kind of a payload; carried through to the reader unchanged.
#[derive(PartialEq, Eq, Structural, Clone, Copy, Debug)]
pub enum MsgType {
    String,
    Object,
}

/// How a queue or a consumer handle is opened.
#[derive(PartialEq, Eq, Structural, Clone, Copy, Debug)]
pub enum Mode {
    Read,
    ReadWrite,
}

/// The closed set of errors of every component.
#[derive(PartialEq, Eq, Structural, Clone, Copy, Debug)]
pub enum ErrorQueue {
    NotReady,
    AlreadyOpen,
    FailOpen,
    FailRead,
    FailWrite,
    FailReadTailMessage,
    NotReadHeader,
    InvalidHeader,
    InvalidChecksum,
    NeedResync,
    NotFound,
}

impl ErrorQueue {
    /// A short human-readable description of the error.
    pub fn as_str(&self) -> (r: &'static str) {
        match self {
            ErrorQueue::NotReady => "Not ready",
            ErrorQueue::AlreadyOpen => "Already open",
            ErrorQueue::FailOpen => "Fail open",
            ErrorQueue::FailRead => "Fail read",
            ErrorQueue::FailWrite => "Fail write",
            ErrorQueue::FailReadTailMessage => "Fail read tail message",
            ErrorQueue::NotReadHeader => "Fail read header",
            ErrorQueue::InvalidHeader => "Invalid header",
            ErrorQueue::InvalidChecksum => "Invalid checksum",
            ErrorQueue::NeedResync => "Need resync",
            ErrorQueue::NotFound => "Not found",
        }
    }
}

pub open spec fn msg_type_byte(t: MsgType) -> u8 {
    match t {
        MsgType::String => MSG_TYPE_STRING,
        MsgType::Object => MSG_TYPE_OBJECT,
    }
}

pub open spec fn msg_type_of_byte(b: u8) -> MsgType {
    if b == MSG_TYPE_OBJECT {
        MsgType::Object
    } else {
        MsgType::String
    }
}

impl MsgType {
    /// The byte written for this type.
    pub fn to_u8(&self) -> (r: u8)
        ensures
            r == msg_type_byte(*self),
    {
        match self {
            MsgType::String => MSG_TYPE_STRING,
            MsgType::Object => MSG_TYPE_OBJECT,
        }
    }

    /// The type read back from a byte; an unknown byte reads as `String`.
    pub fn from_u8(b: u8) -> (r: MsgType)
        ensures
            r == msg_type_of_byte(b),
    {
        if b == MSG_TYPE_OBJECT {
            MsgType::Object
        } else {
            MsgType::String
        }
    }
}

/// The value of the 4 little-endian bytes of `s` at `off`.
pub open spec fn le_u32_at(s: Seq<u8>, off: int) -> int {
    s[off] as int + 256 * s[off + 1] as int + 65536 * s[off + 2] as int + 16777216 * s[off + 3] as int
}

/// The value of the 8 little-endian bytes of `s` at `off`.
pub open spec fn le_u64_at(s: Seq<u8>, off: int) -> int {
    le_u32_at(s, off) + 4294967296 * le_u32_at(s, off + 4)
}

/// A decoded record header.
#[derive(PartialEq, Eq, Structural, Clone, Copy, Debug)]
pub struct Header {
    pub start_pos: u64,
    pub msg_length: u32,
    pub magic_marker: u32,
    pub count_pushed: u32,
    pub msg_type: MsgType,
    pub crc: u32,
}

/// `s` is exactly the 29 header bytes that encode `h`.
pub open spec fn header_layout(s: Seq<u8>, h: Header) -> bool {
    &&& s.len() == HEADER_SIZE
    &&& le_u64_at(s, 0) == h.start_pos
    &&& le_u32_at(s, 8) == h.msg_length
    &&& le_u32_at(s, 12) == h.magic_marker
    &&& le_u32_at(s, 16) == h.count_pushed
    &&& s[20] == msg_type_byte(h.msg_type)
    &&& le_u32_at(s, 21) == h.crc
    &&& forall|i: int| 25 <= i < 29 ==> s[i] == 0
}

/// The header that 29 bytes decode to (fields read as they stand; no check).
pub open spec fn header_of(s: Seq<u8>) -> Header {
    Header {
        start_pos: le_u64_at(s, 0) as u64,
        msg_length: le_u32_at(s, 8) as u32,
        magic_marker: le_u32_at(s, 12) as u32,
        count_pushed: le_u32_at(s, 16) as u32,
        msg_type: msg_type_of_byte(s[20]),
        crc: le_u32_at(s, 21) as u32,
    }
}

/// Header bytes with the CRC field set to zero.
pub open spec fn zero_crc_field(s: Seq<u8>) -> Seq<u8> {
    s.update(21, 0).update(22, 0).update(23, 0).update(24, 0)
}

/// The bytes over which a record's CRC is computed.
pub open spec fn crc_input(hdr: Seq<u8>, payload: Seq<u8>) -> Seq<u8> {
    zero_crc_field(hdr) + payload
}

/// The CRC-32 (IEEE) of a byte sequence.
pub uninterp spec fn crc32_of(data: Seq<u8>) -> u32;

/// Relies on `crc32fast::hash`: the CRC-32 (IEEE) of the bytes, a function of
/// the bytes alone.
#[verifier::external_body]
pub(crate) fn crc32(data: &[u8]) -> (r: u32)
    ensures
        r == crc32_of(data@),
{
    crc32fast::hash(data)
}

/// A header and payload form an intact record: the stored CRC matches.
pub open spec fn record_intact(hdr: Seq<u8>, payload: Seq<u8>) -> bool {
    hdr.len() == HEADER_SIZE && le_u32_at(hdr, 21) == crc32_of(crc_input(hdr, payload))
}

/// The header of the record written at `start_pos` as the `count_pushed`-th
/// of its part, before its CRC is known.
pub open spec fn header_before_crc(msg_type: MsgType, start_pos: u64, count_pushed: u32, len: u32) -> Header {
    Header { start_pos, msg_length: len, magic_marker: MAGIC_MARKER, count_pushed, msg_type, crc: 0 }
}

fn push_u32_le(out: &mut Vec<u8>, v: u32)
    ensures
        final(out)@.len() == old(out)@.len() + 4,
        final(out)@.subrange(0, old(out)@.len() as int) == old(out)@,
        le_u32_at(final(out)@, old(out)@.len() as int) == v,
{
    let b0 = v % 256;
    let r1 = v / 256;
    let b1 = r1 % 256;
    let r2 = r1 / 256;
    let b2 = r2 % 256;
    let b3 = r2 / 256;
    let ghost n = out@.len() as int;
    out.push(b0 as u8);
    out.push(b1 as u8);
    out.push(b2 as u8);
    out.push(b3 as u8);
    assert(out@[n] == b0 && out@[n + 1] == b1 && out@[n + 2] == b2 && out@[n + 3] == b3);
}

fn push_u64_le(out: &mut Vec<u8>, v: u64)
    ensures
        final(out)@.len() == old(out)@.len() + 8,
        final(out)@.subrange(0, old(out)@.len() as int) == old(out)@,
        le_u64_at(final(out)@, old(out)@.len() as int) == v,
{
    let lo = (v % 4294967296) as u32;
    let hi = (v / 4294967296) as u32;
    let ghost n = out@.len() as int;
    push_u32_le(out, lo);
    let ghost mid = out@;
    push_u32_le(out, hi);
    assert(out@.subrange(0, n + 4) =~= mid.subrange(0, n + 4));
    assert(forall|i: int| 0 <= i < n + 4 ==> out@[i] == mid[i]);
}

fn read_u32_le(s: &[u8], off: usize) -> (r: u32)
    requires
        off + 4 <= s@.len(),
    ensures
        r == le_u32_at(s@, off as int),
{
    let v: u64 = s[off] as u64 + 256 * (s[off + 1] as u64) + 65536 * (s[off + 2] as u64) + 16777216 * (
    s[off + 3] as u64);
    v as u32
}

fn read_u64_le(s: &[u8], off: usize) -> (r: u64)
    requires
        off + 8 <= s@.len(),
        off <= HEADER_SIZE,
    ensures
        r == le_u64_at(s@, off as int),
{
    let lo = read_u32_le(s, off) as u64;
    let hi = read_u32_le(s, off + 4) as u64;
    lo + 4294967296 * hi
}

impl Header {
    /// Decode the first 29 bytes of `buf` into a header, without checking
    /// the marker or the CRC.
    pub fn create_from_buf(buf: &[u8]) -> (r: Header)
        requires
            buf@.len() >= HEADER_SIZE,
        ensures
            r == header_of(buf@),
    {
        Header {
            start_pos: read_u64_le(buf, 0),
            msg_length: read_u32_le(buf, 8),
            magic_marker: read_u32_le(buf, 12),
            count_pushed: read_u32_le(buf, 16),
            msg_type: MsgType::from_u8(buf[20]),
            crc: read_u32_le(buf, 21),
        }
    }

    /// The 29 bytes that encode this header.
    pub fn to_bytes(&self) -> (r: Vec<u8>)
        ensures
            header_layout(r@, *self),
    {
        let mut out: Vec<u8> = Vec::new();
        push_u64_le(&mut out, self.start_pos);
        let ghost s1 = out@;
        push_u32_le(&mut out, self.msg_length);
        let ghost s2 = out@;
        push_u32_le(&mut out, self.magic_marker);
        let ghost s3 = out@;
        push_u32_le(&mut out, self.count_pushed);
        let ghost s4 = out@;
        out.push(self.msg_type.to_u8());
        let ghost s5 = out@;
        push_u32_le(&mut out, self.crc);
        let ghost s6 = out@;
        out.push(0);
        out.push(0);
        out.push(0);
        out.push(0);
        assert(forall|i: int| 0 <= i < 25 ==> out@[i] == s6[i]);
        assert(forall|i: int| 0 <= i < 21 ==> s6[i] == s5[i]);
        assert(forall|i: int| 0 <= i < 20 ==> s5[i] == s4[i]);
        assert(forall|i: int| 0 <= i < 16 ==> s4[i] == s3[i]);
        assert(forall|i: int| 0 <= i < 12 ==> s3[i] == s2[i]);
        assert(forall|i: int| 0 <= i < 8 ==> s2[i] == s1[i]);
        out
    }
}

fn set_crc_field(out: &mut Vec<u8>, v: u32)
    requires
        CRC_OFFSET + 4 <= old(out)@.len(),
    ensures
        final(out)@.len() == old(out)@.len(),
        le_u32_at(final(out)@, CRC_OFFSET as int) == v,
        forall|i: int|
            0 <= i < old(out)@.len() && !(CRC_OFFSET <= i < CRC_OFFSET + 4) ==> final(out)@[i] == old(out)@[i],
{
    let b0 = v % 256;
    let r1 = v / 256;
    let b1 = r1 % 256;
    let r2 = r1 / 256;
    let b2 = r2 % 256;
    let b3 = r2 / 256;
    out.set(CRC_OFFSET, b0 as u8);
    out.set(CRC_OFFSET + 1, b1 as u8);
    out.set(CRC_OFFSET + 2, b2 as u8);
    out.set(CRC_OFFSET + 3, b3 as u8);
}

/// Decoding the bytes that encode a header gives that header back.
pub proof fn lemma_header_round_trip(s: Seq<u8>, h: Header)
    requires
        header_layout(s, h),
    ensures
        header_of(s) == h,
{
    assert(msg_type_of_byte(msg_type_byte(h.msg_type)) == h.msg_type);
}

/// The full bytes of the record carrying `payload`, written at `start_pos` as
/// the `count_pushed`-th record of its part: the header (magic marker set, CRC
/// over the zeroed header and the payload) followed by the payload.
pub fn encode_record(msg_type: MsgType, start_pos: u64, count_pushed: u32, payload: &[u8]) -> (r: Vec<u8>)
    requires
        payload@.len() <= u32::MAX,
        HEADER_SIZE + payload@.len() <= usize::MAX,
    ensures
        r@.len() == HEADER_SIZE + payload@.len(),
        r@.subrange(HEADER_SIZE as int, r@.len() as int) == payload@,
        header_layout(
            r@.subrange(0, HEADER_SIZE as int),
            Header {
                crc: crc32_of(crc_input(r@.subrange(0, HEADER_SIZE as int), payload@)),
                ..header_before_crc(msg_type, start_pos, count_pushed, payload@.len() as u32)
            },
        ),
{
    let h0 = Header {
        start_pos,
        msg_length: payload.len() as u32,
        magic_marker: MAGIC_MARKER,
        count_pushed,
        msg_type,
        crc: 0,
    };
    let mut out = h0.to_bytes();
    let ghost hdr0 = out@;
    let mut i: usize = 0;
    while i < payload.len()
        invariant
            out@.len() == HEADER_SIZE + i,
            i <= payload@.len(),
            HEADER_SIZE + payload@.len() <= usize::MAX,
            out@ == hdr0 + payload@.subrange(0, i as int),
        decreases payload@.len() - i,
    {
        out.push(payload[i]);
        i = i + 1;
        assert(out@ =~= hdr0 + payload@.subrange(0, i as int));
    }
    assert(payload@.subrange(0, payload@.len() as int) =~= payload@);
    let ghost whole0 = out@;
    let crc = crc32(out.as_slice());
    set_crc_field(&mut out, crc);
    proof {
        let hdr = out@.subrange(0, HEADER_SIZE as int);
        assert(hdr0[21] == 0 && hdr0[22] == 0 && hdr0[23] == 0 && hdr0[24] == 0);
        assert(zero_crc_field(hdr) =~= hdr0);
        assert(crc_input(hdr, payload@) =~= whole0);
        assert(out@.subrange(HEADER_SIZE as int, out@.len() as int) =~= payload@);
    }
    out
}

/// A record as `encode_record` frames it reads back: its header decodes to
/// the fields it was written with, and the CRC check accepts it with its
/// payload.
pub proof fn lemma_record_round_trip(
    r: Seq<u8>,
    payload: Seq<u8>,
    msg_type: MsgType,
    start_pos: u64,
    count_pushed: u32,
)
    requires
        r.len() == HEADER_SIZE + payload.len(),
        payload.len() <= u32::MAX,
        r.subrange(HEADER_SIZE as int, r.len() as int) == payload,
        header_layout(
            r.subrange(0, HEADER_SIZE as int),
            Header {
                crc: crc32_of(crc_input(r.subrange(0, HEADER_SIZE as int), payload)),
                ..header_before_crc(msg_type, start_pos, count_pushed, payload.len() as u32)
            },
        ),
    ensures
        header_of(r.subrange(0, HEADER_SIZE as int)) == (Header {
            crc: crc32_of(crc_input(r.subrange(0, HEADER_SIZE as int), payload)),
            ..header_before_crc(msg_type, start_pos, count_pushed, payload.len() as u32)
        }),
        record_intact(r.subrange(0, HEADER_SIZE as int), r.subrange(HEADER_SIZE as int, r.len() as int)),
{
    let hdr = r.subrange(0, HEADER_SIZE as int);
    lemma_header_round_trip(
        hdr,
        Header {
            crc: crc32_of(crc_input(hdr, payload)),
            ..header_before_crc(msg_type, start_pos, count_pushed, payload.len() as u32)
        },
    );
}

/// Whether `hdr` (29 header bytes) and `payload` form an intact record.
pub fn check_record(hdr: &[u8], payload: &[u8]) -> (r: bool)
    requires
        hdr@.len() == HEADER_SIZE,
        HEADER_SIZE + payload@.len() <= usize::MAX,
    ensures
        r == record_intact(hdr@, payload@),
{
    let mut buf = zeroed_header(hdr);
    let ghost z = buf@;
    let mut i: usize = 0;
    while i < payload.len()
        invariant
            buf@.len() == HEADER_SIZE + i,
            i <= payload@.len(),
            HEADER_SIZE + payload@.len() <= usize::MAX,
            buf@ == z + payload@.subrange(0, i as int),
        decreases payload@.len() - i,
    {
        buf.push(payload[i]);
        i = i + 1;
        assert(buf@ =~= z + payload@.subrange(0, i as int));
    }
    assert(payload@.subrange(0, payload@.len() as int) =~= payload@);
    let crc = crc32(buf.as_slice());
    crc == read_u32_le(hdr, CRC_OFFSET)
}

/// A copy of the 29 header bytes with the CRC field zeroed.
pub fn zeroed_header(hdr: &[u8]) -> (r: Vec<u8>)
    requires
        hdr@.len() == HEADER_SIZE,
    ensures
        r@ == zero_crc_field(hdr@),
{
    let mut out: Vec<u8> = Vec::new();
    let mut i: usize = 0;
    while i < HEADER_SIZE
        invariant
            i <= HEADER_SIZE,
            hdr@.len() == HEADER_SIZE,
            out@ == zero_crc_field(hdr@).subrange(0, i as int),
        decreases HEADER_SIZE - i,
    {
        if CRC_OFFSET <= i && i < CRC_OFFSET + 4 {
            out.push(0);
        } else {
            out.push(hdr[i]);
        }
        i = i + 1;
        assert(out@ =~= zero_crc_field(hdr@).subrange(0, i as int));
    }
    assert(zero_crc_field(hdr@).subrange(0, HEADER_SIZE as int) =~= zero_crc_field(hdr@));
    out
}

} // verus!
