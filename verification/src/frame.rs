//! The HTTP/2 frame header codec: the 9-byte big-endian header
//! `{length:24, type:8, flags:8, reserved:1, stream_id:31}`, frame types,
//! flag bits, and the small fixed-size payloads (priority, window update).

use vstd::prelude::*;

verus! {

/// Size in bytes of the fixed frame header.
pub const FRAME_HEADER_LEN: usize = 9;

/// Stream id 0: the connection itself.
pub const CONNECTION_STREAM_ID: u32 = 0;

// Flag bits, per frame type that carries them.
pub const FLAG_END_STREAM: u8 = 0x01;
pub const FLAG_ACK: u8 = 0x01;
pub const FLAG_END_HEADERS: u8 = 0x04;
pub const FLAG_PADDED: u8 = 0x08;
pub const FLAG_PRIORITY: u8 = 0x20;

/// Whether flag bit `f` is set in `flags`.
pub open spec fn has_flag(flags: u8, f: u8) -> bool {
    flags & f == f
}

/// Runtime test of a single flag bit.
pub fn flag_set(flags: u8, f: u8) -> (r: bool)
    ensures
        r == has_flag(flags, f),
{
    flags & f == f
}

/// The tag of an HTTP/2 frame. `Unknown` carries the raw wire code of a
/// type this engine does not interpret.
#[derive(Clone, Copy, PartialEq, Eq, Structural, Debug)]
pub enum FrameType {
    Data,
    Headers,
    Priority,
    RstStream,
    Settings,
    PushPromise,
    Ping,
    GoAway,
    WindowUpdate,
    Continuation,
    Unknown(u8),
}

impl FrameType {
    /// The wire code of this frame type.
    pub open spec fn spec_code(self) -> u8 {
        match self {
            FrameType::Data => 0x0,
            FrameType::Headers => 0x1,
            FrameType::Priority => 0x2,
            FrameType::RstStream => 0x3,
            FrameType::Settings => 0x4,
            FrameType::PushPromise => 0x5,
            FrameType::Ping => 0x6,
            FrameType::GoAway => 0x7,
            FrameType::WindowUpdate => 0x8,
            FrameType::Continuation => 0x9,
            FrameType::Unknown(c) => c,
        }
    }

    /// The frame type a wire code denotes.
    pub open spec fn spec_from_code(c: u8) -> FrameType {
        if c == 0x0 {
            FrameType::Data
        } else if c == 0x1 {
            FrameType::Headers
        } else if c == 0x2 {
            FrameType::Priority
        } else if c == 0x3 {
            FrameType::RstStream
        } else if c == 0x4 {
            FrameType::Settings
        } else if c == 0x5 {
            FrameType::PushPromise
        } else if c == 0x6 {
            FrameType::Ping
        } else if c == 0x7 {
            FrameType::GoAway
        } else if c == 0x8 {
            FrameType::WindowUpdate
        } else if c == 0x9 {
            FrameType::Continuation
        } else {
            FrameType::Unknown(c)
        }
    }

    /// An `Unknown` tag never shadows a defined wire code.
    pub open spec fn wf(self) -> bool {
        self matches FrameType::Unknown(c) ==> c > 0x9
    }

    pub fn code(&self) -> (r: u8)
        ensures
            r == self.spec_code(),
    {
        match self {
            FrameType::Data => 0x0,
            FrameType::Headers => 0x1,
            FrameType::Priority => 0x2,
            FrameType::RstStream => 0x3,
            FrameType::Settings => 0x4,
            FrameType::PushPromise => 0x5,
            FrameType::Ping => 0x6,
            FrameType::GoAway => 0x7,
            FrameType::WindowUpdate => 0x8,
            FrameType::Continuation => 0x9,
            FrameType::Unknown(c) => *c,
        }
    }

    pub fn from_code(c: u8) -> (r: FrameType)
        ensures
            r == FrameType::spec_from_code(c),
            r.wf(),
            r.spec_code() == c,
    {
        if c == 0x0 {
            FrameType::Data
        } else if c == 0x1 {
            FrameType::Headers
        } else if c == 0x2 {
            FrameType::Priority
        } else if c == 0x3 {
            FrameType::RstStream
        } else if c == 0x4 {
            FrameType::Settings
        } else if c == 0x5 {
            FrameType::PushPromise
        } else if c == 0x6 {
            FrameType::Ping
        } else if c == 0x7 {
            FrameType::GoAway
        } else if c == 0x8 {
            FrameType::WindowUpdate
        } else if c == 0x9 {
            FrameType::Continuation
        } else {
            FrameType::Unknown(c)
        }
    }
}

/// A parsed frame header: payload length, type, flags and stream id
/// (the reserved wire bit is dropped on parse).
#[derive(Clone, Copy, PartialEq, Eq, Structural, Debug)]
pub struct Frame {
    pub frame_type: FrameType,
    pub flags: u8,
    pub len: u32,
    pub stream_id: u32,
}

impl Frame {
    /// Field bounds the wire format can carry.
    pub open spec fn wf(self) -> bool {
        &&& self.len < 0x1000000
        &&& self.stream_id < 0x8000_0000
        &&& self.frame_type.wf()
    }

    /// A fresh frame header with no payload.
    pub fn new(frame_type: FrameType, flags: u8, stream_id: u32) -> (r: Frame)
        requires
            frame_type.wf(),
            stream_id < 0x8000_0000,
        ensures
            r == (Frame { frame_type, flags, len: 0u32, stream_id }),
            r.wf(),
    {
        Frame { frame_type, flags, len: 0, stream_id }
    }

    /// The same header with the payload length set.
    pub fn with_len(self, len: u32) -> (r: Frame)
        requires
            len < 0x1000000,
        ensures
            r == (Frame { len, ..self }),
    {
        Frame { len, ..self }
    }
}

/// Big-endian 16-bit value at offset `i`.
pub open spec fn spec_be16(b: Seq<u8>, i: int) -> int {
    b[i] * 0x100 + b[i + 1]
}

/// Big-endian 24-bit value at offset `i`.
pub open spec fn spec_be24(b: Seq<u8>, i: int) -> int {
    b[i] * 0x10000 + b[i + 1] * 0x100 + b[i + 2]
}

/// Big-endian 32-bit value at offset `i`.
pub open spec fn spec_be32(b: Seq<u8>, i: int) -> int {
    b[i] * 0x1000000 + b[i + 1] * 0x10000 + b[i + 2] * 0x100 + b[i + 3]
}

/// A 1-bit reserved field followed by a 31-bit big-endian value, as in the
/// frame header's stream id and in WINDOW_UPDATE and PRIORITY payloads.
pub open spec fn spec_u31(b: Seq<u8>, i: int) -> int {
    (b[i] % 0x80) * 0x1000000 + b[i + 1] * 0x10000 + b[i + 2] * 0x100 + b[i + 3]
}

/// The reserved bit in front of a 31-bit value.
pub open spec fn spec_reserved_bit(b: Seq<u8>, i: int) -> bool {
    b[i] >= 0x80
}

/// What the 9 header bytes starting at offset 0 of `b` denote.
pub open spec fn spec_frame_header(b: Seq<u8>) -> Frame
    recommends
        b.len() >= 9,
{
    Frame {
        len: spec_be24(b, 0) as u32,
        frame_type: FrameType::spec_from_code(b[3]),
        flags: b[4],
        stream_id: spec_u31(b, 5) as u32,
    }
}

/// Reads the 9-byte frame header at the front of `b`; `None` when fewer
/// than 9 bytes are buffered yet.
pub fn parse_frame_header(b: &[u8]) -> (r: Option<Frame>)
    ensures
        b@.len() >= 9 ==> r == Some(spec_frame_header(b@)) && r.unwrap().wf(),
        b@.len() < 9 ==> r is None,
{
    if b.len() < 9 {
        return None;
    }
    let b0 = *vstd::slice::slice_index_get(b, 0);
    let b1 = *vstd::slice::slice_index_get(b, 1);
    let b2 = *vstd::slice::slice_index_get(b, 2);
    let code = *vstd::slice::slice_index_get(b, 3);
    let flags = *vstd::slice::slice_index_get(b, 4);
    let b5 = *vstd::slice::slice_index_get(b, 5);
    let b6 = *vstd::slice::slice_index_get(b, 6);
    let b7 = *vstd::slice::slice_index_get(b, 7);
    let b8 = *vstd::slice::slice_index_get(b, 8);

    let len: u32 = (b0 as u32) * 0x10000 + (b1 as u32) * 0x100 + (b2 as u32);
    let stream_id: u32 = ((b5 % 0x80) as u32) * 0x1000000 + (b6 as u32) * 0x10000 + (b7 as u32)
        * 0x100 + (b8 as u32);

    Some(Frame { frame_type: FrameType::from_code(code), flags, len, stream_id })
}

/// Serializes a frame header to its 9 wire bytes. Parsing the result gives
/// the header back; this is the codec's round trip.
pub fn encode_frame_header(f: &Frame) -> (r: Vec<u8>)
    requires
        f.wf(),
    ensures
        r@.len() == 9,
        spec_frame_header(r@) == *f,
        r@[5] < 0x80,
{
    let len = f.len;
    let sid = f.stream_id;
    let l0 = (len >> 16) as u8;
    let l1 = (len >> 8) as u8;
    let l2 = len as u8;
    let s0 = (sid >> 24) as u8;
    let s1 = (sid >> 16) as u8;
    let s2 = (sid >> 8) as u8;
    let s3 = sid as u8;

    assert((l0 as u32) * 0x10000 + (l1 as u32) * 0x100 + (l2 as u32) == len) by (bit_vector)
        requires
            len < 0x1000000u32,
            l0 == (len >> 16) as u8,
            l1 == (len >> 8) as u8,
            l2 == len as u8,
    ;
    assert(s0 < 0x80 && (s0 as u32) * 0x1000000 + (s1 as u32) * 0x10000 + (s2 as u32) * 0x100 + (
    s3 as u32) == sid) by (bit_vector)
        requires
            sid < 0x8000_0000u32,
            s0 == (sid >> 24) as u8,
            s1 == (sid >> 16) as u8,
            s2 == (sid >> 8) as u8,
            s3 == sid as u8,
    ;
    proof {
        vstd::arithmetic::div_mod::lemma_small_mod(s0 as nat, 0x80);
    }

    let mut r: Vec<u8> = Vec::new();
    r.push(l0);
    r.push(l1);
    r.push(l2);
    r.push(f.frame_type.code());
    r.push(f.flags);
    r.push(s0);
    r.push(s1);
    r.push(s2);
    r.push(s3);
    proof {
        assert(FrameType::spec_from_code(f.frame_type.spec_code()) == f.frame_type);
    }
    r
}

/// A PRIORITY payload: exclusivity bit, 31-bit dependency, weight byte.
#[derive(Clone, Copy, PartialEq, Eq, Structural, Debug)]
pub struct PrioritySpec {
    pub exclusive: bool,
    pub stream_dependency: u32,
    pub weight: u8,
}

/// What a well-sized 5-byte PRIORITY payload denotes.
pub open spec fn spec_priority(b: Seq<u8>) -> PrioritySpec
    recommends
        b.len() == 5,
{
    PrioritySpec {
        exclusive: spec_reserved_bit(b, 0),
        stream_dependency: spec_u31(b, 0) as u32,
        weight: b[4],
    }
}

/// Parses a PRIORITY payload; `None` unless it is exactly 5 bytes.
pub fn parse_priority(b: &[u8]) -> (r: Option<PrioritySpec>)
    ensures
        b@.len() == 5 ==> r == Some(spec_priority(b@)),
        b@.len() != 5 ==> r is None,
{
    if b.len() != 5 {
        return None;
    }
    let b0 = *vstd::slice::slice_index_get(b, 0);
    let b1 = *vstd::slice::slice_index_get(b, 1);
    let b2 = *vstd::slice::slice_index_get(b, 2);
    let b3 = *vstd::slice::slice_index_get(b, 3);
    let weight = *vstd::slice::slice_index_get(b, 4);
    let dep: u32 = ((b0 % 0x80) as u32) * 0x1000000 + (b1 as u32) * 0x10000 + (b2 as u32) * 0x100
        + (b3 as u32);
    Some(PrioritySpec { exclusive: b0 >= 0x80, stream_dependency: dep, weight })
}

/// Parses a 4-byte payload as a reserved bit plus 31-bit value, the
/// WINDOW_UPDATE form; `None` unless it is exactly 4 bytes.
pub fn parse_reserved_and_u31(b: &[u8]) -> (r: Option<(bool, u32)>)
    ensures
        b@.len() == 4 ==> r == Some((spec_reserved_bit(b@, 0), spec_u31(b@, 0) as u32)),
        b@.len() != 4 ==> r is None,
{
    if b.len() != 4 {
        return None;
    }
    let b0 = *vstd::slice::slice_index_get(b, 0);
    let b1 = *vstd::slice::slice_index_get(b, 1);
    let b2 = *vstd::slice::slice_index_get(b, 2);
    let b3 = *vstd::slice::slice_index_get(b, 3);
    let v: u32 = ((b0 % 0x80) as u32) * 0x1000000 + (b1 as u32) * 0x10000 + (b2 as u32) * 0x100 + (
    b3 as u32);
    Some((b0 >= 0x80, v))
}

/// Serializes a 32-bit value big-endian, as GOAWAY and RST_STREAM payloads
/// carry error codes and stream ids.
pub fn encode_be32(v: u32, out: &mut Vec<u8>)
    ensures
        final(out)@.len() == old(out)@.len() + 4,
        final(out)@.subrange(0, old(out)@.len() as int) =~= old(out)@,
        spec_be32(final(out)@, old(out)@.len() as int) == v,
{
    let c0 = (v >> 24) as u8;
    let c1 = (v >> 16) as u8;
    let c2 = (v >> 8) as u8;
    let c3 = v as u8;
    assert((c0 as u32) * 0x1000000 + (c1 as u32) * 0x10000 + (c2 as u32) * 0x100 + (c3 as u32)
        == v) by (bit_vector)
        requires
            c0 == (v >> 24) as u8,
            c1 == (v >> 16) as u8,
            c2 == (v >> 8) as u8,
            c3 == v as u8,
    ;
    out.push(c0);
    out.push(c1);
    out.push(c2);
    out.push(c3);
}

/// The 24-byte client connection preface.
pub open spec fn spec_preface() -> Seq<u8> {
    seq![
        0x50u8, 0x52u8, 0x49u8, 0x20u8, 0x2au8, 0x20u8, 0x48u8, 0x54u8, 0x54u8, 0x50u8, 0x2fu8,
        0x32u8, 0x2eu8, 0x30u8, 0x0du8, 0x0au8, 0x0du8, 0x0au8, 0x53u8, 0x4du8, 0x0du8, 0x0au8,
        0x0du8, 0x0au8,
    ]
}

/// Length of the client preface.
pub const PREFACE_LEN: usize = 24;

/// The client preface bytes, `PRI * HTTP/2.0\r\n\r\nSM\r\n\r\n`.
pub fn preface_bytes() -> (r: Vec<u8>)
    ensures
        r@ =~= spec_preface(),
{
    let r: Vec<u8> = vec![
        0x50u8, 0x52, 0x49, 0x20, 0x2a, 0x20, 0x48, 0x54, 0x54, 0x50, 0x2f, 0x32, 0x2e, 0x30,
        0x0d, 0x0a, 0x0d, 0x0a, 0x53, 0x4d, 0x0d, 0x0a, 0x0d, 0x0a,
    ];
    r
}

/// Whether the first 24 bytes of `b` are the client preface.
pub fn starts_with_preface(b: &[u8]) -> (r: bool)
    requires
        b@.len() >= 24,
    ensures
        r == (b@.subrange(0, 24) =~= spec_preface()),
{
    let p = preface_bytes();
    let mut i: usize = 0;
    while i < 24
        invariant
            0 <= i <= 24,
            b@.len() >= 24,
            p@ =~= spec_preface(),
            forall|j: int| 0 <= j < i ==> b@[j] == spec_preface()[j],
        decreases 24 - i,
    {
        if *vstd::slice::slice_index_get(b, i) != p[i] {
            assert(b@.subrange(0, 24)[i as int] != spec_preface()[i as int]);
            return false;
        }
        i += 1;
    }
    assert(b@.subrange(0, 24) =~= spec_preface());
    true
}

} // verus!
