//! 12-byte fixed frame header.

use vstd::prelude::*;

use crate::error::Error;

use super::flags::{Flags, ALL_FLAG_BITS};

verus! {

/// Current protocol version.
pub const PROTOCOL_VERSION: u8 = 1;

/// Length of the wire header in bytes.
pub const HEADER_LEN: usize = 12;

/// Frame type discriminator carried in the header.
#[derive(Debug, Clone, Copy, PartialEq, Eq, Structural)]
pub enum FrameType {
    Data,
    WindowUpdate,
    Ping,
    GoAway,
}

/// The byte a frame type is carried as.
pub open spec fn frame_type_byte(t: FrameType) -> u8 {
    match t {
        FrameType::Data => 0,
        FrameType::WindowUpdate => 1,
        FrameType::Ping => 2,
        FrameType::GoAway => 3,
    }
}

/// The frame type a byte stands for (meaningful for bytes up to 3).
pub open spec fn frame_type_of(b: u8) -> FrameType {
    if b == 0 {
        FrameType::Data
    } else if b == 1 {
        FrameType::WindowUpdate
    } else if b == 2 {
        FrameType::Ping
    } else {
        FrameType::GoAway
    }
}

impl FrameType {
    /// The byte this frame type is carried as.
    pub fn to_u8(self) -> (b: u8)
        ensures
            b == frame_type_byte(self),
    {
        match self {
            FrameType::Data => 0,
            FrameType::WindowUpdate => 1,
            FrameType::Ping => 2,
            FrameType::GoAway => 3,
        }
    }

    /// The frame type a byte stands for, or a protocol error for an unknown
    /// byte.
    pub fn try_from_u8(value: u8) -> (r: Result<FrameType, Error>)
        ensures
            value <= 3 ==> r == Ok::<FrameType, Error>(frame_type_of(value)),
            value > 3 ==> r == Err::<FrameType, Error>(Error::Protocol("unknown frame type")),
    {
        match value {
            0 => Ok(FrameType::Data),
            1 => Ok(FrameType::WindowUpdate),
            2 => Ok(FrameType::Ping),
            3 => Ok(FrameType::GoAway),
            _ => Err(Error::Protocol("unknown frame type")),
        }
    }
}

/// Big-endian bytes of a `u16`.
pub open spec fn be16(v: u16) -> Seq<u8> {
    seq![(v >> 8u16) as u8, (v & 0xffu16) as u8]
}

/// Big-endian bytes of a `u32`.
pub open spec fn be32(v: u32) -> Seq<u8> {
    seq![
        (v >> 24u32) as u8,
        ((v >> 16u32) & 0xffu32) as u8,
        ((v >> 8u32) & 0xffu32) as u8,
        (v & 0xffu32) as u8,
    ]
}

/// The `u16` two big-endian bytes stand for.
pub open spec fn from_be16(a: u8, b: u8) -> u16 {
    ((a as u16) << 8u16) | (b as u16)
}

/// The `u32` four big-endian bytes stand for.
pub open spec fn from_be32(a: u8, b: u8, c: u8, d: u8) -> u32 {
    ((a as u32) << 24u32) | ((b as u32) << 16u32) | ((c as u32) << 8u32) | (d as u32)
}

pub proof fn lemma_be16_roundtrip(v: u16)
    ensures
        from_be16(be16(v)[0], be16(v)[1]) == v,
{
    let a = (v >> 8u16) as u8;
    let b = (v & 0xffu16) as u8;
    assert(((a as u16) << 8u16) | (b as u16) == v) by (bit_vector)
        requires
            a == (v >> 8u16) as u8,
            b == (v & 0xffu16) as u8,
    ;
}

pub proof fn lemma_be32_roundtrip(v: u32)
    ensures
        from_be32(be32(v)[0], be32(v)[1], be32(v)[2], be32(v)[3]) == v,
{
    let a = (v >> 24u32) as u8;
    let b = ((v >> 16u32) & 0xffu32) as u8;
    let c = ((v >> 8u32) & 0xffu32) as u8;
    let d = (v & 0xffu32) as u8;
    assert(((a as u32) << 24u32) | ((b as u32) << 16u32) | ((c as u32) << 8u32) | (d as u32) == v)
        by (bit_vector)
        requires
            a == (v >> 24u32) as u8,
            b == ((v >> 16u32) & 0xffu32) as u8,
            c == ((v >> 8u32) & 0xffu32) as u8,
            d == (v & 0xffu32) as u8,
    ;
}

pub proof fn lemma_from_be16_roundtrip(a: u8, b: u8)
    ensures
        be16(from_be16(a, b)) == seq![a, b],
{
    let v = from_be16(a, b);
    assert((v >> 8u16) as u8 == a && (v & 0xffu16) as u8 == b) by (bit_vector)
        requires
            v == ((a as u16) << 8u16) | (b as u16),
    ;
    assert(be16(v) =~= seq![a, b]);
}

pub proof fn lemma_from_be32_roundtrip(a: u8, b: u8, c: u8, d: u8)
    ensures
        be32(from_be32(a, b, c, d)) == seq![a, b, c, d],
{
    let v = from_be32(a, b, c, d);
    assert((v >> 24u32) as u8 == a && ((v >> 16u32) & 0xffu32) as u8 == b && ((v >> 8u32)
        & 0xffu32) as u8 == c && (v & 0xffu32) as u8 == d) by (bit_vector)
        requires
            v == ((a as u32) << 24u32) | ((b as u32) << 16u32) | ((c as u32) << 8u32) | (d as u32),
    ;
    assert(be32(v) =~= seq![a, b, c, d]);
}

/// Decoded header fields.
///
/// Wire layout (big-endian):
/// ```text
/// 0       1       2               4               8               12
/// +-------+-------+---------------+---------------+---------------+
/// |  Ver  | Type  |     Flags     |   StreamId    |    Length     |
/// +-------+-------+---------------+---------------+---------------+
///   u8      u8         u16              u32             u32
/// ```
///
/// `Length` carries different semantics depending on `FrameType`:
/// * `Data` — payload byte count
/// * `WindowUpdate` — credit increment, in bytes
/// * `Ping` — opaque echo payload (typically a nonce)
/// * `GoAway` — error code (see [`crate::ErrorCode`])
#[derive(Debug, Clone, Copy, PartialEq, Eq, Structural)]
pub struct Header {
    pub version: u8,
    pub frame_type: FrameType,
    pub flags: Flags,
    pub stream_id: u32,
    pub length: u32,
}

/// The twelve bytes a header is carried as.
pub open spec fn header_bytes(h: Header) -> Seq<u8> {
    seq![h.version, frame_type_byte(h.frame_type)] + be16(h.flags.bits) + be32(h.stream_id) + be32(
        h.length,
    )
}

/// What decoding twelve header bytes gives: the first violated check's
/// error, else the header.
pub open spec fn decode_header(b: Seq<u8>) -> Result<Header, Error> {
    if b[0] != PROTOCOL_VERSION {
        Err(Error::Protocol("unsupported protocol version"))
    } else if b[1] > 3 {
        Err(Error::Protocol("unknown frame type"))
    } else if from_be16(b[2], b[3]) > ALL_FLAG_BITS {
        Err(Error::Protocol("unknown flag bits"))
    } else {
        Ok(
            Header {
                version: b[0],
                frame_type: frame_type_of(b[1]),
                flags: Flags { bits: from_be16(b[2], b[3]) },
                stream_id: from_be32(b[4], b[5], b[6], b[7]),
                length: from_be32(b[8], b[9], b[10], b[11]),
            },
        )
    }
}

impl Header {
    /// A header that decoding can produce: current version, defined flags.
    pub open spec fn wf(self) -> bool {
        self.version == PROTOCOL_VERSION && self.flags.wf()
    }

    /// Creates a header from its fields.
    pub fn new(version: u8, frame_type: FrameType, flags: Flags, stream_id: u32, length: u32) -> (h:
        Self)
        ensures
            h == (Header { version, frame_type, flags, stream_id, length }),
    {
        Header { version, frame_type, flags, stream_id, length }
    }

    /// Writes the header's twelve wire bytes into `out`.
    pub fn encode(&self, out: &mut [u8; HEADER_LEN])
        ensures
            final(out)@ == header_bytes(*self),
    {
        let f = self.flags.bits;
        let id = self.stream_id;
        let len = self.length;
        out[0] = self.version;
        out[1] = self.frame_type.to_u8();
        out[2] = (f >> 8u16) as u8;
        out[3] = (f & 0xffu16) as u8;
        out[4] = (id >> 24u32) as u8;
        out[5] = ((id >> 16u32) & 0xffu32) as u8;
        out[6] = ((id >> 8u32) & 0xffu32) as u8;
        out[7] = (id & 0xffu32) as u8;
        out[8] = (len >> 24u32) as u8;
        out[9] = ((len >> 16u32) & 0xffu32) as u8;
        out[10] = ((len >> 8u32) & 0xffu32) as u8;
        out[11] = (len & 0xffu32) as u8;
        assert(out@ =~= header_bytes(*self));
    }

    /// Parses twelve wire bytes: rejects any version but the current one,
    /// an unknown frame type and flag bits outside the defined flags, in
    /// that order.
    pub fn decode(bytes: &[u8; HEADER_LEN]) -> (r: Result<Self, Error>)
        ensures
            r == decode_header(bytes@),
            r matches Ok(h) ==> h.wf(),
    {
        let version = bytes[0];
        if version != PROTOCOL_VERSION {
            return Err(Error::Protocol("unsupported protocol version"));
        }
        let frame_type = match FrameType::try_from_u8(bytes[1]) {
            Ok(t) => t,
            Err(e) => {
                return Err(e);
            },
        };
        let flags_bits = ((bytes[2] as u16) << 8u16) | (bytes[3] as u16);
        let flags = match Flags::from_bits(flags_bits) {
            Some(f) => f,
            None => {
                return Err(Error::Protocol("unknown flag bits"));
            },
        };
        let stream_id = ((bytes[4] as u32) << 24u32) | ((bytes[5] as u32) << 16u32) | ((
        bytes[6] as u32) << 8u32) | (bytes[7] as u32);
        let length = ((bytes[8] as u32) << 24u32) | ((bytes[9] as u32) << 16u32) | ((
        bytes[10] as u32) << 8u32) | (bytes[11] as u32);
        Ok(Header { version, frame_type, flags, stream_id, length })
    }
}

/// Every header is carried as exactly [`HEADER_LEN`] bytes.
pub proof fn lemma_header_len(h: Header)
    ensures
        header_bytes(h).len() == HEADER_LEN,
{
}

/// Decoding the bytes of a header that decoding can produce gives the same
/// header back.
pub proof fn lemma_header_roundtrip(h: Header)
    requires
        h.wf(),
    ensures
        header_bytes(h).len() == HEADER_LEN,
        decode_header(header_bytes(h)) == Ok::<Header, Error>(h),
{
    let b = header_bytes(h);
    lemma_be16_roundtrip(h.flags.bits);
    lemma_be32_roundtrip(h.stream_id);
    lemma_be32_roundtrip(h.length);
    assert(b[2] == be16(h.flags.bits)[0] && b[3] == be16(h.flags.bits)[1]);
    assert(b[4] == be32(h.stream_id)[0] && b[5] == be32(h.stream_id)[1] && b[6] == be32(
        h.stream_id,
    )[2] && b[7] == be32(h.stream_id)[3]);
    assert(b[8] == be32(h.length)[0] && b[9] == be32(h.length)[1] && b[10] == be32(h.length)[2]
        && b[11] == be32(h.length)[3]);
}

/// Twelve bytes that decode to a header are exactly that header's bytes.
pub proof fn lemma_header_bytes_of_decoded(b: Seq<u8>)
    requires
        b.len() == HEADER_LEN,
        decode_header(b) is Ok,
    ensures
        decode_header(b)->Ok_0.wf(),
        header_bytes(decode_header(b)->Ok_0) == b,
{
    let h = decode_header(b)->Ok_0;
    lemma_from_be16_roundtrip(b[2], b[3]);
    lemma_from_be32_roundtrip(b[4], b[5], b[6], b[7]);
    lemma_from_be32_roundtrip(b[8], b[9], b[10], b[11]);
    assert(header_bytes(h) =~= b);
}

} // verus!
