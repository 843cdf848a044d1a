//! Conversion between byte streams and [`Frame`]s.

use bytes::{Bytes, BytesMut};
use vstd::prelude::*;

use crate::buffers::{
    bytes_as_slice, bytes_contents, bytes_len, bytes_mut_advance, bytes_mut_byte, bytes_mut_contents,
    bytes_mut_freeze, bytes_mut_len, bytes_mut_put_slice, bytes_mut_reserve, bytes_mut_split_to,
    bytes_new,
};
use crate::error::{code_from_u32, code_to_u32, Error, ErrorCode};

use super::flags::Flags;
use super::frame::{Frame, FrameView};
use super::header::{decode_header, header_bytes, FrameType, Header, HEADER_LEN, PROTOCOL_VERSION};

verus! {

/// Default cap on a single decoded payload. The session layer always passes
/// in a tighter limit derived from `Config::max_frame_size`; this constant
/// is just a hard ceiling to guard against malicious peers when the codec
/// is used standalone.
pub const ABSOLUTE_MAX_PAYLOAD: u32 = 16 * 1024 * 1024;

/// The header that encoding a frame writes.
pub open spec fn frame_header(f: FrameView) -> Header {
    match f {
        FrameView::Data { stream_id, flags, payload } => Header {
            version: PROTOCOL_VERSION,
            frame_type: FrameType::Data,
            flags,
            stream_id,
            length: payload.len() as u32,
        },
        FrameView::WindowUpdate { stream_id, flags, delta } => Header {
            version: PROTOCOL_VERSION,
            frame_type: FrameType::WindowUpdate,
            flags,
            stream_id,
            length: delta,
        },
        FrameView::Ping { flags, opaque } => Header {
            version: PROTOCOL_VERSION,
            frame_type: FrameType::Ping,
            flags,
            stream_id: 0,
            length: opaque,
        },
        FrameView::GoAway { error_code } => Header {
            version: PROTOCOL_VERSION,
            frame_type: FrameType::GoAway,
            flags: Flags { bits: 0 },
            stream_id: 0,
            length: code_to_u32(error_code),
        },
    }
}

/// The payload bytes that follow a frame's header on the wire.
pub open spec fn frame_payload(f: FrameView) -> Seq<u8> {
    match f {
        FrameView::Data { payload, .. } => payload,
        _ => Seq::empty(),
    }
}

/// The bytes a frame is carried as: its header, then its payload.
pub open spec fn frame_bytes(f: FrameView) -> Seq<u8> {
    header_bytes(frame_header(f)) + frame_payload(f)
}

/// Whether the encoder refuses the frame: a `Data` payload above the limit.
pub open spec fn encode_rejects(f: FrameView, max_payload: u32) -> bool {
    f is Data && frame_payload(f).len() > max_payload
}

/// The frame that a decoded header and its payload stand for.
pub open spec fn frame_of(h: Header, payload: Seq<u8>) -> FrameView {
    match h.frame_type {
        FrameType::Data => FrameView::Data { stream_id: h.stream_id, flags: h.flags, payload },
        FrameType::WindowUpdate => FrameView::WindowUpdate {
            stream_id: h.stream_id,
            flags: h.flags,
            delta: h.length,
        },
        FrameType::Ping => FrameView::Ping { flags: h.flags, opaque: h.length },
        FrameType::GoAway => FrameView::GoAway { error_code: code_from_u32(h.length) },
    }
}

/// The payload length a header announces: its length for `Data`, none for
/// the other frame types, whose length field carries metadata.
pub open spec fn payload_len_of(h: Header) -> u32 {
    match h.frame_type {
        FrameType::Data => h.length,
        _ => 0,
    }
}

/// What decoding the front of `s` gives: `Ok(None)` while a whole frame is
/// not there yet, the header's error, an error for a payload above the
/// limit, or the frame together with the number of bytes it takes.
pub open spec fn decode_frame(s: Seq<u8>, max_payload: u32) -> Result<
    Option<(FrameView, nat)>,
    Error,
> {
    if s.len() < HEADER_LEN {
        Ok(None)
    } else {
        match decode_header(s.take(HEADER_LEN as int)) {
            Err(e) => Err(e),
            Ok(h) => {
                let plen = payload_len_of(h);
                if plen > max_payload {
                    Err(Error::Protocol("frame payload exceeds limit"))
                } else if s.len() < HEADER_LEN + plen {
                    Ok(None)
                } else {
                    Ok(
                        Some(
                            (
                                frame_of(h, s.subrange(HEADER_LEN as int, HEADER_LEN + plen)),
                                (HEADER_LEN + plen) as nat,
                            ),
                        ),
                    )
                }
            },
        }
    }
}

/// A frame that the codec with this limit encodes, and whose decoding
/// gives it back: defined flags, an error code as the wire can carry it,
/// and a payload within the limit.
pub open spec fn frame_roundtrips(f: FrameView, max_payload: u32) -> bool {
    match f {
        FrameView::Data { flags, payload, .. } => flags.wf() && payload.len() <= max_payload,
        FrameView::WindowUpdate { flags, .. } => flags.wf(),
        FrameView::Ping { flags, .. } => flags.wf(),
        FrameView::GoAway { error_code } => crate::error::code_is_canonical(error_code),
    }
}

/// Codec converting between byte streams and [`Frame`]s.
#[derive(Debug)]
pub struct FrameCodec {
    max_payload: u32,
}

impl FrameCodec {
    /// The largest payload this codec encodes or accepts.
    pub closed spec fn max_payload(self) -> u32 {
        self.max_payload
    }

    pub closed spec fn wf(self) -> bool {
        self.max_payload <= ABSOLUTE_MAX_PAYLOAD
    }

    /// A codec whose payload limit is `max_payload`, capped at
    /// [`ABSOLUTE_MAX_PAYLOAD`].
    pub fn new(max_payload: u32) -> (c: Self)
        ensures
            c.wf(),
            c.max_payload() == if max_payload < ABSOLUTE_MAX_PAYLOAD {
                max_payload
            } else {
                ABSOLUTE_MAX_PAYLOAD
            },
    {
        let m = if max_payload < ABSOLUTE_MAX_PAYLOAD {
            max_payload
        } else {
            ABSOLUTE_MAX_PAYLOAD
        };
        FrameCodec { max_payload: m }
    }

    /// Decode one frame from the front of `src`.
    ///
    /// Returns `Ok(None)` and leaves `src` as it is while the buffer holds
    /// less than a whole frame; on success removes exactly the frame's bytes.
    pub fn decode(&mut self, src: &mut BytesMut) -> (r: Result<Option<Frame>, Error>)
        requires
            old(self).wf(),
        ensures
            *final(self) == *old(self),
            match decode_frame(bytes_mut_contents(*old(src)), old(self).max_payload()) {
                Err(e) => r == Err::<Option<Frame>, Error>(e) && bytes_mut_contents(*final(src))
                    == bytes_mut_contents(*old(src)),
                Ok(None) => r == Ok::<Option<Frame>, Error>(None) && bytes_mut_contents(
                    *final(src),
                ) == bytes_mut_contents(*old(src)),
                Ok(Some((f, n))) => {
                    &&& r matches Ok(Some(fr))
                    &&& fr@ == f
                    &&& bytes_mut_contents(*final(src)) == bytes_mut_contents(*old(src)).skip(
                        n as int,
                    )
                },
            },
    {
        let ghost s0 = bytes_mut_contents(*src);
        let len = bytes_mut_len(src);
        if len < HEADER_LEN {
            return Ok(None);
        }
        let header_bytes: [u8; 12] = [
            bytes_mut_byte(src, 0),
            bytes_mut_byte(src, 1),
            bytes_mut_byte(src, 2),
            bytes_mut_byte(src, 3),
            bytes_mut_byte(src, 4),
            bytes_mut_byte(src, 5),
            bytes_mut_byte(src, 6),
            bytes_mut_byte(src, 7),
            bytes_mut_byte(src, 8),
            bytes_mut_byte(src, 9),
            bytes_mut_byte(src, 10),
            bytes_mut_byte(src, 11),
        ];
        assert(header_bytes@ =~= s0.take(HEADER_LEN as int));
        let header = match Header::decode(&header_bytes) {
            Ok(h) => h,
            Err(e) => {
                return Err(e);
            },
        };
        let payload_len = match header.frame_type {
            FrameType::Data => header.length,
            FrameType::WindowUpdate | FrameType::Ping | FrameType::GoAway => 0,
        };
        if payload_len > self.max_payload {
            return Err(Error::Protocol("frame payload exceeds limit"));
        }
        let total = HEADER_LEN + payload_len as usize;
        if len < total {
            bytes_mut_reserve(src, total - len);
            return Ok(None);
        }
        bytes_mut_advance(src, HEADER_LEN);
        let payload = if payload_len == 0 {
            bytes_new()
        } else {
            bytes_mut_freeze(bytes_mut_split_to(src, payload_len as usize))
        };
        assert(bytes_contents(payload) =~= s0.subrange(HEADER_LEN as int, total as int));
        assert(bytes_mut_contents(*src) =~= s0.skip(total as int));
        let frame = match header.frame_type {
            FrameType::Data => Frame::Data {
                stream_id: header.stream_id,
                flags: header.flags,
                payload,
            },
            FrameType::WindowUpdate => Frame::WindowUpdate {
                stream_id: header.stream_id,
                flags: header.flags,
                delta: header.length,
            },
            FrameType::Ping => Frame::Ping { flags: header.flags, opaque: header.length },
            FrameType::GoAway => Frame::GoAway { error_code: ErrorCode::from(header.length) },
        };
        Ok(Some(frame))
    }

    /// Append the wire bytes of `frame` to `dst`; a `Data` payload above the
    /// limit is refused and `dst` left as it is.
    pub fn encode(&mut self, frame: Frame, dst: &mut BytesMut) -> (r: Result<(), Error>)
        requires
            old(self).wf(),
            !encode_rejects(frame@, old(self).max_payload()) ==> bytes_mut_contents(*old(dst)).len()
                + frame_bytes(frame@).len() <= isize::MAX,
        ensures
            *final(self) == *old(self),
            encode_rejects(frame@, old(self).max_payload()) ==> {
                &&& r == Err::<(), Error>(Error::Protocol("data payload exceeds limit"))
                &&& bytes_mut_contents(*final(dst)) == bytes_mut_contents(*old(dst))
            },
            !encode_rejects(frame@, old(self).max_payload()) ==> {
                &&& r is Ok
                &&& bytes_mut_contents(*final(dst)) == bytes_mut_contents(*old(dst)) + frame_bytes(
                    frame@,
                )
            },
    {
        let ghost fv = frame@;
        let (frame_type, flags, stream_id, length, payload): (
            FrameType,
            Flags,
            u32,
            u32,
            Option<Bytes>,
        ) = match frame {
            Frame::Data { stream_id, flags, payload } => {
                let plen = bytes_len(&payload);
                if plen as u64 > self.max_payload as u64 {
                    return Err(Error::Protocol("data payload exceeds limit"));
                }
                (FrameType::Data, flags, stream_id, plen as u32, Some(payload))
            },
            Frame::WindowUpdate { stream_id, flags, delta } => (
                FrameType::WindowUpdate,
                flags,
                stream_id,
                delta,
                None,
            ),
            Frame::Ping { flags, opaque } => (FrameType::Ping, flags, 0, opaque, None),
            Frame::GoAway { error_code } => (
                FrameType::GoAway,
                Flags::empty(),
                0,
                error_code.as_u32(),
                None,
            ),
        };
        let header = Header::new(PROTOCOL_VERSION, frame_type, flags, stream_id, length);
        assert(header == frame_header(fv));
        let plen = match &payload {
            Some(p) => bytes_len(p),
            None => 0,
        };
        let total = HEADER_LEN + plen;
        bytes_mut_reserve(dst, total);
        let mut header_buf: [u8; 12] = [0u8; 12];
        header.encode(&mut header_buf);
        bytes_mut_put_slice(dst, header_buf.as_slice());
        match payload {
            Some(p) => {
                bytes_mut_put_slice(dst, bytes_as_slice(&p));
            },
            None => {},
        }
        Ok(())
    }
}

/// Encoding then decoding gives the frame back and consumes exactly its
/// bytes, whatever follows them in the buffer; so a sequence of encoded
/// frames decodes, front to back, to the same frames in the same order.
pub proof fn lemma_frame_roundtrip(f: FrameView, rest: Seq<u8>, max_payload: u32)
    requires
        frame_roundtrips(f, max_payload),
    ensures
        !encode_rejects(f, max_payload),
        decode_frame(frame_bytes(f) + rest, max_payload) == Ok::<Option<(FrameView, nat)>, Error>(
            Some((f, frame_bytes(f).len()))),
{
    let h = frame_header(f);
    let p = frame_payload(f);
    let s = frame_bytes(f) + rest;
    super::header::lemma_header_roundtrip(h);
    assert(s.take(HEADER_LEN as int) =~= header_bytes(h));
    assert(payload_len_of(h) == p.len());
    assert(s.subrange(HEADER_LEN as int, HEADER_LEN + p.len()) =~= p);
    if let FrameView::GoAway { error_code } = f {
        crate::error::lemma_code_roundtrip(error_code);
    }
    assert(frame_of(h, p) == f);
}

/// The wire bytes of a run of frames, one after the other.
pub open spec fn frames_bytes(fs: Seq<FrameView>) -> Seq<u8>
    decreases fs.len(),
{
    if fs.len() == 0 {
        Seq::empty()
    } else {
        frame_bytes(fs[0]) + frames_bytes(fs.drop_first())
    }
}

/// A run of encoded frames decodes, front to back, to the same frames in
/// the same order: with the frames from `i` on in the buffer, decoding gives
/// frame `i` and leaves exactly the frames after it; once all are consumed
/// the buffer is empty and decoding gives `Ok(None)`.
pub proof fn lemma_frames_decode_in_order(fs: Seq<FrameView>, max_payload: u32)
    requires
        forall|i: int| 0 <= i < fs.len() ==> #[trigger] frame_roundtrips(fs[i], max_payload),
    ensures
        forall|i: int|
            0 <= i < fs.len() ==> {
                &&& #[trigger] decode_frame(frames_bytes(fs.skip(i)), max_payload) == Ok::<
                    Option<(FrameView, nat)>,
                    Error,
                >(Some((fs[i], frame_bytes(fs[i]).len())))
                &&& frames_bytes(fs.skip(i)).skip(frame_bytes(fs[i]).len() as int)
                    == frames_bytes(fs.skip(i + 1))
            },
        frames_bytes(fs.skip(fs.len() as int)).len() == 0,
        decode_frame(frames_bytes(fs.skip(fs.len() as int)), max_payload) == Ok::<
            Option<(FrameView, nat)>,
            Error,
        >(None),
{
    assert forall|i: int| 0 <= i < fs.len() implies {
        &&& #[trigger] decode_frame(frames_bytes(fs.skip(i)), max_payload) == Ok::<
            Option<(FrameView, nat)>,
            Error,
        >(Some((fs[i], frame_bytes(fs[i]).len())))
        &&& frames_bytes(fs.skip(i)).skip(frame_bytes(fs[i]).len() as int) == frames_bytes(
            fs.skip(i + 1),
        )
    } by {
        let t = fs.skip(i);
        assert(t[0] == fs[i]);
        assert(t.drop_first() =~= fs.skip(i + 1));
        assert(frames_bytes(t) == frame_bytes(fs[i]) + frames_bytes(fs.skip(i + 1)));
        assert(frame_roundtrips(fs[i], max_payload));
        lemma_frame_roundtrip(fs[i], frames_bytes(fs.skip(i + 1)), max_payload);
        assert((frame_bytes(fs[i]) + frames_bytes(fs.skip(i + 1))).skip(
            frame_bytes(fs[i]).len() as int,
        ) =~= frames_bytes(fs.skip(i + 1)));
    }
    assert(fs.skip(fs.len() as int) =~= Seq::<FrameView>::empty());
}

/// A buffer holding only part of an encoded frame decodes to `Ok(None)`:
/// the decoder waits for the rest and consumes nothing.
pub proof fn lemma_partial_frame_waits(f: FrameView, k: int, max_payload: u32)
    requires
        frame_roundtrips(f, max_payload),
        0 <= k < frame_bytes(f).len(),
    ensures
        decode_frame(frame_bytes(f).take(k), max_payload) == Ok::<
            Option<(FrameView, nat)>,
            Error,
        >(None),
{
    let h = frame_header(f);
    let s = frame_bytes(f).take(k);
    super::header::lemma_header_roundtrip(h);
    if k >= HEADER_LEN {
        assert(s.take(HEADER_LEN as int) =~= header_bytes(h));
    }
}

/// Every frame the decoder produces is one the encoder accepts and that
/// survives another round trip.
pub proof fn lemma_decoded_frame_roundtrips(s: Seq<u8>, max_payload: u32)
    requires
        decode_frame(s, max_payload) matches Ok(Some(_)),
    ensures
        decode_frame(s, max_payload) matches Ok(Some((f, n))) && frame_roundtrips(f, max_payload)
            && n <= s.len(),
{
    let h = decode_header(s.take(HEADER_LEN as int))->Ok_0;
    crate::error::lemma_wire_value_roundtrip(h.length);
}

/// The unsigned number that the two bytes of `b` at `i` spell, most
/// significant first.
pub open spec fn be16_at(b: Seq<u8>, i: int) -> int {
    b[i] * 256 + b[i + 1]
}

/// The unsigned number that the four bytes of `b` at `i` spell, most
/// significant first.
pub open spec fn be32_at(b: Seq<u8>, i: int) -> int {
    b[i] * 16777216 + b[i + 1] * 65536 + b[i + 2] * 256 + b[i + 3]
}

proof fn lemma_be32_value(v: u32)
    ensures
        be32_at(super::header::be32(v), 0) == v,
{
    let a = (v >> 24u32) as u8;
    let b = ((v >> 16u32) & 0xffu32) as u8;
    let c = ((v >> 8u32) & 0xffu32) as u8;
    let d = (v & 0xffu32) as u8;
    assert((a as u64) * 16777216u64 + (b as u64) * 65536u64 + (c as u64) * 256u64 + (d as u64)
        == v as u64) by (bit_vector)
        requires
            a == (v >> 24u32) as u8,
            b == ((v >> 16u32) & 0xffu32) as u8,
            c == ((v >> 8u32) & 0xffu32) as u8,
            d == (v & 0xffu32) as u8,
    ;
}

proof fn lemma_be16_value(v: u16)
    ensures
        be16_at(super::header::be16(v), 0) == v,
{
    let a = (v >> 8u16) as u8;
    let b = (v & 0xffu16) as u8;
    assert((a as u32) * 256u32 + (b as u32) == v as u32) by (bit_vector)
        requires
            a == (v >> 8u16) as u8,
            b == (v & 0xffu16) as u8,
    ;
}

proof fn lemma_from_be32_value(a: u8, b: u8, c: u8, d: u8)
    ensures
        super::header::from_be32(a, b, c, d) == a * 16777216 + b * 65536 + c * 256 + d,
{
    let v = super::header::from_be32(a, b, c, d);
    assert(v as u64 == (a as u64) * 16777216u64 + (b as u64) * 65536u64 + (c as u64) * 256u64
        + (d as u64)) by (bit_vector)
        requires
            v == ((a as u32) << 24u32) | ((b as u32) << 16u32) | ((c as u32) << 8u32) | (d as u32),
    ;
}

proof fn lemma_header_fields(h: Header)
    ensures
        header_bytes(h).len() == HEADER_LEN,
        header_bytes(h)[0] == h.version,
        header_bytes(h)[1] == super::header::frame_type_byte(h.frame_type),
        be16_at(header_bytes(h), 2) == h.flags.bits,
        be32_at(header_bytes(h), 4) == h.stream_id,
        be32_at(header_bytes(h), 8) == h.length,
{
    let b = header_bytes(h);
    lemma_be16_value(h.flags.bits);
    lemma_be32_value(h.stream_id);
    lemma_be32_value(h.length);
    let f = super::header::be16(h.flags.bits);
    let x = super::header::be32(h.stream_id);
    let y = super::header::be32(h.length);
    assert(b[2] == f[0] && b[3] == f[1]);
    assert(b[4] == x[0] && b[5] == x[1] && b[6] == x[2] && b[7] == x[3]);
    assert(b[8] == y[0] && b[9] == y[1] && b[10] == y[2] && b[11] == y[3]);
}

/// The wire layout of every frame: version `1`, the type byte (`Data` 0,
/// `WindowUpdate` 1, `Ping` 2, `GoAway` 3), the flags, the stream id in
/// bytes 4..8 and the type-specific length in bytes 8..12, all big-endian,
/// then the payload. `Length` is a `Data` frame's payload length, a
/// `WindowUpdate`'s credit increment for its own stream, a `Ping`'s opaque
/// value and a `GoAway`'s error code; `Ping` and `GoAway` carry stream id 0.
pub proof fn lemma_wire_layout(f: FrameView)
    ensures
        ({
            let b = frame_bytes(f);
            &&& b[0] == 1
            &&& match f {
                FrameView::Data { stream_id, flags, payload } => {
                    &&& b.len() == 12 + payload.len()
                    &&& b[1] == 0
                    &&& be16_at(b, 2) == flags.bits
                    &&& be32_at(b, 4) == stream_id
                    &&& be32_at(b, 8) == payload.len() as u32
                    &&& b.skip(12) == payload
                },
                FrameView::WindowUpdate { stream_id, flags, delta } => {
                    &&& b.len() == 12
                    &&& b[1] == 1
                    &&& be16_at(b, 2) == flags.bits
                    &&& be32_at(b, 4) == stream_id
                    &&& be32_at(b, 8) == delta
                },
                FrameView::Ping { flags, opaque } => {
                    &&& b.len() == 12
                    &&& b[1] == 2
                    &&& be16_at(b, 2) == flags.bits
                    &&& be32_at(b, 4) == 0
                    &&& be32_at(b, 8) == opaque
                },
                FrameView::GoAway { error_code } => {
                    &&& b.len() == 12
                    &&& b[1] == 3
                    &&& be16_at(b, 2) == 0
                    &&& be32_at(b, 4) == 0
                    &&& be32_at(b, 8) == code_to_u32(error_code)
                },
            }
        }),
{
    let h = frame_header(f);
    lemma_header_fields(h);
    let b = frame_bytes(f);
    assert(b.take(12) =~= header_bytes(h));
    assert(b.skip(12) =~= frame_payload(f));
    assert(b[0] == header_bytes(h)[0] && b[1] == header_bytes(h)[1]);
    assert(be16_at(b, 2) == be16_at(header_bytes(h), 2));
    assert(be32_at(b, 4) == be32_at(header_bytes(h), 4));
    assert(be32_at(b, 8) == be32_at(header_bytes(h), 8));
}

/// Decoding reads the same layout back: a frame decoded from the front of
/// `s` takes its type from byte 1, its flags from bytes 2..4, its stream id
/// from bytes 4..8 and its length field from bytes 8..12, big-endian: a
/// `WindowUpdate` grants the credit in bytes 8..12 to the stream in bytes
/// 4..8, a `Ping` echoes bytes 8..12, a `Data` frame's payload is the bytes
/// after the header.
pub proof fn lemma_decode_layout(s: Seq<u8>, max_payload: u32)
    requires
        decode_frame(s, max_payload) matches Ok(Some(_)),
    ensures
        s[0] == 1,
        decode_frame(s, max_payload) matches Ok(Some((f, n))) && match f {
            FrameView::Data { stream_id, flags, payload } => {
                &&& s[1] == 0
                &&& be16_at(s, 2) == flags.bits
                &&& be32_at(s, 4) == stream_id
                &&& be32_at(s, 8) == payload.len()
                &&& n == 12 + payload.len()
                &&& payload == s.subrange(12, n as int)
            },
            FrameView::WindowUpdate { stream_id, flags, delta } => {
                &&& s[1] == 1
                &&& be16_at(s, 2) == flags.bits
                &&& be32_at(s, 4) == stream_id
                &&& be32_at(s, 8) == delta
                &&& n == 12
            },
            FrameView::Ping { flags, opaque } => {
                &&& s[1] == 2
                &&& be16_at(s, 2) == flags.bits
                &&& be32_at(s, 8) == opaque
                &&& n == 12
            },
            FrameView::GoAway { error_code } => {
                &&& s[1] == 3
                &&& error_code == code_from_u32(be32_at(s, 8) as u32)
                &&& n == 12
            },
        },
{
    let hb = s.take(HEADER_LEN as int);
    let h = decode_header(hb)->Ok_0;
    lemma_from_be32_value(s[4], s[5], s[6], s[7]);
    lemma_from_be32_value(s[8], s[9], s[10], s[11]);
    let fb = super::header::from_be16(s[2], s[3]);
    assert(fb as int == s[2] * 256 + s[3]) by {
        let a = s[2];
        let c = s[3];
        assert(fb as u32 == (a as u32) * 256u32 + (c as u32)) by (bit_vector)
            requires
                fb == ((a as u16) << 8u16) | (c as u16),
        ;
    }
    assert(hb[0] == s[0] && hb[1] == s[1] && hb[2] == s[2] && hb[3] == s[3]);
    assert(hb[4] == s[4] && hb[5] == s[5] && hb[6] == s[6] && hb[7] == s[7]);
    assert(hb[8] == s[8] && hb[9] == s[9] && hb[10] == s[10] && hb[11] == s[11]);
}

/// The number of bytes a buffer holds, as the encoder's precondition speaks
/// of it.
pub fn buffer_len(b: &BytesMut) -> (n: usize)
    ensures
        n == bytes_mut_contents(*b).len(),
{
    bytes_mut_len(b)
}

/// The number of payload bytes that follow a frame's header on the wire;
/// with the header's [`HEADER_LEN`] bytes it is the frame's wire length, as
/// the encoder's precondition speaks of it.
pub fn payload_len(f: &Frame) -> (n: usize)
    ensures
        n == frame_payload(f@).len(),
        HEADER_LEN + n == frame_bytes(f@).len(),
{
    proof {
        super::header::lemma_header_len(frame_header(f@));
    }
    match f {
        Frame::Data { payload, .. } => bytes_len(payload),
        _ => 0,
    }
}

impl Default for FrameCodec {
    fn default() -> (c: Self)
        ensures
            c.wf(),
            c.max_payload() == ABSOLUTE_MAX_PAYLOAD,
    {
        Self::new(ABSOLUTE_MAX_PAYLOAD)
    }
}

} // verus!
