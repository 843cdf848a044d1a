use bytes::{Bytes, BytesMut};
use net_mux::protocol::codec::{buffer_len, payload_len, FrameCodec};
use net_mux::protocol::flags::Flags;
use net_mux::protocol::frame::Frame;
use net_mux::protocol::header::{FrameType, Header, HEADER_LEN, PROTOCOL_VERSION};
use net_mux::{Error, ErrorCode};

fn roundtrip_one(frame: Frame) -> Frame {
    let mut codec = FrameCodec::default();
    let mut buf = BytesMut::new();
    codec.encode(frame, &mut buf).unwrap();
    codec.decode(&mut buf).unwrap().unwrap()
}

#[test]
fn roundtrip() {
    let h = Header {
        version: PROTOCOL_VERSION,
        frame_type: FrameType::Data,
        flags: Flags::syn() | Flags::ack(),
        stream_id: 0xDEAD_BEEF,
        length: 12345,
    };
    let mut buf = [0u8; HEADER_LEN];
    h.encode(&mut buf);
    let decoded = Header::decode(&buf).unwrap();
    assert_eq!(h, decoded);
}

#[test]
fn rejects_bad_version() {
    let mut buf = [0u8; HEADER_LEN];
    buf[0] = 99;
    assert!(matches!(
        Header::decode(&buf),
        Err(Error::Protocol("unsupported protocol version"))
    ));
}

#[test]
fn rejects_unknown_type() {
    let mut buf = [0u8; HEADER_LEN];
    buf[0] = PROTOCOL_VERSION;
    buf[1] = 99;
    assert!(matches!(
        Header::decode(&buf),
        Err(Error::Protocol("unknown frame type"))
    ));
}

#[test]
fn data_roundtrip() {
    let payload = Bytes::from_static(b"hello, world");
    let frame = Frame::Data {
        stream_id: 7,
        flags: Flags::syn() | Flags::ack(),
        payload: payload.clone(),
    };
    match roundtrip_one(frame) {
        Frame::Data {
            stream_id,
            flags,
            payload: out,
        } => {
            assert_eq!(stream_id, 7);
            assert_eq!(flags, Flags::syn() | Flags::ack());
            assert_eq!(out, payload);
        }
        _ => panic!("wrong frame type"),
    }
}

#[test]
fn empty_data_roundtrip() {
    let frame = Frame::fin(11);
    match roundtrip_one(frame) {
        Frame::Data {
            stream_id,
            flags,
            payload,
        } => {
            assert_eq!(stream_id, 11);
            assert_eq!(flags, Flags::fin());
            assert!(payload.is_empty());
        }
        _ => panic!("wrong frame type"),
    }
}

#[test]
fn window_update_roundtrip() {
    match roundtrip_one(Frame::window_update(3, 64 * 1024)) {
        Frame::WindowUpdate {
            stream_id, delta, ..
        } => {
            assert_eq!(stream_id, 3);
            assert_eq!(delta, 64 * 1024);
        }
        _ => panic!("wrong frame type"),
    }
}

#[test]
fn ping_roundtrip() {
    match roundtrip_one(Frame::ping(0xCAFEBABE)) {
        Frame::Ping { flags, opaque } => {
            assert_eq!(flags, Flags::empty());
            assert_eq!(opaque, 0xCAFE_BABE);
        }
        _ => panic!("wrong frame type"),
    }
    match roundtrip_one(Frame::pong(0xCAFEBABE)) {
        Frame::Ping { flags, opaque } => {
            assert_eq!(flags, Flags::ack());
            assert_eq!(opaque, 0xCAFE_BABE);
        }
        _ => panic!("wrong frame type"),
    }
}

#[test]
fn goaway_roundtrip() {
    match roundtrip_one(Frame::go_away(ErrorCode::FlowControlError)) {
        Frame::GoAway { error_code } => assert_eq!(error_code, ErrorCode::FlowControlError),
        _ => panic!("wrong frame type"),
    }
}

#[test]
fn partial_decode_returns_none() {
    let mut codec = FrameCodec::default();
    let mut buf = BytesMut::new();
    // only 4 bytes of a header
    buf.extend_from_slice(&[1, 0, 0, 0]);
    assert!(codec.decode(&mut buf).unwrap().is_none());
}

#[test]
fn enforces_max_payload() {
    let mut codec = FrameCodec::new(8);
    let frame = Frame::Data {
        stream_id: 1,
        flags: Flags::empty(),
        payload: Bytes::from_static(b"too long payload"),
    };
    let mut buf = BytesMut::new();
    let err = codec.encode(frame, &mut buf).unwrap_err();
    assert!(matches!(err, Error::Protocol(_)));
}

// ---------------------------------------------------------------------
// Further cases
// ---------------------------------------------------------------------

#[test]
fn header_wire_layout_is_big_endian() {
    let h = Header::new(
        PROTOCOL_VERSION,
        FrameType::WindowUpdate,
        Flags::rst(),
        0x0102_0304,
        0x0A0B_0C0D,
    );
    let mut buf = [0u8; HEADER_LEN];
    h.encode(&mut buf);
    assert_eq!(
        buf,
        [1, 1, 0, 8, 0x01, 0x02, 0x03, 0x04, 0x0A, 0x0B, 0x0C, 0x0D]
    );
}

#[test]
fn rejects_unknown_flag_bits() {
    let mut buf = [0u8; HEADER_LEN];
    buf[0] = PROTOCOL_VERSION;
    buf[3] = 0x10;
    assert!(matches!(
        Header::decode(&buf),
        Err(Error::Protocol("unknown flag bits"))
    ));
}

#[test]
fn frame_type_bytes() {
    assert_eq!(FrameType::Data.to_u8(), 0);
    assert_eq!(FrameType::GoAway.to_u8(), 3);
    assert!(matches!(FrameType::try_from_u8(2), Ok(FrameType::Ping)));
    assert!(matches!(
        FrameType::try_from_u8(4),
        Err(Error::Protocol("unknown frame type"))
    ));
}

#[test]
fn flags_from_bits_and_contains() {
    assert_eq!(Flags::from_bits(0xF), Some(Flags::syn() | Flags::ack() | Flags::fin() | Flags::rst()));
    assert_eq!(Flags::from_bits(0x10), None);
    let f = Flags::syn() | Flags::fin();
    assert!(f.contains(Flags::syn()));
    assert!(f.contains(Flags::fin()));
    assert!(!f.contains(Flags::ack()));
    assert!(Flags::empty().is_empty());
    assert_eq!(f.bits(), 5);
}

#[test]
fn frames_decode_in_order_from_one_buffer() {
    let mut codec = FrameCodec::default();
    let mut buf = BytesMut::new();
    codec
        .encode(Frame::data(5, Flags::empty(), Bytes::from_static(b"abc")), &mut buf)
        .unwrap();
    codec.encode(Frame::ping(9), &mut buf).unwrap();
    codec.encode(Frame::go_away(ErrorCode::Unknown(77)), &mut buf).unwrap();
    assert_eq!(buf.len(), 15 + 12 + 12);

    match codec.decode(&mut buf).unwrap().unwrap() {
        Frame::Data { stream_id, payload, .. } => {
            assert_eq!(stream_id, 5);
            assert_eq!(&payload[..], b"abc");
        }
        _ => panic!("wrong frame type"),
    }
    assert!(matches!(
        codec.decode(&mut buf).unwrap().unwrap(),
        Frame::Ping { opaque: 9, .. }
    ));
    assert!(matches!(
        codec.decode(&mut buf).unwrap().unwrap(),
        Frame::GoAway { error_code: ErrorCode::Unknown(77) }
    ));
    assert_eq!(buf.len(), 0);
    assert!(codec.decode(&mut buf).unwrap().is_none());
}

#[test]
fn partial_payload_waits_and_keeps_buffer() {
    let mut codec = FrameCodec::default();
    let mut full = BytesMut::new();
    codec
        .encode(Frame::data(1, Flags::empty(), Bytes::from_static(b"hello")), &mut full)
        .unwrap();
    let mut part = BytesMut::from(&full[..14]);
    assert!(codec.decode(&mut part).unwrap().is_none());
    assert_eq!(part.len(), 14);
}

#[test]
fn decoder_rejects_oversized_payload() {
    let mut big = FrameCodec::new(64);
    let mut buf = BytesMut::new();
    big.encode(Frame::data(1, Flags::empty(), Bytes::from(vec![0u8; 32])), &mut buf)
        .unwrap();
    let mut small = FrameCodec::new(16);
    assert!(matches!(
        small.decode(&mut buf),
        Err(Error::Protocol("frame payload exceeds limit"))
    ));
    assert_eq!(buf.len(), 12 + 32);
}

#[test]
fn encode_rejection_leaves_buffer_untouched() {
    let mut codec = FrameCodec::new(2);
    let mut buf = BytesMut::from(&b"xy"[..]);
    let r = codec.encode(
        Frame::data(3, Flags::empty(), Bytes::from_static(b"abc")),
        &mut buf,
    );
    assert!(matches!(r, Err(Error::Protocol("data payload exceeds limit"))));
    assert_eq!(&buf[..], b"xy");
}

#[test]
fn codec_limit_is_capped() {
    let mut codec = FrameCodec::new(u32::MAX);
    let mut buf = BytesMut::new();
    // A header announcing a payload above the absolute cap is refused.
    let h = Header::new(PROTOCOL_VERSION, FrameType::Data, Flags::empty(), 1, 16 * 1024 * 1024 + 1);
    let mut hb = [0u8; HEADER_LEN];
    h.encode(&mut hb);
    buf.extend_from_slice(&hb);
    assert!(matches!(
        codec.decode(&mut buf),
        Err(Error::Protocol("frame payload exceeds limit"))
    ));
}

#[test]
fn goaway_code_wire_values() {
    let mut codec = FrameCodec::default();
    let mut buf = BytesMut::new();
    codec.encode(Frame::go_away(ErrorCode::Timeout), &mut buf).unwrap();
    assert_eq!(&buf[8..12], &[0, 0, 0, 6]);
    // A non-canonical `Unknown(3)` comes back as the named code.
    let mut buf = BytesMut::new();
    codec.encode(Frame::go_away(ErrorCode::Unknown(3)), &mut buf).unwrap();
    assert!(matches!(
        codec.decode(&mut buf).unwrap().unwrap(),
        Frame::GoAway { error_code: ErrorCode::FlowControlError }
    ));
}

#[test]
fn buffer_len_counts_bytes() {
    let mut codec = FrameCodec::default();
    let mut buf = BytesMut::new();
    assert_eq!(buffer_len(&buf), 0);
    codec.encode(Frame::ping(1), &mut buf).unwrap();
    assert_eq!(buffer_len(&buf), HEADER_LEN);
}

#[test]
fn payload_len_of_frames() {
    assert_eq!(payload_len(&Frame::data(1, Flags::empty(), Bytes::from_static(b"abcd"))), 4);
    assert_eq!(payload_len(&Frame::ping(3)), 0);
    assert_eq!(payload_len(&Frame::window_update(1, 99)), 0);
}
