use bytes::{Bytes, BytesMut};
use net_mux::protocol::codec::FrameCodec;
use net_mux::protocol::flags::Flags;
use net_mux::protocol::frame::Frame;
use net_mux::stream::inner::{ack_result, AckStatus, Origin, ReadOutcome, StreamCore, WriteOutcome};
use net_mux::stream::recv::RecvBuffer;
use net_mux::stream::state::StreamState;
use net_mux::Error;

fn read_n(buf: &mut RecvBuffer, n: usize) -> Vec<u8> {
    let mut out = Vec::new();
    buf.read_into(&mut out, n);
    out
}

#[test]
fn drains_in_order() {
    let mut b = RecvBuffer::new();
    b.push(Bytes::from_static(b"hello "));
    b.push(Bytes::from_static(b"world"));
    assert_eq!(read_n(&mut b, 100), b"hello world".to_vec());
    assert!(b.is_empty());
}

#[test]
fn supports_partial_reads() {
    let mut b = RecvBuffer::new();
    b.push(Bytes::from_static(b"abcdef"));
    assert_eq!(read_n(&mut b, 3), b"abc".to_vec());
    assert!(!b.is_empty());
    assert_eq!(read_n(&mut b, 100), b"def".to_vec());
}

#[test]
fn ignores_empty_pushes() {
    let mut b = RecvBuffer::new();
    b.push(Bytes::new());
    assert!(b.is_empty());
}

#[test]
fn read_spans_chunks() {
    let mut b = RecvBuffer::new();
    b.push(Bytes::from_static(b"ab"));
    b.push(Bytes::from_static(b"cde"));
    b.push(Bytes::from_static(b"f"));
    let mut out = vec![b'>'];
    assert_eq!(b.read_into(&mut out, 4), 4);
    assert_eq!(out, b">abcd".to_vec());
    assert_eq!(read_n(&mut b, 10), b"ef".to_vec());
    assert_eq!(b.read_into(&mut out, 10), 0);
}

#[test]
fn state_transitions_report_first_time() {
    let mut s = StreamState::new();
    assert!(s.read_open() && s.write_open() && !s.is_reset());
    assert!(s.close_read());
    assert!(!s.close_read());
    assert!(s.write_open());
    assert!(s.mark_reset());
    assert!(!s.mark_reset());
    assert!(!s.read_open() && !s.write_open() && s.is_reset());
}

fn is_frame(f: &Option<Frame>, id: u32, bits: u16) -> bool {
    matches!(f, Some(Frame::Data { stream_id, flags, payload }) if *stream_id == id && flags.bits() == bits && payload.is_empty())
}

#[test]
fn half_close_keeps_read_open() {
    let mut s = StreamCore::new(1, Origin::Local, 1024, 512);
    let e = s.local_fin();
    assert!(is_frame(&e.frame, 1, 4));
    assert!(!s.write_open());
    assert!(s.can_recv());
    // Peer data still arrives and can be read.
    let (_, r) = s.on_inbound(Flags::empty(), Bytes::from_static(b"world"));
    assert!(r.is_ok());
    let mut out = Vec::new();
    assert!(matches!(s.read(&mut out, 64), ReadOutcome::Read { n: 5, window_update: None }));
    assert_eq!(out, b"world");
    // Writing after the local FIN fails.
    assert!(matches!(s.write(b"x"), WriteOutcome::WriteClosed));
    // A second FIN sends nothing.
    assert!(s.local_fin().frame.is_none());
}

#[test]
fn read_after_remote_fin_drains_then_ends() {
    let mut s = StreamCore::new(2, Origin::Remote, 1024, 512);
    let (e, r) = s.on_inbound(Flags::fin(), Bytes::from_static(b"bye"));
    assert!(r.is_ok() && e.wake_read);
    let mut out = Vec::new();
    assert!(matches!(s.read(&mut out, 2), ReadOutcome::Read { n: 2, .. }));
    assert!(matches!(s.read(&mut out, 2), ReadOutcome::Read { n: 1, .. }));
    assert!(matches!(s.read(&mut out, 2), ReadOutcome::Done));
    assert_eq!(out, b"bye");
}

#[test]
fn empty_read_waits_while_open() {
    let mut s = StreamCore::new(2, Origin::Remote, 1024, 512);
    let mut out = Vec::new();
    assert!(matches!(s.read(&mut out, 8), ReadOutcome::Pending));
    assert!(matches!(s.read(&mut out, 0), ReadOutcome::Done));
}

#[test]
fn read_hands_back_credit_at_half_window() {
    let mut s = StreamCore::new(3, Origin::Remote, 8, 512);
    let (_, r) = s.on_inbound(Flags::empty(), Bytes::from_static(b"abcdef"));
    assert!(r.is_ok());
    let mut out = Vec::new();
    assert!(matches!(s.read(&mut out, 3), ReadOutcome::Read { n: 3, window_update: None }));
    match s.read(&mut out, 3) {
        ReadOutcome::Read { n: 3, window_update: Some(Frame::WindowUpdate { stream_id: 3, delta: 6, .. }) } => {}
        _ => panic!("expected a window update"),
    }
}

#[test]
fn write_is_bounded_by_frame_size_and_credit() {
    let mut s = StreamCore::new(1, Origin::Local, 10, 4);
    match s.write(b"abcdefgh") {
        WriteOutcome::Sent { n: 4, frame: Frame::Data { stream_id: 1, payload, .. } } => {
            assert_eq!(&payload[..], b"abcd")
        }
        _ => panic!("expected a data frame"),
    }
    assert!(matches!(s.write(b"abcdefgh"), WriteOutcome::Sent { n: 4, .. }));
    assert!(matches!(s.write(b"abcdefgh"), WriteOutcome::Sent { n: 2, .. }));
    assert!(matches!(s.write(b"abcdefgh"), WriteOutcome::Pending));
    let e = s.grant_send_credit(3);
    assert!(e.wake_write);
    assert!(matches!(s.write(b"ab"), WriteOutcome::Sent { n: 2, .. }));
    assert!(matches!(s.write(b""), WriteOutcome::Empty));
}

#[test]
fn reset_is_final_and_sends_one_rst() {
    let mut s = StreamCore::new(5, Origin::Local, 64, 64);
    let e = s.local_reset();
    assert!(is_frame(&e.frame, 5, 8));
    assert!(e.notify_closer && e.wake_read && e.wake_write && e.wake_ack);
    assert!(s.local_reset().frame.is_none());
    assert!(s.local_fin().frame.is_none());
    let mut out = Vec::new();
    assert!(matches!(s.read(&mut out, 8), ReadOutcome::Reset));
    assert!(matches!(s.write(b"x"), WriteOutcome::Reset));
    assert_eq!(s.ack_status(), AckStatus::Reset);
}

#[test]
fn fin_then_reset_still_sends_rst() {
    let mut s = StreamCore::new(5, Origin::Local, 64, 64);
    assert!(is_frame(&s.local_fin().frame, 5, 4));
    let e = s.local_reset();
    assert!(is_frame(&e.frame, 5, 8));
    assert!(e.notify_closer);
    assert!(s.local_reset().frame.is_none());
}

#[test]
fn payload_beyond_credit_is_refused() {
    let mut s = StreamCore::new(4, Origin::Remote, 8, 512);
    let (_, r) = s.on_inbound(Flags::empty(), Bytes::from_static(b"abcdef"));
    assert!(r.is_ok());
    assert!(s.within_credit(2));
    assert!(!s.within_credit(3));
    let (e, r) = s.on_inbound(Flags::empty(), Bytes::from_static(b"xyz"));
    assert!(matches!(r, Err(Error::Protocol("flow control window exceeded"))));
    assert!(e.frame.is_none() && !e.wake_read);
    // Nothing of the refused payload was buffered.
    let mut out = Vec::new();
    assert!(matches!(s.read(&mut out, 64), ReadOutcome::Read { n: 6, .. }));
    assert_eq!(out, b"abcdef");
}

#[test]
fn credit_returns_after_window_update() {
    let mut s = StreamCore::new(4, Origin::Remote, 8, 512);
    assert!(s.on_inbound(Flags::empty(), Bytes::from_static(b"abcdefgh")).1.is_ok());
    assert!(!s.within_credit(1));
    let mut out = Vec::new();
    // Reading 8 bytes hands them back in one window update.
    assert!(matches!(s.read(&mut out, 64), ReadOutcome::Read { n: 8, window_update: Some(_) }));
    assert!(s.within_credit(8));
    assert!(!s.within_credit(9));
}

#[test]
fn data_after_fin_resets_the_stream() {
    let mut s = StreamCore::new(7, Origin::Remote, 64, 64);
    s.remote_fin();
    let (e, r) = s.on_inbound(Flags::empty(), Bytes::from_static(b"late"));
    assert!(matches!(r, Err(Error::Protocol("data after FIN"))));
    assert!(is_frame(&e.frame, 7, 8));
    assert!(s.is_reset());
}

#[test]
fn remote_reset_closes_everything() {
    let mut s = StreamCore::new(9, Origin::Local, 64, 64);
    let (e, r) = s.on_inbound(Flags::rst(), Bytes::new());
    assert!(r.is_ok());
    assert!(e.notify_closer && e.wake_read && e.wake_write && e.wake_ack);
    assert!(e.frame.is_none());
    assert!(s.is_reset() && !s.can_recv() && !s.write_open());
}

#[test]
fn open_waits_for_ack() {
    let mut s = StreamCore::new(1, Origin::Local, 64, 64);
    assert_eq!(s.ack_status(), AckStatus::Waiting);
    let (e, _) = s.on_inbound(Flags::ack(), Bytes::new());
    assert!(e.wake_ack);
    assert_eq!(s.ack_status(), AckStatus::Acked);
    let mut t = StreamCore::new(2, Origin::Remote, 64, 64);
    assert_eq!(t.ack_status(), AckStatus::Acked);
    let mut u = StreamCore::new(3, Origin::Local, 64, 64);
    u.force_close();
    assert_eq!(u.ack_status(), AckStatus::Closed);
    t.force_close();
    assert!(!t.can_recv());
}

#[test]
fn drop_sends_fin_once_and_unregisters() {
    let mut s = StreamCore::new(1, Origin::Local, 64, 64);
    let e = s.on_user_drop();
    assert!(is_frame(&e.frame, 1, 4));
    assert!(e.notify_closer);
    let e = s.on_user_drop();
    assert!(e.frame.is_none());
    assert!(e.notify_closer);
}

#[test]
fn failed_send_refunds_credit() {
    let mut s = StreamCore::new(1, Origin::Local, 10, 64);
    assert!(matches!(s.write(b"abcd"), WriteOutcome::Sent { n: 4, .. }));
    s.on_send_failed(4);
    assert!(!s.write_open());
    assert!(matches!(s.write(b"abcd"), WriteOutcome::WriteClosed));
}

#[test]
fn ack_results() {
    assert!(matches!(ack_result(AckStatus::Acked, 3), Some(Ok(()))));
    assert!(matches!(ack_result(AckStatus::Reset, 3), Some(Err(Error::StreamReset(3)))));
    assert!(matches!(ack_result(AckStatus::Closed, 3), Some(Err(Error::SessionClosed))));
    assert!(ack_result(AckStatus::Waiting, 3).is_none());
}

#[test]
fn data_is_delivered_in_order_across_frames() {
    let data: Vec<u8> = (0u8..=200).collect();
    let mut writer = StreamCore::new(1, Origin::Local, 1024, 16);
    let mut reader = StreamCore::new(1, Origin::Remote, 1024, 16);
    let mut codec = FrameCodec::new(16);
    let mut wire = BytesMut::new();

    let mut sent = 0;
    while sent < data.len() {
        match writer.write(&data[sent..]) {
            WriteOutcome::Sent { n, frame } => {
                codec.encode(frame, &mut wire).unwrap();
                sent += n;
            }
            _ => panic!("expected a data frame"),
        }
    }
    while let Some(frame) = codec.decode(&mut wire).unwrap() {
        match frame {
            Frame::Data { flags, payload, .. } => assert!(reader.on_inbound(flags, payload).1.is_ok()),
            _ => panic!("wrong frame type"),
        }
    }
    let mut out = Vec::new();
    while let ReadOutcome::Read { .. } = reader.read(&mut out, 50) {}
    assert_eq!(out, data);
}

/// Push `data` from a writer to a reader stream with `window` bytes of
/// credit and frames of at most `frame` bytes, reading `room` bytes at a
/// time whenever the writer stalls and handing the window updates back.
/// Returns what was read and how often the writer stalled.
fn pump(data: &[u8], window: u32, frame: u32, room: usize) -> (Vec<u8>, usize) {
    let mut writer = StreamCore::new(1, Origin::Local, window, frame);
    let mut reader = StreamCore::new(1, Origin::Remote, window, frame);
    let mut out = Vec::new();
    let mut sent = 0;
    let mut stalls = 0;
    while out.len() < data.len() {
        match writer.write(&data[sent..]) {
            WriteOutcome::Sent { n, frame: Frame::Data { flags, payload, .. } } => {
                sent += n;
                assert!(reader.on_inbound(flags, payload).1.is_ok());
            }
            WriteOutcome::Pending | WriteOutcome::Empty => {
                stalls += 1;
                match reader.read(&mut out, room) {
                    ReadOutcome::Read { window_update, .. } => {
                        if let Some(Frame::WindowUpdate { delta, .. }) = window_update {
                            writer.grant_send_credit(delta);
                        }
                    }
                    _ => panic!("expected buffered data"),
                }
            }
            _ => panic!("unexpected write outcome"),
        }
    }
    assert!(is_frame(&writer.local_fin().frame, 1, 4));
    reader.remote_fin();
    assert!(matches!(reader.read(&mut out, 64), ReadOutcome::Done));
    (out, stalls)
}

#[test]
fn large_payload_crosses_a_small_window() {
    // 64 KiB through a 4 KiB window and 1 KiB frames: the writer stalls
    // until the reader's window updates come back, and nothing is refused.
    let data: Vec<u8> = (0..64 * 1024).map(|i: usize| (i * 7 % 251) as u8).collect();
    let (out, stalls) = pump(&data, 4096, 1024, 1500);
    assert!(stalls > 0);
    assert_eq!(out, data);
}

#[test]
fn many_small_frames_keep_their_order() {
    // 100 000 big-endian u32s through 1 KiB frames and a 64 KiB window.
    let mut data = Vec::new();
    for i in 0u32..100_000 {
        data.extend_from_slice(&i.to_be_bytes());
    }
    let (out, stalls) = pump(&data, 64 * 1024, 1024, 4096);
    assert!(stalls > 0);
    assert_eq!(out, data);
}
