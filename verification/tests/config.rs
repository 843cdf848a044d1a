use std::time::Duration;

use net_mux::{Config, ErrorCode, IoKind};

#[test]
fn defaults() {
    let c = Config::default();
    assert_eq!(c.initial_stream_window, 256 * 1024);
    assert_eq!(c.max_frame_size, 64 * 1024);
    assert_eq!(c.max_streams, 1024);
    assert_eq!(c.keepalive_interval, Some(Duration::from_secs(30)));
    assert_eq!(c.keepalive_timeout, Duration::from_secs(30));
    assert_eq!(c.open_timeout, Duration::from_secs(10));
}

#[test]
fn builder_overrides_and_clamps() {
    let c = Config::builder()
        .initial_stream_window(512 * 1024)
        .max_frame_size(0)
        .max_streams(0)
        .keepalive_interval(None)
        .keepalive_timeout(Duration::from_millis(500))
        .open_timeout(Duration::from_secs(1))
        .build();
    assert_eq!(c.initial_stream_window, 512 * 1024);
    assert_eq!(c.max_frame_size, 1);
    assert_eq!(c.max_streams, 1);
    assert_eq!(c.keepalive_interval, None);
    assert_eq!(c.keepalive_timeout, Duration::from_millis(500));
    assert_eq!(c.open_timeout, Duration::from_secs(1));
}

#[test]
fn error_code_wire_values() {
    assert_eq!(ErrorCode::Normal.as_u32(), 0);
    assert_eq!(ErrorCode::Timeout.as_u32(), 6);
    assert_eq!(ErrorCode::Unknown(99).as_u32(), 99);
    assert_eq!(ErrorCode::from(4), ErrorCode::StreamLimit);
    assert_eq!(ErrorCode::from(7), ErrorCode::Unknown(7));
    for v in [0u32, 1, 2, 3, 4, 5, 6, 7, 1000, u32::MAX] {
        assert_eq!(ErrorCode::from(v).as_u32(), v);
    }
}

#[test]
fn error_code_descriptions() {
    assert_eq!(ErrorCode::Normal.to_string(), "normal");
    assert_eq!(ErrorCode::FlowControlError.to_string(), "flow control error");
    assert_eq!(ErrorCode::Unknown(1234).to_string(), "unknown error code 1234");
    assert_eq!(ErrorCode::Unknown(7).to_string(), "unknown error code 7");
    assert_eq!(ErrorCode::Unknown(10).to_string(), "unknown error code 10");
    assert_eq!(ErrorCode::Unknown(u32::MAX).to_string(), "unknown error code 4294967295");
}

#[test]
fn io_error_converts() {
    let e: net_mux::Error = std::io::Error::other("boom").into();
    assert!(matches!(e, net_mux::Error::Io(_)));
}

#[test]
fn errors_surface_as_io_kinds() {
    assert_eq!(net_mux::Error::SessionClosed.io_kind(), Some(IoKind::NotConnected));
    assert_eq!(net_mux::Error::GoAway(ErrorCode::Normal).io_kind(), Some(IoKind::NotConnected));
    assert_eq!(net_mux::Error::StreamReset(3).io_kind(), Some(IoKind::ConnectionReset));
    assert_eq!(net_mux::Error::Timeout.io_kind(), Some(IoKind::TimedOut));
    assert_eq!(net_mux::Error::Protocol("bad").io_kind(), Some(IoKind::InvalidData));
    assert_eq!(net_mux::Error::TooManyStreams(1).io_kind(), Some(IoKind::Other));
    assert_eq!(net_mux::Error::Io(std::io::Error::other("x")).io_kind(), None);
}
