use bytes::Bytes;
use net_mux::error::Error;
use net_mux::protocol::flags::Flags;
use net_mux::protocol::frame::Frame;
use net_mux::session::control::{
    next_nonce, on_ping, open_timed_out, shutdown_code, unknown_stream_needs_rst, DataRoute,
    PingAction, SessionControl,
};
use net_mux::session::keepalive::{keepalive_step, KeepaliveAction, KeepaliveEvent, KeepaliveState};
use net_mux::session::registry::StreamRegistry;
use net_mux::util::id::{Role, StreamIdAllocator};
use net_mux::ErrorCode;

#[test]
fn allocates_with_correct_parity() {
    let mut client = StreamIdAllocator::new(Role::Client);
    assert_eq!(client.allocate(), Some(1));
    assert_eq!(client.allocate(), Some(3));
    assert_eq!(client.allocate(), Some(5));

    let mut server = StreamIdAllocator::new(Role::Server);
    assert_eq!(server.allocate(), Some(2));
    assert_eq!(server.allocate(), Some(4));
}

#[test]
fn role_owns_check() {
    assert!(Role::Client.owns(1));
    assert!(!Role::Client.owns(2));
    assert!(Role::Server.owns(2));
    assert!(!Role::Server.owns(0));
    assert!(!Role::Server.owns(1));
}

#[test]
fn first_ids() {
    assert_eq!(Role::Client.first_id(), 1);
    assert_eq!(Role::Server.first_id(), 2);
}

#[test]
fn open_checks_in_order() {
    let mut c = SessionControl::new(Role::Client, 2);
    assert_eq!(c.begin_open(0).unwrap(), 1);
    assert_eq!(c.begin_open(1).unwrap(), 3);
    assert!(matches!(c.begin_open(2), Err(Error::TooManyStreams(2))));
    let go_away = c.initiate_shutdown(ErrorCode::Normal);
    assert!(matches!(go_away, Some(Frame::GoAway { error_code: ErrorCode::Normal })));
    assert!(c.initiate_shutdown(ErrorCode::Normal).is_none());
    assert!(c.is_closed());
    assert!(matches!(c.begin_open(0), Err(Error::SessionClosed)));
}

#[test]
fn no_open_after_peer_go_away() {
    let mut c = SessionControl::new(Role::Server, 8);
    assert!(c.on_go_away(ErrorCode::Timeout));
    assert!(!c.on_go_away(ErrorCode::Timeout));
    // The session stays open for established streams.
    assert!(c.peer_gone() && !c.is_closed());
    assert!(c.no_new_streams());
    assert!(matches!(c.begin_open(0), Err(Error::SessionClosed)));
    assert!(matches!(c.route_data(0, 1, Flags::syn()), DataRoute::Refuse));
    assert!(matches!(c.route_data(0, 1, Flags::empty()), DataRoute::Deliver));
}

#[test]
fn route_inbound_data() {
    let c = SessionControl::new(Role::Client, 1);
    assert!(matches!(
        c.route_data(0, 0, Flags::empty()),
        DataRoute::Reject("data on stream id 0")
    ));
    assert!(matches!(
        c.route_data(0, 3, Flags::syn()),
        DataRoute::Reject("peer SYN with our parity")
    ));
    assert!(matches!(c.route_data(0, 2, Flags::syn()), DataRoute::Open));
    assert!(matches!(c.route_data(1, 2, Flags::syn()), DataRoute::Refuse));
    assert!(matches!(c.route_data(1, 2, Flags::ack()), DataRoute::Deliver));
}

#[test]
fn no_peer_stream_after_own_shutdown() {
    let mut c = SessionControl::new(Role::Client, 8);
    assert!(!c.no_new_streams());
    assert!(c.initiate_shutdown(ErrorCode::Normal).is_some());
    assert!(c.no_new_streams());
    assert!(matches!(c.route_data(0, 2, Flags::syn()), DataRoute::Refuse));
}

#[test]
fn unknown_stream_replies() {
    assert!(unknown_stream_needs_rst(Flags::empty()));
    assert!(unknown_stream_needs_rst(Flags::fin()));
    assert!(!unknown_stream_needs_rst(Flags::ack()));
    assert!(!unknown_stream_needs_rst(Flags::rst()));
}

#[test]
fn ping_handling() {
    assert!(matches!(on_ping(Flags::ack(), 42), PingAction::PongReceived(42)));
    match on_ping(Flags::empty(), 42) {
        PingAction::Reply(Frame::Ping { flags, opaque: 42 }) => assert_eq!(flags, Flags::ack()),
        _ => panic!("expected a pong"),
    }
}

#[test]
fn shutdown_codes() {
    assert_eq!(shutdown_code(&Error::Protocol("x")), ErrorCode::ProtocolError);
    assert_eq!(
        shutdown_code(&Error::Protocol("unsupported protocol version")),
        ErrorCode::InvalidVersion
    );
    assert_eq!(
        shutdown_code(&Error::Protocol("flow control window exceeded")),
        ErrorCode::FlowControlError
    );
    assert_eq!(shutdown_code(&Error::Protocol("unknown frame type")), ErrorCode::ProtocolError);
    assert_eq!(shutdown_code(&Error::Timeout), ErrorCode::InternalError);
}

#[test]
fn nonce_wraps() {
    assert_eq!(next_nonce(0), 1);
    assert_eq!(next_nonce(u32::MAX), 0);
}

#[test]
fn registry_refuses_duplicates() {
    let mut r: StreamRegistry<Bytes> = StreamRegistry::new();
    assert!(r.insert(1, Bytes::from_static(b"a")).is_ok());
    assert!(matches!(
        r.insert(1, Bytes::from_static(b"b")),
        Err(Error::Protocol("duplicate stream id"))
    ));
    assert_eq!(r.get(1).unwrap(), &Bytes::from_static(b"a"));
    assert_eq!(r.len(), 1);
    assert!(r.remove(1).is_some());
    assert!(r.get(1).is_none());
    r.insert(3, Bytes::new()).unwrap();
    r.insert(5, Bytes::new()).unwrap();
    let all = r.drain();
    assert_eq!(all.len(), 2);
    assert_eq!(r.len(), 0);
}

#[test]
fn open_timeout_resets_the_stream() {
    let (frame, err) = open_timed_out(7);
    assert!(matches!(frame, Frame::Data { stream_id: 7, flags, .. } if flags == Flags::rst()));
    assert!(matches!(err, Error::Timeout));
}

#[test]
fn keepalive_times_out_without_matching_reply() {
    let s = KeepaliveState::new();
    let (s, a) = keepalive_step(s, KeepaliveEvent::Tick);
    assert_eq!(a, KeepaliveAction::SendPing(1));
    assert_eq!(s.awaiting, Some(1));
    let (s, a) = keepalive_step(s, KeepaliveEvent::Pong(7));
    assert_eq!(a, KeepaliveAction::Nothing);
    assert_eq!(s.awaiting, Some(1));
    let (_, a) = keepalive_step(s, KeepaliveEvent::DeadlinePassed);
    assert_eq!(a, KeepaliveAction::Shutdown(ErrorCode::Timeout));
}

#[test]
fn keepalive_matching_reply_clears_wait() {
    let s = KeepaliveState { nonce: u32::MAX, awaiting: None };
    let (s, a) = keepalive_step(s, KeepaliveEvent::Tick);
    assert_eq!(a, KeepaliveAction::SendPing(0));
    let (s, _) = keepalive_step(s, KeepaliveEvent::Pong(0));
    assert_eq!(s.awaiting, None);
    let (_, a) = keepalive_step(s, KeepaliveEvent::DeadlinePassed);
    assert_eq!(a, KeepaliveAction::Nothing);
}

#[test]
fn shutdown_drains_the_registry_once() {
    let mut c = SessionControl::new(Role::Client, 8);
    let mut reg: StreamRegistry<&str> = StreamRegistry::new();
    assert!(reg.insert(1, "one").is_ok());
    assert!(reg.insert(3, "three").is_ok());
    match c.shutdown(&mut reg, ErrorCode::Normal) {
        Some((Frame::GoAway { error_code: ErrorCode::Normal }, all)) => {
            assert_eq!(all.len(), 2);
            assert_eq!(all.get(&1), Some(&"one"));
            assert_eq!(all.get(&3), Some(&"three"));
        }
        _ => panic!("expected a GoAway and the registered streams"),
    }
    assert_eq!(reg.len(), 0);
    assert!(c.is_closed());
    // A second shutdown, here after a stream slipped in, sends nothing and
    // leaves the registry alone.
    assert!(reg.insert(5, "five").is_ok());
    assert!(c.shutdown(&mut reg, ErrorCode::ProtocolError).is_none());
    assert_eq!(reg.len(), 1);
}
