//! The session's own state and the decisions it takes on it.

use std::collections::HashMap;

use vstd::prelude::*;
use vstd::string::*;

use crate::error::{Error, ErrorCode};
use crate::protocol::flags::Flags;
use crate::protocol::frame::{Frame, FrameView};
use crate::util::id::{Role, StreamId, StreamIdAllocator};

use super::registry::StreamRegistry;

verus! {

/// Where an inbound `Data` frame goes.
#[derive(Debug)]
pub enum DataRoute {
    /// A protocol violation: the session shuts down with this error.
    Reject(&'static str),
    /// The peer's new stream is refused with a `RST`.
    Refuse,
    /// The peer opens a new stream: create and register it, hand it to the
    /// acceptor, then deliver the frame to it.
    Open,
    /// Deliver the frame to the stream registered under its id, if any.
    Deliver,
}

/// What to do with an inbound `Ping`.
#[derive(Debug)]
pub enum PingAction {
    /// A reply to our probe: hand its opaque value to the keepalive task.
    PongReceived(u32),
    /// A probe from the peer: send back this reply.
    Reply(Frame),
}

/// The session state the decisions read and change.
#[derive(Debug)]
pub struct SessionControl {
    role: Role,
    max_streams: usize,
    id_alloc: StreamIdAllocator,
    closing: bool,
    peer_gone: bool,
}

/// The state of a session, as plain values.
pub struct SessionControlView {
    pub role: Role,
    pub max_streams: usize,
    pub next_id: u32,
    pub closing: bool,
    pub peer_gone: bool,
}

impl View for SessionControl {
    type V = SessionControlView;

    closed spec fn view(&self) -> SessionControlView {
        SessionControlView {
            role: self.role,
            max_streams: self.max_streams,
            next_id: self.id_alloc.next_id(),
            closing: self.closing,
            peer_gone: self.peer_gone,
        }
    }
}

impl SessionControl {
    /// The allocator is the role's and hands out only the role's ids.
    pub closed spec fn wf(self) -> bool {
        &&& self.id_alloc.wf()
        &&& self.id_alloc.role() == self.role
    }

    /// A session of the given role that has opened no stream yet.
    pub fn new(role: Role, max_streams: usize) -> (c: Self)
        ensures
            c.wf(),
            c@ == (SessionControlView {
                role,
                max_streams,
                next_id: role.spec_first_id(),
                closing: false,
                peer_gone: false,
            }),
    {
        SessionControl {
            role,
            max_streams,
            id_alloc: StreamIdAllocator::new(role),
            closing: false,
            peer_gone: false,
        }
    }

    pub fn role(&self) -> (r: Role)
        ensures
            r == self@.role,
    {
        self.role
    }

    /// Whether shutdown has begun.
    pub fn is_closed(&self) -> (b: bool)
        ensures
            b == self@.closing,
    {
        self.closing
    }

    /// Whether the session takes no new stream any more: shutdown has begun
    /// or the peer's `GoAway` has been seen.
    pub fn no_new_streams(&self) -> (b: bool)
        ensures
            b == (self@.closing || self@.peer_gone),
    {
        self.closing || self.peer_gone
    }

    /// Whether the peer's `GoAway` has been seen.
    pub fn peer_gone(&self) -> (b: bool)
        ensures
            b == self@.peer_gone,
    {
        self.peer_gone
    }

    /// Decide whether a new outbound stream may open while `open_streams`
    /// streams are registered, and allocate its id: refused once the session
    /// closes or the peer went away, at the stream limit, and when the id
    /// space is exhausted.
    pub fn begin_open(&mut self, open_streams: usize) -> (r: Result<StreamId, Error>)
        requires
            old(self).wf(),
        ensures
            final(self).wf(),
            old(self)@.closing || old(self)@.peer_gone ==> r == Err::<StreamId, Error>(
                Error::SessionClosed,
            ) && final(self)@ == old(self)@,
            !(old(self)@.closing || old(self)@.peer_gone) && open_streams >= old(self)@.max_streams
                ==> r == Err::<StreamId, Error>(Error::TooManyStreams(old(self)@.max_streams))
                && final(self)@ == old(self)@,
            !(old(self)@.closing || old(self)@.peer_gone) && open_streams < old(self)@.max_streams
                ==> {
                if old(self)@.next_id + 2 <= u32::MAX {
                    &&& r == Ok::<StreamId, Error>(old(self)@.next_id)
                    &&& old(self)@.role.spec_owns(old(self)@.next_id)
                    &&& final(self)@ == (SessionControlView {
                        next_id: (old(self)@.next_id + 2) as u32,
                        ..old(self)@
                    })
                } else {
                    &&& r == Err::<StreamId, Error>(Error::TooManyStreams(usize::MAX))
                    &&& final(self)@ == old(self)@
                }
            },
    {
        if self.closing || self.peer_gone {
            return Err(Error::SessionClosed);
        }
        if open_streams >= self.max_streams {
            return Err(Error::TooManyStreams(self.max_streams));
        }
        match self.id_alloc.allocate() {
            Some(id) => Ok(id),
            None => Err(Error::TooManyStreams(usize::MAX)),
        }
    }

    /// Begin shutdown: the first call returns the `GoAway` frame carrying
    /// `code`; later calls do nothing.
    pub fn initiate_shutdown(&mut self, code: ErrorCode) -> (r: Option<Frame>)
        requires
            old(self).wf(),
        ensures
            final(self).wf(),
            final(self)@ == (SessionControlView { closing: true, ..old(self)@ }),
            old(self)@.closing ==> r is None,
            !old(self)@.closing ==> (r matches Some(f) && f@ == (FrameView::GoAway {
                error_code: code,
            })),
    {
        if self.closing {
            return None;
        }
        self.closing = true;
        Some(Frame::go_away(code))
    }

    /// Shut the session down: the first call returns the `GoAway` frame
    /// carrying `code` together with every stream registered at that point,
    /// emptying the registry (the caller force-closes each of them); later
    /// calls do nothing and return `None`.
    pub fn shutdown<V>(&mut self, registry: &mut StreamRegistry<V>, code: ErrorCode) -> (r: Option<
        (Frame, HashMap<StreamId, V>),
    >)
        requires
            old(self).wf(),
        ensures
            final(self).wf(),
            final(self)@ == (SessionControlView { closing: true, ..old(self)@ }),
            old(self)@.closing ==> r is None && final(registry)@ == old(registry)@,
            !old(self)@.closing ==> {
                &&& r matches Some((f, all)) && f@ == (FrameView::GoAway { error_code: code })
                    && all@ == old(registry)@
                &&& final(registry)@ == Map::<StreamId, V>::empty()
            },
    {
        match self.initiate_shutdown(code) {
            Some(f) => Some((f, registry.drain())),
            None => None,
        }
    }

    /// Mark the peer as having gone away; returns whether this is the first
    /// time. New opens are refused from now on.
    pub fn note_peer_gone(&mut self) -> (first: bool)
        requires
            old(self).wf(),
        ensures
            final(self).wf(),
            first == !old(self)@.peer_gone,
            final(self)@ == (SessionControlView { peer_gone: true, ..old(self)@ }),
    {
        let first = !self.peer_gone;
        self.peer_gone = true;
        first
    }

    /// The peer sent `GoAway` with `code`: from now on no new stream opens
    /// in either direction, while streams already established keep
    /// operating until their own `FIN` or `RST`; the session itself stays
    /// open. Returns whether this is the first `GoAway` seen.
    pub fn on_go_away(&mut self, code: ErrorCode) -> (first: bool)
        requires
            old(self).wf(),
        ensures
            final(self).wf(),
            first == !old(self)@.peer_gone,
            final(self)@ == (SessionControlView { peer_gone: true, ..old(self)@ }),
    {
        self.note_peer_gone()
    }

    /// Route an inbound `Data` frame while `open_streams` streams are
    /// registered.
    ///
    /// Stream id 0 is a violation. A `SYN` opens a stream of the peer's: one
    /// with our own parity is a violation, and after `GoAway` in either
    /// direction or at the stream limit it is refused. Anything else is
    /// delivered.
    pub fn route_data(&self, open_streams: usize, stream_id: StreamId, flags: Flags) -> (r:
        DataRoute)
        ensures
            r == spec_route_data(self@, open_streams, stream_id, flags),
            stream_id != 0 && !flags.spec_contains(Flags { bits: 1 }) ==> r == DataRoute::Deliver,
    {
        if stream_id == 0 {
            return DataRoute::Reject("data on stream id 0");
        }
        if flags.contains(Flags::syn()) {
            if self.role.owns(stream_id) {
                return DataRoute::Reject("peer SYN with our parity");
            }
            if self.peer_gone || self.closing {
                return DataRoute::Refuse;
            }
            if open_streams >= self.max_streams {
                return DataRoute::Refuse;
            }
            return DataRoute::Open;
        }
        DataRoute::Deliver
    }
}

/// Where [`SessionControl::route_data`] sends a `Data` frame.
pub open spec fn spec_route_data(
    s: SessionControlView,
    open_streams: usize,
    stream_id: StreamId,
    flags: Flags,
) -> DataRoute {
    if stream_id == 0 {
        DataRoute::Reject("data on stream id 0")
    } else if flags.spec_contains(Flags { bits: 1 }) {
        if s.role.spec_owns(stream_id) {
            DataRoute::Reject("peer SYN with our parity")
        } else if s.peer_gone || s.closing || open_streams >= s.max_streams {
            DataRoute::Refuse
        } else {
            DataRoute::Open
        }
    } else {
        DataRoute::Deliver
    }
}

/// Only a `SYN` is ever checked: every other `Data` frame on a non-zero
/// stream id (an `ACK`, data, `FIN` or `RST`) is delivered to its stream,
/// whatever the id's parity, the session's state or the number of open
/// streams; a `SYN` is never delivered as data.
pub proof fn lemma_only_syn_is_checked(
    s: SessionControlView,
    open_streams: usize,
    stream_id: StreamId,
    flags: Flags,
)
    ensures
        stream_id != 0 && !flags.spec_contains(Flags { bits: 1 }) ==> spec_route_data(
            s,
            open_streams,
            stream_id,
            flags,
        ) == DataRoute::Deliver,
        flags.spec_contains(Flags { bits: 1 }) ==> spec_route_data(
            s,
            open_streams,
            stream_id,
            flags,
        ) != DataRoute::Deliver,
        // A SYN on an id of our own parity (odd for a client, even for a
        // server) is a violation.
        stream_id != 0 && flags.spec_contains(Flags { bits: 1 }) && (if s.role is Client {
            stream_id % 2 == 1
        } else {
            stream_id % 2 == 0
        }) ==> spec_route_data(s, open_streams, stream_id, flags) is Reject,
        // A SYN on the peer's parity opens a stream exactly while no GoAway
        // went either way and the limit is not reached; otherwise it is
        // refused.
        stream_id != 0 && flags.spec_contains(Flags { bits: 1 }) && (if s.role is Client {
            stream_id % 2 == 0
        } else {
            stream_id % 2 == 1
        }) ==> spec_route_data(s, open_streams, stream_id, flags) == if !s.closing
            && !s.peer_gone && open_streams < s.max_streams {
            DataRoute::Open
        } else {
            DataRoute::Refuse
        },
        stream_id == 0 ==> spec_route_data(s, open_streams, stream_id, flags) is Reject,
{
}

/// For a `Data` frame addressed to a stream we do not know: whether to
/// answer with a `RST`. `ACK`s for streams already closed, and resets, are
/// dropped silently.
pub fn unknown_stream_needs_rst(flags: Flags) -> (b: bool)
    ensures
        b == (!flags.spec_contains(Flags { bits: 2 }) && !flags.spec_contains(Flags { bits: 8 })),
{
    !flags.contains(Flags::ack()) && !flags.contains(Flags::rst())
}

/// An inbound `Ping`: a reply (`ACK` set) goes to the keepalive task, a
/// probe is answered with a reply carrying the same opaque value.
pub fn on_ping(flags: Flags, opaque: u32) -> (a: PingAction)
    ensures
        flags.spec_contains(Flags { bits: 2 }) ==> (a matches PingAction::PongReceived(v) && v
            == opaque),
        !flags.spec_contains(Flags { bits: 2 }) ==> (a matches PingAction::Reply(f) && f@
            == (FrameView::Ping { flags: Flags { bits: 2 }, opaque })),
{
    if flags.contains(Flags::ack()) {
        PingAction::PongReceived(opaque)
    } else {
        PingAction::Reply(Frame::pong(opaque))
    }
}

/// Whether two strings hold the same characters.
fn same_text(a: &str, b: &str) -> (r: bool)
    ensures
        r == (a@ == b@),
{
    let n = a.unicode_len();
    if n != b.unicode_len() {
        return false;
    }
    let mut i: usize = 0;
    while i < n
        invariant
            n == a@.len(),
            n == b@.len(),
            i <= n,
            forall|k: int| 0 <= k < i ==> a@[k] == b@[k],
        decreases n - i,
    {
        if a.get_char(i) != b.get_char(i) {
            return false;
        }
        i = i + 1;
    }
    assert(a@ =~= b@);
    true
}

/// The code a session shuts down with after a read or dispatch error, as
/// the wire protocol names it.
pub open spec fn spec_shutdown_code(e: Error) -> ErrorCode {
    match e {
        Error::Protocol(m) => if m@ == "unsupported protocol version"@ {
            ErrorCode::InvalidVersion
        } else if m@ == "flow control window exceeded"@ {
            ErrorCode::FlowControlError
        } else {
            ErrorCode::ProtocolError
        },
        _ => ErrorCode::InternalError,
    }
}

/// The code a session shuts down with after a read or dispatch error: an
/// unsupported version byte is `InvalidVersion`, a payload beyond the
/// peer's credit is `FlowControlError`, any other protocol violation is a
/// `ProtocolError`, anything else an internal one.
pub fn shutdown_code(e: &Error) -> (c: ErrorCode)
    ensures
        c == spec_shutdown_code(*e),
{
    match e {
        Error::Protocol(m) => {
            if same_text(m, "unsupported protocol version") {
                ErrorCode::InvalidVersion
            } else if same_text(m, "flow control window exceeded") {
                ErrorCode::FlowControlError
            } else {
                ErrorCode::ProtocolError
            }
        },
        _ => ErrorCode::InternalError,
    }
}

/// The next keepalive nonce: one more than the last, wrapping.
pub fn next_nonce(nonce: u32) -> (n: u32)
    ensures
        n == if nonce == u32::MAX {
            0
        } else {
            nonce + 1
        },
{
    nonce.wrapping_add(1)
}

/// How many `GoAway` frames `n` shutdown requests in a row send, from a
/// session whose closing flag is `closing`.
pub open spec fn go_aways_sent(closing: bool, n: nat) -> nat
    decreases n,
{
    if n == 0 {
        0
    } else {
        (if closing {
            0nat
        } else {
            1nat
        }) + go_aways_sent(true, (n - 1) as nat)
    }
}

/// A session sends at most one `GoAway` however often shutdown is
/// requested: exactly one when it was not closing yet, none otherwise.
pub proof fn lemma_one_go_away(closing: bool, n: nat)
    requires
        n >= 1,
    ensures
        go_aways_sent(closing, n) == if closing {
            0nat
        } else {
            1nat
        },
    decreases n,
{
    if n > 1 {
        lemma_one_go_away(true, (n - 1) as nat);
    } else {
        assert(go_aways_sent(true, 0) == 0);
    }
    assert(go_aways_sent(closing, n) == (if closing {
        0nat
    } else {
        1nat
    }) + go_aways_sent(true, (n - 1) as nat));
}

/// An open attempt on stream `id` whose acknowledgement did not come in
/// time: reset the stream towards the peer and fail with `Timeout`.
pub fn open_timed_out(id: StreamId) -> (r: (Frame, Error))
    ensures
        r.0@ == (FrameView::Data { stream_id: id, flags: Flags { bits: 8 }, payload: Seq::empty() }),
        r.1 == Error::Timeout,
{
    (Frame::rst(id), Error::Timeout)
}

/// After `GoAway` in either direction no new stream opens: a local open is
/// refused with `SessionClosed`, and a peer's `SYN` that does not violate
/// the parity rule is refused with a `RST` once the peer's `GoAway` was
/// seen or our own shutdown (which sends `GoAway`) began.
pub proof fn lemma_no_open_after_go_away(
    s: SessionControlView,
    open_streams: usize,
    stream_id: StreamId,
    flags: Flags,
)
    requires
        s.peer_gone || s.closing,
        flags.spec_contains(Flags { bits: 1 }),
        stream_id != 0,
        !s.role.spec_owns(stream_id),
    ensures
        spec_route_data(s, open_streams, stream_id, flags) == DataRoute::Refuse,
{
}

/// The stream limit holds for the peer's streams: a `SYN` is admitted only
/// while fewer than `max_streams` streams are registered.
pub proof fn lemma_open_respects_limit(
    s: SessionControlView,
    open_streams: usize,
    stream_id: StreamId,
    flags: Flags,
)
    requires
        spec_route_data(s, open_streams, stream_id, flags) == DataRoute::Open,
    ensures
        open_streams < s.max_streams,
        !s.role.spec_owns(stream_id),
        stream_id != 0,
        !s.peer_gone,
        !s.closing,
{
}

} // verus!
