//! The protocol behaviour of one stream.
//!
//! `StreamCore` holds everything a stream knows: its read/write state, its
//! two flow-control windows, the unread inbound bytes and whether the peer
//! has acknowledged it. Each operation returns the [`Effects`] the caller
//! must carry out (a frame to send, waiters to wake, the registry to tell).

use bytes::Bytes;
use vstd::prelude::*;
use vstd::slice::slice_subrange;

use crate::buffers::{bytes_contents, bytes_copy_from_slice, bytes_len};
use crate::error::Error;
use crate::flow::window::{
    acquire_result, consume_result, granted, AcquireOutcome, RecvWindow, SendWindow,
};
use crate::protocol::flags::Flags;
use crate::protocol::codec::{decode_frame, frame_bytes, lemma_frame_roundtrip};
use crate::protocol::frame::{Frame, FrameView};
use crate::util::id::StreamId;

use super::recv::RecvBuffer;
use super::state::{StreamState, StreamStateView};

verus! {

/// Whether the stream was created locally (and therefore owes a `SYN` to
/// the peer) or remotely (and therefore owes an `ACK`).
#[derive(Debug, Clone, Copy, PartialEq, Eq, Structural)]
pub enum Origin {
    Local,
    Remote,
}

/// What the caller of a stream operation must do afterwards.
#[derive(Debug)]
pub struct Effects {
    /// A frame to put on the outbound queue.
    pub frame: Option<Frame>,
    /// Wake a reader waiting for inbound data.
    pub wake_read: bool,
    /// Wake a writer waiting for send credit.
    pub wake_write: bool,
    /// Wake an opener waiting for the peer's `ACK`.
    pub wake_ack: bool,
    /// Tell the session to drop the stream from its registry.
    pub notify_closer: bool,
}

impl Effects {
    /// Nothing to do.
    pub fn none() -> (e: Effects)
        ensures
            e.frame is None,
            !e.wake_read && !e.wake_write && !e.wake_ack && !e.notify_closer,
    {
        Effects {
            frame: None,
            wake_read: false,
            wake_write: false,
            wake_ack: false,
            notify_closer: false,
        }
    }

    /// Both effects; the frame of `self` if it has one, else that of
    /// `other`.
    pub fn merge(self, other: Effects) -> (e: Effects)
        ensures
            e.wake_read == (self.wake_read || other.wake_read),
            e.wake_write == (self.wake_write || other.wake_write),
            e.wake_ack == (self.wake_ack || other.wake_ack),
            e.notify_closer == (self.notify_closer || other.notify_closer),
            e.frame == if self.frame is Some {
                self.frame
            } else {
                other.frame
            },
    {
        let frame = match self.frame {
            Some(f) => Some(f),
            None => other.frame,
        };
        Effects {
            frame,
            wake_read: self.wake_read || other.wake_read,
            wake_write: self.wake_write || other.wake_write,
            wake_ack: self.wake_ack || other.wake_ack,
            notify_closer: self.notify_closer || other.notify_closer,
        }
    }
}

/// The state of a stream, as plain values.
pub struct StreamCoreView {
    pub id: StreamId,
    pub max_frame_size: u32,
    pub state: StreamStateView,
    pub send_available: u32,
    pub send_closed: bool,
    pub recv_initial: u32,
    pub recv_pending: u32,
    pub unread: Seq<u8>,
    pub acked: bool,
    pub fin_sent: bool,
    pub rst_sent: bool,
}

/// The protocol state of one stream.
#[derive(Debug)]
pub struct StreamCore {
    id: StreamId,
    max_frame_size: u32,
    state: StreamState,
    send_window: SendWindow,
    recv_window: RecvWindow,
    recv: RecvBuffer,
    ack_received: bool,
    fin_sent: bool,
    rst_sent: bool,
}

impl View for StreamCore {
    type V = StreamCoreView;

    closed spec fn view(&self) -> StreamCoreView {
        StreamCoreView {
            id: self.id,
            max_frame_size: self.max_frame_size,
            state: self.state@,
            send_available: self.send_window.spec_available(),
            send_closed: self.send_window.spec_closed(),
            recv_initial: self.recv_window.spec_initial(),
            recv_pending: self.recv_window.spec_pending(),
            unread: self.recv@,
            acked: self.ack_received,
            fin_sent: self.fin_sent,
            rst_sent: self.rst_sent,
        }
    }
}

/// The frame a stream sends to close its write half.
pub open spec fn fin_frame(id: StreamId) -> FrameView {
    FrameView::Data { stream_id: id, flags: Flags { bits: 4 }, payload: Seq::empty() }
}

/// The frame a stream sends to reset itself.
pub open spec fn rst_frame(id: StreamId) -> FrameView {
    FrameView::Data { stream_id: id, flags: Flags { bits: 8 }, payload: Seq::empty() }
}

/// The frame a stream sends to hand credit back to the peer.
pub open spec fn window_update_frame(id: StreamId, delta: u32) -> FrameView {
    FrameView::WindowUpdate { stream_id: id, flags: Flags { bits: 0 }, delta }
}

/// Whether an optional frame is present and stands for `f`.
pub open spec fn frame_is(frame: Option<Frame>, f: FrameView) -> bool {
    frame matches Some(fr) && fr@ == f
}

impl StreamCoreView {
    pub open spec fn wf(self) -> bool {
        &&& self.state.wf()
        &&& self.recv_pending < crate::flow::window::recv_threshold(self.recv_initial)
        // Flow control: what is buffered plus what was read but not yet
        // handed back never exceeds the window the peer was granted.
        &&& self.unread.len() + self.recv_pending <= self.recv_initial
        &&& self.rst_sent ==> self.state.reset
        // A FIN is only ever sent as the write half closes.
        &&& self.fin_sent ==> !self.state.write_open
    }

    /// Whether a payload of `len` bytes stays within the credit the peer
    /// holds: the window less what is buffered or not yet handed back.
    pub open spec fn within_credit(self, len: int) -> bool {
        self.unread.len() + self.recv_pending + len <= self.recv_initial
    }

    /// Whether the inbound half is still open.
    pub open spec fn can_recv(self) -> bool {
        self.state.read_open && !self.state.reset
    }

    /// After the peer's payload arrived.
    pub open spec fn after_push(self, payload: Seq<u8>) -> StreamCoreView {
        StreamCoreView { unread: self.unread + payload, ..self }
    }

    /// After the peer's `FIN`.
    pub open spec fn after_remote_fin(self) -> StreamCoreView {
        StreamCoreView { state: StreamStateView { read_open: false, ..self.state }, ..self }
    }

    /// With the stream reset: both halves closed, send window closed.
    pub open spec fn after_reset(self) -> StreamCoreView {
        StreamCoreView {
            state: StreamStateView { read_open: false, write_open: false, reset: true },
            send_closed: true,
            ..self
        }
    }

    /// After a local reset: as `after_reset`, and a reset frame counts as
    /// sent, unless the stream was already reset.
    pub open spec fn after_local_reset(self) -> StreamCoreView {
        if self.state.reset {
            self
        } else {
            StreamCoreView { rst_sent: true, ..self.after_reset() }
        }
    }

    /// After the peer's `ACK`.
    pub open spec fn after_ack(self) -> StreamCoreView {
        StreamCoreView { acked: true, ..self }
    }

    /// After a local `FIN`: the write half closed, and a `FIN` counts as sent,
    /// unless the stream is reset or its write half already closed.
    pub open spec fn after_local_fin(self) -> StreamCoreView {
        if self.state.reset || !self.state.write_open {
            self
        } else {
            StreamCoreView {
                state: StreamStateView { write_open: false, ..self.state },
                fin_sent: true,
                ..self
            }
        }
    }

    /// Whether a local `FIN` sends a frame.
    pub open spec fn local_fin_sends(self) -> bool {
        !self.state.reset && self.state.write_open && !self.fin_sent
    }

    /// After an inbound `Data` frame with these flags and payload was
    /// handled without error.
    pub open spec fn after_inbound(self, flags: Flags, payload: Seq<u8>) -> StreamCoreView {
        let s1 = if flags.spec_contains(Flags { bits: 2 }) {
            self.after_ack()
        } else {
            self
        };
        let s2 = s1.after_push(payload);
        let s3 = if flags.spec_contains(Flags { bits: 4 }) {
            s2.after_remote_fin()
        } else {
            s2
        };
        if flags.spec_contains(Flags { bits: 8 }) {
            s3.after_reset()
        } else {
            s3
        }
    }
}

/// The outcome of a read attempt.
#[derive(Debug)]
pub enum ReadOutcome {
    /// The stream was reset: the read fails with `ConnectionReset`.
    Reset,
    /// `n` bytes were read; credit to hand back to the peer, if any, rides
    /// on the window-update frame.
    Read { n: usize, window_update: Option<Frame> },
    /// Nothing to read and nothing will come (end of stream), or no room was
    /// offered: the read completes with no bytes.
    Done,
    /// Nothing to read yet: the caller waits for data.
    Pending,
}

/// The outcome of a write attempt.
#[derive(Debug)]
pub enum WriteOutcome {
    /// The stream was reset.
    Reset,
    /// The write half is closed.
    WriteClosed,
    /// The send window was closed.
    WindowClosed,
    /// Nothing to write: the write completes with zero bytes.
    Empty,
    /// No send credit: the caller waits for a grant.
    Pending,
    /// The first `n` bytes go out in `frame`.
    Sent { n: usize, frame: Frame },
}

/// Whether the stream has been accepted by the peer, as an opener sees it.
#[derive(Debug, Clone, Copy, PartialEq, Eq, Structural)]
pub enum AckStatus {
    Acked,
    Reset,
    Closed,
    Waiting,
}

/// How an open attempt on stream `id` ends for each acknowledgement
/// status: success once acknowledged, `StreamReset` after a reset,
/// `SessionClosed` when the session closed the stream, `None` while still
/// waiting.
pub fn ack_result(status: AckStatus, id: StreamId) -> (r: Option<Result<(), Error>>)
    ensures
        status == AckStatus::Acked ==> r == Some(Ok::<(), Error>(())),
        status == AckStatus::Reset ==> r == Some(Err::<(), Error>(Error::StreamReset(id))),
        status == AckStatus::Closed ==> r == Some(Err::<(), Error>(Error::SessionClosed)),
        status == AckStatus::Waiting ==> r is None,
{
    match status {
        AckStatus::Acked => Some(Ok(())),
        AckStatus::Reset => Some(Err(Error::StreamReset(id))),
        AckStatus::Closed => Some(Err(Error::SessionClosed)),
        AckStatus::Waiting => None,
    }
}

impl StreamCore {
    /// A fresh stream: both halves open, both windows at `initial_window`.
    /// A stream the peer opened counts as acknowledged from the start.
    pub fn new(id: StreamId, origin: Origin, initial_window: u32, max_frame_size: u32) -> (s: Self)
        ensures
            s@.wf(),
            s@ == (StreamCoreView {
                id,
                max_frame_size,
                state: StreamStateView { read_open: true, write_open: true, reset: false },
                send_available: initial_window,
                send_closed: false,
                recv_initial: initial_window,
                recv_pending: 0,
                unread: Seq::empty(),
                acked: origin == Origin::Remote,
                fin_sent: false,
                rst_sent: false,
            }),
    {
        StreamCore {
            id,
            max_frame_size,
            state: StreamState::new(),
            send_window: SendWindow::new(initial_window),
            recv_window: RecvWindow::new(initial_window),
            recv: RecvBuffer::new(),
            ack_received: match origin {
                Origin::Remote => true,
                Origin::Local => false,
            },
            fin_sent: false,
            rst_sent: false,
        }
    }

    pub fn id(&self) -> (id: StreamId)
        ensures
            id == self@.id,
    {
        self.id
    }

    /// Whether the inbound half is still open.
    pub fn can_recv(&self) -> (b: bool)
        ensures
            b == self@.can_recv(),
    {
        self.state.read_open() && !self.state.is_reset()
    }

    /// Whether a payload of `len` bytes stays within the credit the peer
    /// holds: the window less what is buffered or not yet handed back.
    pub fn within_credit(&self, len: usize) -> (b: bool)
        requires
            self@.wf(),
        ensures
            b == self@.within_credit(len as int),
    {
        let buffered = self.recv.len();
        let pending = self.recv_window.pending();
        let initial = self.recv_window.initial();
        if len > initial as usize {
            return false;
        }
        buffered as u64 + pending as u64 + len as u64 <= initial as u64
    }

    /// Whether the write half is still open.
    pub fn write_open(&self) -> (b: bool)
        ensures
            b == self@.state.write_open,
    {
        self.state.write_open()
    }

    /// Whether the stream was reset.
    pub fn is_reset(&self) -> (b: bool)
        ensures
            b == self@.state.reset,
    {
        self.state.is_reset()
    }

    /// Append a payload chunk delivered by the peer, within the peer's
    /// credit; wakes the reader unless the chunk is empty.
    fn push_data(&mut self, payload: Bytes) -> (e: Effects)
        requires
            old(self)@.wf(),
            old(self)@.within_credit(bytes_contents(payload).len() as int),
        ensures
            final(self)@ == old(self)@.after_push(bytes_contents(payload)),
            e.frame is None && !e.wake_write && !e.wake_ack && !e.notify_closer,
            e.wake_read == (bytes_contents(payload).len() != 0),
    {
        if bytes_len(&payload) == 0 {
            assert(old(self)@.unread + bytes_contents(payload) =~= old(self)@.unread);
            return Effects::none();
        }
        self.recv.push(payload);
        Effects { wake_read: true, ..Effects::none() }
    }

    /// The peer will send no further data: close the read half and wake the
    /// reader.
    pub fn remote_fin(&mut self) -> (e: Effects)
        requires
            old(self)@.wf(),
        ensures
            final(self)@ == old(self)@.after_remote_fin(),
            e.frame is None && e.wake_read && !e.wake_write && !e.wake_ack && !e.notify_closer,
    {
        self.state.close_read();
        Effects { wake_read: true, ..Effects::none() }
    }

    /// Apply a peer-initiated reset: close everything, wake every waiter and
    /// ask the session to drop the stream.
    pub fn remote_reset(&mut self) -> (e: Effects)
        requires
            old(self)@.wf(),
        ensures
            final(self)@ == old(self)@.after_reset(),
            e.frame is None && e.wake_read && e.wake_write && e.wake_ack && e.notify_closer,
    {
        self.state.mark_reset();
        self.send_window.close();
        Effects {
            frame: None,
            wake_read: true,
            wake_write: true,
            wake_ack: true,
            notify_closer: true,
        }
    }

    /// Increase send credit by `delta`, saturating; wakes a writer when the
    /// grant is not zero.
    pub fn grant_send_credit(&mut self, delta: u32) -> (e: Effects)
        requires
            old(self)@.wf(),
        ensures
            final(self)@ == (StreamCoreView {
                send_available: granted(old(self)@.send_available, delta),
                ..old(self)@
            }),
            e.frame is None && !e.wake_read && !e.wake_ack && !e.notify_closer,
            e.wake_write == (delta != 0),
    {
        let wake = self.send_window.grant(delta);
        Effects { wake_write: wake, ..Effects::none() }
    }

    /// The peer accepted our `SYN`.
    pub fn mark_acked(&mut self) -> (e: Effects)
        requires
            old(self)@.wf(),
        ensures
            final(self)@ == old(self)@.after_ack(),
            e.frame is None && !e.wake_read && !e.wake_write && e.wake_ack && !e.notify_closer,
    {
        self.ack_received = true;
        Effects { wake_ack: true, ..Effects::none() }
    }

    /// Where an open attempt stands: acknowledged, failed by a reset, failed
    /// because the session closed the stream, or still waiting.
    pub fn ack_status(&self) -> (s: AckStatus)
        ensures
            s == if self@.acked {
                AckStatus::Acked
            } else if self@.state.reset {
                AckStatus::Reset
            } else if !self@.state.write_open {
                AckStatus::Closed
            } else {
                AckStatus::Waiting
            },
    {
        if self.ack_received {
            AckStatus::Acked
        } else if self.state.is_reset() {
            AckStatus::Reset
        } else if !self.state.write_open() {
            AckStatus::Closed
        } else {
            AckStatus::Waiting
        }
    }

    /// Force the stream into a session-closed state: both halves and the
    /// send window closed, every waiter woken. Buffered data stays readable.
    pub fn force_close(&mut self) -> (e: Effects)
        requires
            old(self)@.wf(),
        ensures
            final(self)@ == (StreamCoreView {
                state: StreamStateView {
                    read_open: false,
                    write_open: false,
                    ..old(self)@.state
                },
                send_closed: true,
                ..old(self)@
            }),
            e.frame is None && e.wake_read && e.wake_write && e.wake_ack && !e.notify_closer,
    {
        self.state.close_read();
        self.state.close_write();
        self.send_window.close();
        Effects {
            frame: None,
            wake_read: true,
            wake_write: true,
            wake_ack: true,
            notify_closer: false,
        }
    }

    /// Read up to `room` buffered bytes onto the end of `out`.
    ///
    /// A read with no room completes at once; a reset stream fails; buffered
    /// bytes are read first even after the peer's `FIN`, and the credit they
    /// free is handed back once enough has accumulated; with nothing
    /// buffered a closed read half means end of stream.
    pub fn read(&mut self, out: &mut Vec<u8>, room: usize) -> (r: ReadOutcome)
        requires
            old(self)@.wf(),
        ensures
            final(self)@.wf(),
            room == 0 ==> r is Done && final(self)@ == old(self)@ && final(out)@ == old(out)@,
            room != 0 && old(self)@.state.reset ==> r is Reset && final(self)@ == old(self)@
                && final(out)@ == old(out)@,
            room != 0 && !old(self)@.state.reset && old(self)@.unread.len() > 0 ==> {
                let n = if room < old(self)@.unread.len() {
                    room as int
                } else {
                    old(self)@.unread.len() as int
                };
                let (delta, pending) = consume_result(
                    old(self)@.recv_initial,
                    old(self)@.recv_pending,
                    #[verifier::truncate] (n as u32),
                );
                &&& r matches ReadOutcome::Read { n: k, window_update } && k == n && match delta {
                    Some(d) => frame_is(window_update, window_update_frame(old(self)@.id, d)),
                    None => window_update is None,
                }
                &&& final(out)@ == old(out)@ + old(self)@.unread.take(n)
                &&& final(self)@ == (StreamCoreView {
                    unread: old(self)@.unread.skip(n),
                    recv_pending: pending,
                    ..old(self)@
                })
            },
            room != 0 && !old(self)@.state.reset && old(self)@.unread.len() == 0 ==> {
                &&& final(self)@ == old(self)@
                &&& final(out)@ == old(out)@
                &&& if old(self)@.state.read_open {
                    r is Pending
                } else {
                    r is Done
                }
            },
    {
        if room == 0 {
            return ReadOutcome::Done;
        }
        if self.state.is_reset() {
            return ReadOutcome::Reset;
        }
        let consumed = self.recv.read_into(out, room);
        if consumed > 0 {
            let bytes = #[verifier::truncate] (consumed as u32);
            let window_update = match self.recv_window.on_consume(bytes) {
                Some(delta) => Some(Frame::window_update(self.id, delta)),
                None => None,
            };
            return ReadOutcome::Read { n: consumed, window_update };
        }
        assert(old(self)@.unread.skip(0) =~= old(self)@.unread);
        assert(old(out)@ + old(self)@.unread.take(0) =~= old(out)@);
        if !self.state.read_open() {
            return ReadOutcome::Done;
        }
        ReadOutcome::Pending
    }

    /// Try to send the front of `buf`: at most one frame's worth, at most the
    /// send credit, which is deducted.
    pub fn write(&mut self, buf: &[u8]) -> (r: WriteOutcome)
        requires
            old(self)@.wf(),
        ensures
            final(self)@.wf(),
            old(self)@.state.reset ==> r is Reset && final(self)@ == old(self)@,
            !old(self)@.state.reset && !old(self)@.state.write_open ==> r is WriteClosed
                && final(self)@ == old(self)@,
            !old(self)@.state.reset && old(self)@.state.write_open && buf@.len() == 0 ==> r is Empty
                && final(self)@ == old(self)@,
            !old(self)@.state.reset && old(self)@.state.write_open && buf@.len() != 0 ==> {
                let want = if buf@.len() < old(self)@.max_frame_size {
                    buf@.len() as u32
                } else {
                    old(self)@.max_frame_size
                };
                let (outcome, left) = acquire_result(
                    old(self)@.send_available,
                    old(self)@.send_closed,
                    want,
                );
                &&& final(self)@ == (StreamCoreView { send_available: left, ..old(self)@ })
                &&& match outcome {
                    AcquireOutcome::Closed => r is WindowClosed,
                    AcquireOutcome::Pending => r is Pending,
                    AcquireOutcome::Acquired(n) => r matches WriteOutcome::Sent { n: k, frame }
                        && k == n && frame@ == (FrameView::Data {
                        stream_id: old(self)@.id,
                        flags: Flags { bits: 0 },
                        payload: buf@.take(n as int),
                    }),
                }
            },
    {
        if self.state.is_reset() {
            return WriteOutcome::Reset;
        }
        if !self.state.write_open() {
            return WriteOutcome::WriteClosed;
        }
        let len = buf.len();
        if len == 0 {
            return WriteOutcome::Empty;
        }
        let max_frame = self.max_frame_size as usize;
        let want = if len < max_frame {
            len as u32
        } else {
            self.max_frame_size
        };
        match self.send_window.poll_acquire(want) {
            AcquireOutcome::Closed => WriteOutcome::WindowClosed,
            AcquireOutcome::Pending => WriteOutcome::Pending,
            AcquireOutcome::Acquired(n) => {
                let chunk = slice_subrange(buf, 0, n as usize);
                assert(chunk@ =~= buf@.take(n as int));
                let payload = bytes_copy_from_slice(chunk);
                let frame = Frame::data(self.id, Flags::empty(), payload);
                WriteOutcome::Sent { n: n as usize, frame }
            },
        }
    }

    /// The frame of `n` bytes could not be queued because the session is
    /// shutting down: refund the credit and close the write half.
    pub fn on_send_failed(&mut self, n: u32)
        requires
            old(self)@.wf(),
        ensures
            final(self)@ == (StreamCoreView {
                send_available: granted(old(self)@.send_available, n),
                state: StreamStateView { write_open: false, ..old(self)@.state },
                ..old(self)@
            }),
    {
        self.send_window.grant(n);
        self.state.close_write();
    }

    /// Close the write half, sending a `FIN` unless one (or a reset) went
    /// out already. Does nothing on a reset stream. Idempotent.
    pub fn local_fin(&mut self) -> (e: Effects)
        requires
            old(self)@.wf(),
        ensures
            final(self)@ == old(self)@.after_local_fin(),
            !e.wake_read && !e.wake_write && !e.wake_ack && !e.notify_closer,
            old(self)@.local_fin_sends() ==> frame_is(e.frame, fin_frame(old(self)@.id)),
            !old(self)@.local_fin_sends() ==> e.frame is None,
            !old(self)@.state.reset && old(self)@.state.write_open && !old(self)@.fin_sent
                ==> frame_is(e.frame, fin_frame(old(self)@.id)),
    {
        if self.state.is_reset() {
            return Effects::none();
        }
        if !self.state.close_write() {
            return Effects::none();
        }
        if !self.fin_sent {
            self.fin_sent = true;
            return Effects { frame: Some(Frame::fin(self.id)), ..Effects::none() };
        }
        Effects::none()
    }

    /// Tear the stream down, sending a `RST` (a `FIN` sent before does not
    /// stop it); wakes every waiter and asks the session to drop the stream.
    /// Does nothing on a stream already reset.
    pub fn local_reset(&mut self) -> (e: Effects)
        requires
            old(self)@.wf(),
        ensures
            final(self)@ == old(self)@.after_local_reset(),
            old(self)@.state.reset ==> e.frame is None && !e.wake_read && !e.wake_write
                && !e.wake_ack && !e.notify_closer,
            !old(self)@.state.reset ==> {
                &&& e.wake_read && e.wake_write && e.wake_ack && e.notify_closer
                &&& frame_is(e.frame, rst_frame(old(self)@.id))
            },
    {
        if !self.state.mark_reset() {
            return Effects::none();
        }
        let frame = if !self.rst_sent {
            self.rst_sent = true;
            Some(Frame::rst(self.id))
        } else {
            None
        };
        self.send_window.close();
        Effects { frame, wake_read: true, wake_write: true, wake_ack: true, notify_closer: true }
    }

    /// The user dropped the stream: send a graceful `FIN` if the write half
    /// is still open, then ask the session to drop its registry entry.
    pub fn on_user_drop(&mut self) -> (e: Effects)
        requires
            old(self)@.wf(),
        ensures
            final(self)@ == old(self)@.after_local_fin(),
            e.notify_closer && !e.wake_read && !e.wake_write && !e.wake_ack,
            old(self)@.local_fin_sends() ==> frame_is(e.frame, fin_frame(old(self)@.id)),
            !old(self)@.local_fin_sends() ==> e.frame is None,
    {
        let e = if self.state.write_open() && !self.state.is_reset() {
            self.local_fin()
        } else {
            Effects::none()
        };
        Effects { notify_closer: true, ..e }
    }

    /// Handle an inbound `Data` frame addressed to this stream: `ACK` marks
    /// the stream accepted, a payload is buffered, `FIN` closes the read
    /// half and `RST` resets the stream, in that order. A payload arriving
    /// after the read half closed is a protocol error: the stream is reset
    /// locally and the error returned. A payload beyond the credit the peer
    /// holds is a flow-control violation: it is not buffered and the error
    /// is returned.
    pub fn on_inbound(&mut self, flags: Flags, payload: Bytes) -> (r: (Effects, Result<(), Error>))
        requires
            old(self)@.wf(),
        ensures
            final(self)@.wf(),
            ({
                let s1 = if flags.spec_contains(Flags { bits: 2 }) {
                    old(self)@.after_ack()
                } else {
                    old(self)@
                };
                if bytes_contents(payload).len() != 0 && !s1.can_recv() {
                    &&& r.1 == Err::<(), Error>(Error::Protocol("data after FIN"))
                    &&& final(self)@ == s1.after_local_reset()
                    &&& r.0.notify_closer == !s1.state.reset
                    &&& r.0.wake_read == !s1.state.reset
                    &&& r.0.wake_write == !s1.state.reset
                    &&& r.0.wake_ack == (!s1.state.reset || flags.spec_contains(Flags { bits: 2 }))
                    &&& !s1.state.reset ==> frame_is(r.0.frame, rst_frame(s1.id))
                    &&& s1.state.reset ==> r.0.frame is None
                } else if !s1.within_credit(bytes_contents(payload).len() as int) {
                    &&& r.1 == Err::<(), Error>(Error::Protocol("flow control window exceeded"))
                    &&& final(self)@ == s1
                    &&& r.0.frame is None
                    &&& r.0.wake_ack == flags.spec_contains(Flags { bits: 2 })
                    &&& !r.0.wake_read && !r.0.wake_write && !r.0.notify_closer
                } else {
                    &&& r.1 is Ok
                    &&& final(self)@ == old(self)@.after_inbound(flags, bytes_contents(payload))
                    &&& r.0.frame is None
                    &&& r.0.wake_ack == (flags.spec_contains(Flags { bits: 2 })
                        || flags.spec_contains(Flags { bits: 8 }))
                    &&& r.0.wake_read == (bytes_contents(payload).len() != 0 || flags.spec_contains(
                        Flags { bits: 4 },
                    ) || flags.spec_contains(Flags { bits: 8 }))
                    &&& r.0.wake_write == flags.spec_contains(Flags { bits: 8 })
                    &&& r.0.notify_closer == flags.spec_contains(Flags { bits: 8 })
                }
            }),
    {
        let mut effects = Effects::none();
        if flags.contains(Flags::ack()) {
            effects = effects.merge(self.mark_acked());
        }
        if bytes_len(&payload) != 0 {
            if !self.can_recv() {
                let e = self.local_reset();
                return (effects.merge(e), Err(Error::Protocol("data after FIN")));
            }
            if !self.within_credit(bytes_len(&payload)) {
                return (effects, Err(Error::Protocol("flow control window exceeded")));
            }
        }
        effects = effects.merge(self.push_data(payload));
        if flags.contains(Flags::fin()) {
            effects = effects.merge(self.remote_fin());
        }
        if flags.contains(Flags::rst()) {
            effects = effects.merge(self.remote_reset());
        }
        (effects, Ok(()))
    }
}

/// Half-close: closing the write half leaves the read half as it was, so
/// the peer's data can still be read after a local `FIN`.
pub proof fn lemma_local_fin_keeps_read_half(s: StreamCoreView)
    requires
        s.wf(),
    ensures
        s.after_local_fin().state.read_open == s.state.read_open,
        s.after_local_fin().unread == s.unread,
        !s.after_local_fin().state.write_open,
{
}

/// At most one `FIN` and at most one `RST` per stream: once one counts as
/// sent, no later local close or reset sends another of the same kind, and
/// the marks are never cleared.
pub proof fn lemma_single_close_frame(s: StreamCoreView)
    ensures
        s.fin_sent ==> !s.local_fin_sends() && s.after_local_fin().fin_sent
            && s.after_local_reset().fin_sent && s.after_reset().fin_sent,
        s.wf() && s.rst_sent ==> s.after_local_reset() == s && s.after_local_fin().rst_sent,
        s.after_local_reset().state.reset,
{
}

/// How many `FIN` frames `n` local closes in a row send.
pub open spec fn fins_sent(s: StreamCoreView, n: nat) -> nat
    decreases n,
{
    if n == 0 {
        0
    } else {
        (if s.local_fin_sends() {
            1nat
        } else {
            0nat
        }) + fins_sent(s.after_local_fin(), (n - 1) as nat)
    }
}

/// Repeated shutdowns send exactly one `FIN`: `n >= 1` local closes send
/// one frame when the first of them sends one, and none otherwise.
pub proof fn lemma_fin_sent_once(s: StreamCoreView, n: nat)
    requires
        n >= 1,
    ensures
        fins_sent(s, n) == if s.local_fin_sends() {
            1nat
        } else {
            0nat
        },
    decreases n,
{
    let t = s.after_local_fin();
    assert(!t.local_fin_sends());
    assert(t.after_local_fin() == t);
    if n > 1 {
        lemma_fin_sent_once(t, (n - 1) as nat);
    } else {
        assert(fins_sent(t, 0) == 0);
    }
    assert(fins_sent(s, n) == (if s.local_fin_sends() {
        1nat
    } else {
        0nat
    }) + fins_sent(t, (n - 1) as nat));
}

/// Exactly one `FIN` per stream, from the stream invariant: a state that
/// sent one has its write half closed, so no later close sends another; a
/// local close keeps the invariant, and any run of closes sends at most one.
pub proof fn lemma_fin_once_from_invariant(s: StreamCoreView, n: nat)
    requires
        s.wf(),
        n >= 1,
    ensures
        s.fin_sent ==> !s.local_fin_sends() && fins_sent(s, n) == 0,
        s.after_local_fin().wf(),
        !s.after_local_fin().state.write_open,
        fins_sent(s, n) <= 1,
{
    lemma_fin_sent_once(s, n);
}

/// Closing the write half sends a `FIN` whatever the read half is doing:
/// a stream that is not reset, whose write half is open and that has sent
/// no `FIN` yet sends one, also after the peer's own `FIN` arrived and its
/// data was read (the echo pattern: read to end, write back, close); and a
/// second close sends nothing.
pub proof fn lemma_fin_independent_of_read_half(s: StreamCoreView)
    requires
        s.wf(),
        !s.state.reset,
        s.state.write_open,
        !s.fin_sent,
    ensures
        s.local_fin_sends(),
        s.after_remote_fin().local_fin_sends(),
        (StreamCoreView { unread: Seq::empty(), ..s.after_remote_fin() }).local_fin_sends(),
        !s.after_local_fin().local_fin_sends(),
        s.after_local_fin().fin_sent && !s.after_local_fin().state.write_open,
{
}

/// The payloads of a run of plain `Data` frames, one after the other.
pub open spec fn concat(chunks: Seq<Seq<u8>>) -> Seq<u8>
    decreases chunks.len(),
{
    if chunks.len() == 0 {
        Seq::empty()
    } else {
        chunks[0] + concat(chunks.drop_first())
    }
}

/// A receiving stream after a run of plain `Data` frames (no flag set)
/// carrying these payloads.
pub open spec fn deliver_all(s: StreamCoreView, chunks: Seq<Seq<u8>>) -> StreamCoreView
    decreases chunks.len(),
{
    if chunks.len() == 0 {
        s
    } else {
        deliver_all(s.after_inbound(Flags { bits: 0 }, chunks[0]), chunks.drop_first())
    }
}

/// The frame a stream's write sends for a chunk of its data.
pub open spec fn data_frame(id: StreamId, chunk: Seq<u8>) -> FrameView {
    FrameView::Data { stream_id: id, flags: Flags { bits: 0 }, payload: chunk }
}

/// In-order delivery. A writer's data `d` goes out as a run of chunks (each
/// write sends the front of what is left: `data_frame(id, buf.take(n))`).
/// Each chunk's frame decodes back to itself from the wire, whatever follows
/// it, and the receiving stream, as long as the peer stays within its
/// credit, ends up with exactly `d` appended to its unread bytes, which
/// reads hand out oldest first.
pub proof fn lemma_delivery_in_order(
    receiver: StreamCoreView,
    chunks: Seq<Seq<u8>>,
    d: Seq<u8>,
    max_payload: u32,
)
    requires
        receiver.wf(),
        receiver.can_recv(),
        concat(chunks) == d,
        receiver.within_credit(d.len() as int),
        forall|i: int| 0 <= i < chunks.len() ==> #[trigger] chunks[i].len() <= max_payload,
    ensures
        forall|i: int, rest: Seq<u8>|
            0 <= i < chunks.len() ==> #[trigger] decode_frame(
                frame_bytes(data_frame(receiver.id, chunks[i])) + rest,
                max_payload,
            ) == Ok::<Option<(FrameView, nat)>, Error>(
                Some(
                    (
                        data_frame(receiver.id, chunks[i]),
                        frame_bytes(data_frame(receiver.id, chunks[i])).len(),
                    ),
                ),
            ),
        deliver_all(receiver, chunks).unread == receiver.unread + d,
        deliver_all(receiver, chunks).wf(),
        deliver_all(receiver, chunks).can_recv(),
    decreases chunks.len(),
{
    assert forall|i: int, rest: Seq<u8>| 0 <= i < chunks.len() implies #[trigger] decode_frame(
        frame_bytes(data_frame(receiver.id, chunks[i])) + rest,
        max_payload,
    ) == Ok::<Option<(FrameView, nat)>, Error>(
        Some(
            (
                data_frame(receiver.id, chunks[i]),
                frame_bytes(data_frame(receiver.id, chunks[i])).len(),
            ),
        ),
    ) by {
        assert(chunks[i].len() <= max_payload);
        lemma_frame_roundtrip(data_frame(receiver.id, chunks[i]), rest, max_payload);
    }
    if chunks.len() == 0 {
        assert(receiver.unread + d =~= receiver.unread);
    } else {
        let zero = 0u16;
        assert(zero & 2u16 != 2u16 && zero & 4u16 != 4u16 && zero & 8u16 != 8u16) by (bit_vector)
            requires
                zero == 0u16,
        ;
        let c = chunks[0];
        let next = receiver.after_inbound(Flags { bits: 0 }, c);
        assert(next == receiver.after_push(c));
        let tail = chunks.drop_first();
        assert(d == c + concat(tail));
        assert forall|i: int| 0 <= i < tail.len() implies #[trigger] tail[i].len() <= max_payload by {
            assert(tail[i] == chunks[i + 1]);
        }
        lemma_delivery_in_order(next, tail, concat(tail), max_payload);
        assert(next.unread + concat(tail) =~= receiver.unread + d);
    }
}

/// A reset is final: every later change of state keeps the stream reset
/// with both halves closed.
pub proof fn lemma_reset_is_sticky(s: StreamCoreView, flags: Flags, payload: Seq<u8>)
    requires
        s.wf(),
        s.state.reset,
    ensures
        s.after_local_fin() == s,
        s.after_local_reset() == s,
        s.after_inbound(flags, payload).state.reset,
        !s.after_inbound(flags, payload).state.read_open,
        !s.after_inbound(flags, payload).state.write_open,
        !s.can_recv(),
{
}

} // verus!
