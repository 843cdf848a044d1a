//! Strongly-typed in-memory frame representation.

use bytes::Bytes;
use vstd::prelude::*;

use crate::buffers::{bytes_contents, bytes_new};
use crate::error::ErrorCode;

use super::flags::Flags;

verus! {

/// In-memory representation of a single wire frame.
#[derive(Debug, Clone)]
pub enum Frame {
    /// User-payload data frame; may also carry stream lifecycle flags.
    Data { stream_id: u32, flags: Flags, payload: Bytes },
    /// Credit increment for a stream's send window.
    WindowUpdate { stream_id: u32, flags: Flags, delta: u32 },
    /// Liveness probe / RTT measurement. `flags` carries `ACK` for replies.
    Ping { flags: Flags, opaque: u32 },
    /// Final frame of a session; recipient stops opening new streams.
    GoAway { error_code: ErrorCode },
}

/// A frame with its payload as a sequence of bytes.
pub enum FrameView {
    Data { stream_id: u32, flags: Flags, payload: Seq<u8> },
    WindowUpdate { stream_id: u32, flags: Flags, delta: u32 },
    Ping { flags: Flags, opaque: u32 },
    GoAway { error_code: ErrorCode },
}

impl View for Frame {
    type V = FrameView;

    open spec fn view(&self) -> FrameView {
        match self {
            Frame::Data { stream_id, flags, payload } => FrameView::Data {
                stream_id: *stream_id,
                flags: *flags,
                payload: bytes_contents(*payload),
            },
            Frame::WindowUpdate { stream_id, flags, delta } => FrameView::WindowUpdate {
                stream_id: *stream_id,
                flags: *flags,
                delta: *delta,
            },
            Frame::Ping { flags, opaque } => FrameView::Ping { flags: *flags, opaque: *opaque },
            Frame::GoAway { error_code } => FrameView::GoAway { error_code: *error_code },
        }
    }
}

impl Frame {
    pub fn data(stream_id: u32, flags: Flags, payload: Bytes) -> (f: Self)
        ensures
            f@ == (FrameView::Data { stream_id, flags, payload: bytes_contents(payload) }),
    {
        Frame::Data { stream_id, flags, payload }
    }

    /// An empty `Data` frame opening a stream.
    pub fn syn(stream_id: u32) -> (f: Self)
        ensures
            f@ == (FrameView::Data { stream_id, flags: Flags { bits: 1 }, payload: Seq::empty() }),
    {
        Frame::Data { stream_id, flags: Flags::syn(), payload: bytes_new() }
    }

    /// An empty `Data` frame acknowledging a stream open.
    pub fn ack(stream_id: u32) -> (f: Self)
        ensures
            f@ == (FrameView::Data { stream_id, flags: Flags { bits: 2 }, payload: Seq::empty() }),
    {
        Frame::Data { stream_id, flags: Flags::ack(), payload: bytes_new() }
    }

    /// An empty `Data` frame closing the sender's write half.
    pub fn fin(stream_id: u32) -> (f: Self)
        ensures
            f@ == (FrameView::Data { stream_id, flags: Flags { bits: 4 }, payload: Seq::empty() }),
    {
        Frame::Data { stream_id, flags: Flags::fin(), payload: bytes_new() }
    }

    /// An empty `Data` frame resetting a stream.
    pub fn rst(stream_id: u32) -> (f: Self)
        ensures
            f@ == (FrameView::Data { stream_id, flags: Flags { bits: 8 }, payload: Seq::empty() }),
    {
        Frame::Data { stream_id, flags: Flags::rst(), payload: bytes_new() }
    }

    pub fn window_update(stream_id: u32, delta: u32) -> (f: Self)
        ensures
            f@ == (FrameView::WindowUpdate { stream_id, flags: Flags { bits: 0 }, delta }),
    {
        Frame::WindowUpdate { stream_id, flags: Flags::empty(), delta }
    }

    /// A keepalive probe.
    pub fn ping(opaque: u32) -> (f: Self)
        ensures
            f@ == (FrameView::Ping { flags: Flags { bits: 0 }, opaque }),
    {
        Frame::Ping { flags: Flags::empty(), opaque }
    }

    /// The reply to a keepalive probe.
    pub fn pong(opaque: u32) -> (f: Self)
        ensures
            f@ == (FrameView::Ping { flags: Flags { bits: 2 }, opaque }),
    {
        Frame::Ping { flags: Flags::ack(), opaque }
    }

    pub fn go_away(error_code: ErrorCode) -> (f: Self)
        ensures
            f@ == (FrameView::GoAway { error_code }),
    {
        Frame::GoAway { error_code }
    }
}

} // verus!
