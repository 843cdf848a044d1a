//! Connection multiplexing: one ordered byte stream carries many logical
//! bidirectional streams, with credit-based flow control per stream.
//!
//! This crate holds the protocol logic: the wire format and its codec,
//! stream id allocation, the flow-control windows, the per-stream state
//! machine and the session's decisions. The runtime that drives them over a
//! real connection lives beside it.

pub mod buffers;
pub mod config;
pub mod error;
pub mod flow;
pub mod protocol;
pub mod session;
pub mod stream;
pub mod util;

pub use crate::config::{Config, ConfigBuilder};
pub use crate::error::{Error, ErrorCode, IoKind, Result};
pub use crate::flow::window::{AcquireOutcome, RecvWindow, SendWindow};
pub use crate::protocol::codec::FrameCodec;
pub use crate::protocol::flags::Flags;
pub use crate::protocol::frame::Frame;
pub use crate::protocol::header::{FrameType, Header, HEADER_LEN, PROTOCOL_VERSION};
pub use crate::session::control::{DataRoute, PingAction, SessionControl};
pub use crate::session::keepalive::{KeepaliveAction, KeepaliveEvent, KeepaliveState};
pub use crate::session::registry::StreamRegistry;
pub use crate::stream::inner::{AckStatus, Effects, Origin, ReadOutcome, StreamCore, WriteOutcome};
pub use crate::stream::recv::RecvBuffer;
pub use crate::stream::state::StreamState;
pub use crate::util::id::{Role, StreamId, StreamIdAllocator};
