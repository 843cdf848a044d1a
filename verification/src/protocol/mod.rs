//! Wire protocol: frame definitions and codec.
//!
//! All on-the-wire framing is defined here. Higher layers only deal in
//! [`Frame`] values; the binary format is encapsulated in [`FrameCodec`].

pub mod flags;
pub mod frame;
pub mod header;
pub mod codec;
