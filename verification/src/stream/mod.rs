//! Logical streams: their state, inbound buffer and protocol behaviour.

pub mod delivery;
pub mod inner;
pub mod recv;
pub mod state;
