//! Session-level decisions: opening streams, admitting the peer's streams,
//! routing inbound frames and shutting down.

pub mod control;
pub mod keepalive;
pub mod registry;
