//! Per-stream flow-control primitives.

pub mod window;

pub use window::{AcquireOutcome, RecvWindow, SendWindow};
