//! Small shared utilities.

pub mod id;
