//! Small helpers for the wire.

pub mod decimal;
pub mod sse;
