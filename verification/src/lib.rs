//! The rules of a small HTTP service: how its configuration is read from raw
//! values, what its endpoints answer, and in which order it shuts down.
//!
//! Nothing here performs I/O. A driver reads the environment, owns the
//! listener and the timers, and asks this crate what to do next.

pub mod config;
pub mod decimal;
pub mod lifecycle;
pub mod response;
pub mod shutdown;
pub mod trace;
