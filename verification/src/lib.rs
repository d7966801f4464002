//! Timers that run, pause and complete, and the service that keeps a set of
//! them and answers requests about them.

pub mod clock;
pub mod text;
pub mod timer;
pub mod service;
