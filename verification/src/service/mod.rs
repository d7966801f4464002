//! The timer service: the timers it keeps, the messages it answers with, and
//! the replies its HTTP interface makes of them.

pub mod timer;
pub mod message;
pub mod tomayto;
pub mod reply;
