//! Protocol engine of a supervisor that relays the log stream of a child
//! server process and answers the control messages embedded in it.
//!
//! Everything here works on plain values: log records come in as text,
//! outgoing commands leave as lines appended to a queue. Reading the child's
//! output and writing to its input is left to the caller.

pub mod action;
pub mod chunk;
pub mod codec;
pub mod dispatch;
pub mod framer;
pub mod json;
pub mod level;
pub mod notify;
pub mod outgoing;
pub mod pattern;
pub mod platform;
pub mod player;
pub mod relay;
pub mod reply;
pub mod text;
