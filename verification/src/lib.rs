//! A pomodoro work/break timer block for a status-bar host.
//!
//! The block owns a four-phase state machine (stopped, started, paused,
//! on break), renders a `"{count} | {m}:{ss}"` label, and decides when a
//! desktop notification is due. All time arithmetic is over plain
//! millisecond readings of a monotonic clock, supplied by the caller.

pub mod input;
pub mod label;
pub mod laws;
pub mod pomodoro;
pub mod widget;
