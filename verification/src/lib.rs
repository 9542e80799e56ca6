//! A minimal real-time event broadcaster: one shared monotonic sequence
//! counter, advanced by `push` calls, whose every advance is fanned out live
//! to all currently subscribed consumers over a bounded broadcast channel.
//!
//! Late subscribers see no history, slow subscribers lag rather than block
//! the producer, and every subscription is torn down independently.

pub mod broadcaster;
pub mod channel;
pub mod counter;
pub mod laws;
