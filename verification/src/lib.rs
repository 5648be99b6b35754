//! Verified core of a command-line ICMP ping utility.
//!
//! The library holds everything with real protocol or state-machine content:
//! the echo-request payload and reply-buffer handling, the statistics
//! accumulator, the interrupt state machine, and the engine that schedules
//! exchanges. Name resolution, raw ICMP handles and console plumbing live in
//! the unverified application layer around this crate.

pub mod addr;
pub mod config;
pub mod engine;
pub mod interrupt;
pub mod outcome;
pub mod packet;
pub mod stats;
