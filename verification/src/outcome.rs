//! The result of one echo exchange, as the engine and the statistics
//! accumulator consume it: produced once per exchange, immutable.

use vstd::prelude::*;

verus! {

/// Why an exchange produced no reply beyond an ordinary timeout.
#[derive(Clone, Copy, Debug)]
pub enum TransportError {
    /// The platform echo primitive failed with the given error code.
    Platform { code: u32 },
    /// The transport returned a reply buffer too short to hold a reply.
    MalformedReply,
}

/// The outcome of one echo-request/echo-reply exchange.
#[derive(Clone, Copy, Debug)]
pub enum EchoOutcome {
    /// A reply arrived within the timeout.
    Replied { round_trip_time: u32, ttl_observed: u8 },
    /// No reply arrived within the timeout.
    TimedOut,
    /// The exchange failed outright; recorded as a lost packet.
    TransportFailed { error: TransportError },
}

} // verus!
