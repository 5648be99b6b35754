//! The exchange protocol's data: echo-request payload construction, the
//! don't-fragment option flag, and the checked decoding of the transport's
//! reply buffer into a classified outcome. The reply buffer holds a
//! fixed-layout reply record — address, status, round-trip time, data size,
//! then the option bytes — followed by the echoed payload; it is parsed
//! bounds-checked, byte by byte, never reinterpreted in place.

use vstd::prelude::*;

use crate::outcome::EchoOutcome;
use crate::outcome::TransportError;

verus! {

/// Length in bytes of the fixed reply record at the head of the reply
/// buffer (on the 64-bit platform layout the engine is built for).
pub const ECHO_REPLY_HEADER_LEN: usize = 40;

/// Byte offset of the reply status within the reply record.
pub const REPLY_STATUS_OFFSET: usize = 4;

/// Byte offset of the round-trip time within the reply record.
pub const REPLY_RTT_OFFSET: usize = 8;

/// Byte offset of the echoed data size within the reply record.
pub const REPLY_DATA_SIZE_OFFSET: usize = 12;

/// Byte offset of the reply's observed time-to-live within the reply record.
pub const REPLY_TTL_OFFSET: usize = 24;

/// The platform status code for a successful echo.
pub const IP_STATUS_SUCCESS: u32 = 0;

/// The platform status code for a request that timed out.
pub const IP_STATUS_TIMED_OUT: u32 = 11010;

/// The option flag bit that sets don't-fragment on the request.
pub const IP_FLAG_DONT_FRAGMENT: u8 = 2;

/// The 16-bit little-endian value at offset `i` of `s`.
pub open spec fn le_u16(s: Seq<u8>, i: int) -> u16 {
    (s[i] + s[i + 1] * 0x100) as u16
}

/// The 32-bit little-endian value at offset `i` of `s`.
pub open spec fn le_u32(s: Seq<u8>, i: int) -> u32 {
    (s[i] + s[i + 1] * 0x100 + s[i + 2] * 0x1_0000 + s[i + 3] * 0x100_0000) as u32
}

/// The fields of one decoded echo reply.
#[derive(Clone, Copy, Debug)]
pub struct EchoReply {
    /// The replying address, in network byte order as the transport stores
    /// it; `crate::addr::Ipv4Address::from_network_order` decodes it.
    pub address: u32,
    pub status: u32,
    pub round_trip_time: u32,
    pub data_size: u16,
    pub ttl: u8,
}

/// The payload byte at position `i`: the upper-case alphabet, repeating.
pub open spec fn payload_byte(i: int) -> int {
    65 + (i % 26)
}

/// Build the echo-request payload: `size` bytes cycling through the
/// upper-case alphabet, as the classic ping payload does.
pub fn build_payload(size: u16) -> (p: Vec<u8>)
    ensures
        p@.len() == size,
        forall|i: int| 0 <= i < size ==> p@[i] == payload_byte(i),
{
    let mut p: Vec<u8> = Vec::new();
    let mut i: u16 = 0;
    while i < size
        invariant
            i <= size,
            p@.len() == i,
            forall|j: int| 0 <= j < i ==> p@[j] == payload_byte(j),
        decreases size - i,
    {
        p.push(65u8 + (i % 26) as u8);
        i = i + 1;
    }
    p
}

/// The option flags byte for a request: the don't-fragment bit or nothing.
pub fn ip_option_flags(dont_fragment: bool) -> (f: u8)
    ensures
        f == if dont_fragment {
            IP_FLAG_DONT_FRAGMENT as int
        } else {
            0
        },
{
    if dont_fragment {
        IP_FLAG_DONT_FRAGMENT
    } else {
        0
    }
}

/// Length of the buffer the transport needs for one reply: the fixed reply
/// record followed by room for the echoed payload.
pub fn reply_buffer_len(payload_size: u16) -> (n: usize)
    ensures
        n == ECHO_REPLY_HEADER_LEN + payload_size,
{
    ECHO_REPLY_HEADER_LEN + payload_size as usize
}

/// The decoded reply record, or `None` where the buffer cannot hold one.
pub open spec fn spec_parse_echo_reply(s: Seq<u8>) -> Option<EchoReply> {
    if s.len() < ECHO_REPLY_HEADER_LEN {
        None
    } else {
        Some(
            EchoReply {
                address: le_u32(s, 0),
                status: le_u32(s, REPLY_STATUS_OFFSET as int),
                round_trip_time: le_u32(s, REPLY_RTT_OFFSET as int),
                data_size: le_u16(s, REPLY_DATA_SIZE_OFFSET as int),
                ttl: s[REPLY_TTL_OFFSET as int],
            },
        )
    }
}

fn read_le_u16(buf: &Vec<u8>, i: usize) -> (v: u16)
    requires
        i + 2 <= buf@.len(),
    ensures
        v == le_u16(buf@, i as int),
{
    let n: usize = buf.len();
    assert(i + 2 <= n);
    buf[i] as u16 + (buf[i + 1] as u16) * 0x100
}

fn read_le_u32(buf: &Vec<u8>, i: usize) -> (v: u32)
    requires
        i + 4 <= buf@.len(),
    ensures
        v == le_u32(buf@, i as int),
{
    let n: usize = buf.len();
    assert(i + 4 <= n);
    buf[i] as u32 + (buf[i + 1] as u32) * 0x100 + (buf[i + 2] as u32) * 0x1_0000 + (buf[i
        + 3] as u32) * 0x100_0000
}

/// Decode the reply record from the buffer the transport filled,
/// bounds-checked: a buffer shorter than the record is rejected.
pub fn parse_echo_reply(buf: &Vec<u8>) -> (r: Option<EchoReply>)
    ensures
        r == spec_parse_echo_reply(buf@),
{
    if buf.len() < ECHO_REPLY_HEADER_LEN {
        return None;
    }
    Some(
        EchoReply {
            address: read_le_u32(buf, 0),
            status: read_le_u32(buf, REPLY_STATUS_OFFSET),
            round_trip_time: read_le_u32(buf, REPLY_RTT_OFFSET),
            data_size: read_le_u16(buf, REPLY_DATA_SIZE_OFFSET),
            ttl: buf[REPLY_TTL_OFFSET],
        },
    )
}

/// The outcome a decoded reply stands for: success with its round-trip time
/// and observed time-to-live, a timeout, or a per-request transport failure
/// carrying the platform status code.
pub open spec fn spec_classify_reply(r: EchoReply) -> EchoOutcome {
    if r.status == IP_STATUS_SUCCESS {
        EchoOutcome::Replied { round_trip_time: r.round_trip_time, ttl_observed: r.ttl }
    } else if r.status == IP_STATUS_TIMED_OUT {
        EchoOutcome::TimedOut
    } else {
        EchoOutcome::TransportFailed { error: TransportError::Platform { code: r.status } }
    }
}

/// Classify one decoded reply record.
pub fn classify_reply(r: &EchoReply) -> (o: EchoOutcome)
    ensures
        o == spec_classify_reply(*r),
{
    if r.status == IP_STATUS_SUCCESS {
        EchoOutcome::Replied { round_trip_time: r.round_trip_time, ttl_observed: r.ttl }
    } else if r.status == IP_STATUS_TIMED_OUT {
        EchoOutcome::TimedOut
    } else {
        EchoOutcome::TransportFailed { error: TransportError::Platform { code: r.status } }
    }
}

/// The outcome of one whole exchange, from what the transport call returned:
/// a failed call is a timeout when its error code says so and a transport
/// failure otherwise; a successful call is classified from its decoded
/// reply, and a buffer too short for a reply is a malformed-reply failure.
pub open spec fn spec_classify_exchange(call_ok: bool, error_code: u32, buf: Seq<u8>) -> EchoOutcome {
    if !call_ok {
        if error_code == IP_STATUS_TIMED_OUT {
            EchoOutcome::TimedOut
        } else {
            EchoOutcome::TransportFailed { error: TransportError::Platform { code: error_code } }
        }
    } else {
        match spec_parse_echo_reply(buf) {
            Some(r) => spec_classify_reply(r),
            None => EchoOutcome::TransportFailed { error: TransportError::MalformedReply },
        }
    }
}

/// Classify one exchange: `call_ok` and `error_code` say how the transport
/// call itself ended, `reply_buf` is the buffer it filled.
pub fn classify_exchange(call_ok: bool, error_code: u32, reply_buf: &Vec<u8>) -> (o: EchoOutcome)
    ensures
        o == spec_classify_exchange(call_ok, error_code, reply_buf@),
{
    if !call_ok {
        if error_code == IP_STATUS_TIMED_OUT {
            EchoOutcome::TimedOut
        } else {
            EchoOutcome::TransportFailed { error: TransportError::Platform { code: error_code } }
        }
    } else {
        match parse_echo_reply(reply_buf) {
            Some(r) => classify_reply(&r),
            None => EchoOutcome::TransportFailed { error: TransportError::MalformedReply },
        }
    }
}

} // verus!
