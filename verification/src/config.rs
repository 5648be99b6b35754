//! The engine's configuration, immutable for its lifetime, with the defaults
//! the command line uses.

use vstd::prelude::*;

use crate::addr::Ipv4Address;

verus! {

/// Default number of echo requests to send.
pub const DEFAULT_COUNT: u32 = 4;

/// Default payload size in bytes.
pub const DEFAULT_PAYLOAD_SIZE: u16 = 32;

/// Default per-request timeout in milliseconds.
pub const DEFAULT_TIMEOUT_MS: u32 = 4000;

/// Default time-to-live.
pub const DEFAULT_TTL: u8 = 128;

/// Why a configuration was rejected.
#[derive(Clone, Copy, Debug, PartialEq, Eq, Structural)]
pub enum ConfigError {
    /// A fixed request count of zero with repeat-until-stopped off: the run
    /// would do nothing.
    ZeroRequestCount,
}

/// Everything the engine needs for a run. The payload size is a `u16`
/// because the transport carries the echoed data size in a 16-bit field.
#[derive(Clone, Copy, Debug)]
pub struct PingConfiguration {
    pub destination: Ipv4Address,
    /// Keep pinging until a stop is requested; `count` is ignored then.
    pub repeat_until_stopped: bool,
    pub count: u32,
    pub payload_size: u16,
    pub dont_fragment: bool,
    pub ttl: u8,
    pub timeout_ms: u32,
    pub source: Option<Ipv4Address>,
}

impl PingConfiguration {
    /// A bounded run asks for at least one request.
    pub open spec fn wf(self) -> bool {
        self.repeat_until_stopped || self.count >= 1
    }

    /// The defaults for a destination: four requests of 32 bytes, a
    /// 4000 ms timeout, time-to-live 128, no flags, no source address.
    pub fn with_defaults(destination: Ipv4Address) -> (c: PingConfiguration)
        ensures
            c == (PingConfiguration {
                destination,
                repeat_until_stopped: false,
                count: DEFAULT_COUNT,
                payload_size: DEFAULT_PAYLOAD_SIZE,
                dont_fragment: false,
                ttl: DEFAULT_TTL,
                timeout_ms: DEFAULT_TIMEOUT_MS,
                source: None,
            }),
            c.wf(),
    {
        PingConfiguration {
            destination,
            repeat_until_stopped: false,
            count: DEFAULT_COUNT,
            payload_size: DEFAULT_PAYLOAD_SIZE,
            dont_fragment: false,
            ttl: DEFAULT_TTL,
            timeout_ms: DEFAULT_TIMEOUT_MS,
            source: None,
        }
    }

    /// Validate and build a configuration from its parts. Succeeds exactly
    /// when the parts describe a run that does something: repeat-until-
    /// stopped, or a request count of at least one.
    pub fn build(
        destination: Ipv4Address,
        repeat_until_stopped: bool,
        count: u32,
        payload_size: u16,
        dont_fragment: bool,
        ttl: u8,
        timeout_ms: u32,
        source: Option<Ipv4Address>,
    ) -> (r: Result<PingConfiguration, ConfigError>)
        ensures
            r is Ok <==> (repeat_until_stopped || count >= 1),
            r matches Ok(c) ==> c == (PingConfiguration {
                destination,
                repeat_until_stopped,
                count,
                payload_size,
                dont_fragment,
                ttl,
                timeout_ms,
                source,
            }) && c.wf(),
            r matches Err(e) ==> e == ConfigError::ZeroRequestCount,
    {
        if !repeat_until_stopped && count == 0 {
            Err(ConfigError::ZeroRequestCount)
        } else {
            Ok(
                PingConfiguration {
                    destination,
                    repeat_until_stopped,
                    count,
                    payload_size,
                    dont_fragment,
                    ttl,
                    timeout_ms,
                    source,
                },
            )
        }
    }
}

} // verus!
