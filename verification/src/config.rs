//! Transport and connector configuration: the fixed parameters every
//! connection is built with, and the client's event counter that survives
//! reconnects.

use vstd::prelude::*;
use crate::{
    CONNECT_RETRY_DELAY_SECS, IDLE_TIMEOUT_SECS, KEEP_ALIVE_SECS, MAX_BIDIRECTIONAL_STREAMS,
    MAX_CONNECTIONS, MAX_CONNECT_RETRIES, STARTUP_DELAY_SECS,
};

verus! {

/// The protocol's ALPN identifier, negotiated on every connection.
pub fn alpn_protocol() -> (r: &'static str)
    ensures
        r@ == "proton"@,
{
    "proton"
}

/// The transport parameters every Proton connection is configured with.
#[derive(Clone, Copy, Debug, PartialEq, Eq, Structural)]
pub struct TransportParams {
    pub idle_timeout_secs: u64,
    pub keep_alive_secs: u64,
    pub max_bidi_streams: u32,
    pub max_connections: u32,
}

/// The fixed transport parameters: 5 s idle timeout, 5 s keep-alive, at most
/// 3 bidirectional streams, and at most 1 connection served at a time.
pub fn transport_params() -> (p: TransportParams)
    ensures
        p.idle_timeout_secs == IDLE_TIMEOUT_SECS,
        p.keep_alive_secs == KEEP_ALIVE_SECS,
        p.max_bidi_streams == MAX_BIDIRECTIONAL_STREAMS,
        p.max_connections == MAX_CONNECTIONS,
{
    TransportParams {
        idle_timeout_secs: IDLE_TIMEOUT_SECS,
        keep_alive_secs: KEEP_ALIVE_SECS,
        max_bidi_streams: MAX_BIDIRECTIONAL_STREAMS,
        max_connections: MAX_CONNECTIONS,
    }
}

/// The client connector's configuration. The retry fields are configuration
/// for a wrapper that does not exist yet: no call path consumes them, and
/// connect failures surface directly.
#[derive(Clone, Copy, Debug, PartialEq, Eq, Structural)]
pub struct ConnectorConfig {
    pub startup_delay_secs: u64,
    pub max_retries: u32,
    pub retry_delay_secs: u64,
}

impl ConnectorConfig {
    /// The default connector configuration: a 10 s startup delay (twice the
    /// idle timeout) and the unconsumed retry constants.
    pub fn defaults() -> (c: Self)
        ensures
            c.startup_delay_secs == STARTUP_DELAY_SECS,
            c.max_retries == MAX_CONNECT_RETRIES,
            c.retry_delay_secs == CONNECT_RETRY_DELAY_SECS,
    {
        ConnectorConfig {
            startup_delay_secs: STARTUP_DELAY_SECS,
            max_retries: MAX_CONNECT_RETRIES,
            retry_delay_secs: CONNECT_RETRY_DELAY_SECS,
        }
    }

    /// The startup delay one connect attempt waits: the delay requested at
    /// the call site, or this configuration's default when none was.
    pub fn effective_startup_delay(&self, requested: Option<u64>) -> (d: u64)
        ensures
            requested matches Some(secs) ==> d == secs,
            requested is None ==> d == self.startup_delay_secs,
    {
        match requested {
            Some(secs) => secs,
            None => self.startup_delay_secs,
        }
    }
}

/// The client's event counter. It belongs to the client, not to one
/// connection, so it keeps growing across reconnects within the same client.
#[derive(Clone, Copy, Debug, PartialEq, Eq, Structural)]
pub struct EventCounter {
    pub last_event_id: u32,
}

impl EventCounter {
    /// A new client's counter: no event sent yet.
    pub fn new() -> (c: Self)
        ensures
            c.last_event_id == 0,
    {
        EventCounter { last_event_id: 0 }
    }

    /// Take the next event id: one more than the last. The counter is
    /// advanced before the send, so a failed send still consumes the id.
    pub fn next_event_id(&mut self) -> (id: u32)
        requires
            old(self).last_event_id < u32::MAX,
        ensures
            id == old(self).last_event_id + 1,
            final(self).last_event_id == id,
    {
        self.last_event_id = self.last_event_id + 1;
        self.last_event_id
    }
}

} // verus!
