//! Proton: a three-channel request/response protocol multiplexed over one
//! transport connection.
//!
//! A connection carries exactly three logical channels — Event, StateCommit
//! and Action — each bound to its own bidirectional stream by a one-byte
//! discriminator handshake and then driven in strict request/response order
//! with 4-byte little-endian payloads. The server admits at most one
//! connection at a time.
//!
//! This crate holds the protocol's decisions: the wire codec, the stream-role
//! handshake, the per-channel state machines, connection admission, and the
//! close-code and error taxonomy. The transport itself (QUIC, TLS, timers) is
//! driven by an unverified shell that feeds events in and carries actions out.

use vstd::prelude::*;

pub mod admission;
pub mod channels;
pub mod config;
pub mod errors;
pub mod handshake;
pub mod repl;
pub mod session;
pub mod wire;

verus! {

/// Discriminator byte that binds a stream to the Event channel.
pub const STREAM_EVENT: u8 = 1;

/// Discriminator byte that binds a stream to the StateCommit channel.
pub const STREAM_STATE_COMMIT: u8 = 2;

/// Discriminator byte that binds a stream to the Action channel.
pub const STREAM_ACTION: u8 = 3;

/// A connection carries at most this many bidirectional streams.
pub const MAX_BIDIRECTIONAL_STREAMS: u32 = 3;

/// The server serves at most this many transport connections at a time.
pub const MAX_CONNECTIONS: u32 = 1;

/// Configured retry bound for connecting; kept as configuration, not yet
/// consumed by any call path.
pub const MAX_CONNECT_RETRIES: u32 = 5;

/// Configured delay between connect retries, in seconds; kept as
/// configuration, not yet consumed by any call path.
pub const CONNECT_RETRY_DELAY_SECS: u64 = 2;

/// Transport idle timeout, in seconds.
pub const IDLE_TIMEOUT_SECS: u64 = 5;

/// Default delay before connecting or accepting, in seconds: twice the idle
/// timeout, so a previous connection on the same address has timed out.
pub const STARTUP_DELAY_SECS: u64 = 10;

/// Deadline for each channel read or write, in seconds.
pub const STREAM_TIMEOUT_SECS: u64 = 300;

/// Deadline for the server to accept each of the three streams, in seconds.
pub const HANDSHAKE_ACCEPT_TIMEOUT_SECS: u64 = 5;

/// Keep-alive interval, in seconds.
pub const KEEP_ALIVE_SECS: u64 = 5;

/// Fixed probe payload the client sends on the Action channel.
pub const ACTION_REQUEST_ID: u32 = 42;

} // verus!
