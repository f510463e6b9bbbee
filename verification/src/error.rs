//! Error taxonomy of the session engine.

use vstd::prelude::*;

verus! {

/// Errors that can occur while running a Sentinel session.
///
/// Transport failures (`Connection`, `ConnectionClosed`) are recoverable via
/// reconnect; the rest are surfaced to the caller. Outside failures are
/// carried as plain text, never as foreign error values.
#[derive(Debug, Clone, PartialEq, Eq)]
pub enum Error {
    /// Transport-level failure of the underlying channel.
    Connection(String),
    /// Malformed inbound payload.
    Json(String),
    /// Token signature, structure, or expiry failure.
    Jwt(String),
    /// Protocol error reported by the Hub.
    Protocol { code: i32, message: String },
    /// Peer-initiated close or end of stream.
    ConnectionClosed(String),
    /// Timeout waiting for a correlated response.
    Timeout,
    /// Operation attempted with no live channel.
    NotConnected,
    /// Invalid configuration.
    InvalidConfig(String),
    /// Session already started.
    AlreadyRunning,
    /// Internal delivery failure.
    ChannelError,
    /// Reconnect attempt budget exceeded.
    ReconnectExhausted,
    /// Registration/challenge handshake failure: rejection, missing
    /// challenge, or timeout.
    Handshake(String),
}

} // verus!
