//! Transport-facing state: connection flags, receive-frame handling, and the
//! exponential reconnect backoff policy.
//!
//! The duplex channel itself lives outside the library; it hands frames in
//! as plain values and performs the sends, sleeps and closes that these
//! functions decide on.

use vstd::prelude::*;

use crate::error::Error;

verus! {

/// Configuration of the transport connection.
#[derive(Debug, Clone)]
pub struct ClientConfig {
    /// Hub URL.
    pub url: String,
    /// Enable auto-reconnection.
    pub auto_reconnect: bool,
    /// Initial reconnect delay in milliseconds.
    pub reconnect_delay_ms: u64,
    /// Maximum reconnect delay in milliseconds.
    pub max_reconnect_delay_ms: u64,
    /// Maximum reconnection attempts; 0 means unlimited.
    pub max_reconnect_attempts: u32,
}

impl Default for ClientConfig {
    /// Local Hub, auto-reconnect, one-second initial delay doubling up to
    /// thirty seconds, unlimited attempts.
    fn default() -> (c: Self)
        ensures
            c.url@ == "ws://localhost:8080"@,
            c.auto_reconnect,
            c.reconnect_delay_ms == 1000,
            c.max_reconnect_delay_ms == 30000,
            c.max_reconnect_attempts == 0,
    {
        ClientConfig {
            url: "ws://localhost:8080".to_owned(),
            auto_reconnect: true,
            reconnect_delay_ms: 1000,
            max_reconnect_delay_ms: 30000,
            max_reconnect_attempts: 0,
        }
    }
}

impl ClientConfig {
    /// A config for the given URL with the default reconnect policy.
    pub fn new(url: &str) -> (c: ClientConfig)
        ensures
            c.url@ == url@,
            c.auto_reconnect,
            c.reconnect_delay_ms == 1000,
            c.max_reconnect_delay_ms == 30000,
            c.max_reconnect_attempts == 0,
    {
        ClientConfig {
            url: url.to_owned(),
            auto_reconnect: true,
            reconnect_delay_ms: 1000,
            max_reconnect_delay_ms: 30000,
            max_reconnect_attempts: 0,
        }
    }
}

/// The delay that follows `delay` in the backoff schedule: doubled, capped
/// at `max`.
pub open spec fn next_delay_spec(delay: int, max: int) -> int {
    if 2 * delay <= max {
        2 * delay
    } else {
        max
    }
}

/// The `n`-th delay of the backoff schedule starting at `initial` and
/// capped at `max`.
pub open spec fn delay_at(initial: int, max: int, n: nat) -> int
    decreases n,
{
    if n == 0 {
        initial
    } else {
        next_delay_spec(delay_at(initial, max, (n - 1) as nat), max)
    }
}

/// Compute the delay that follows `delay` under cap `max`.
pub fn next_delay(delay: u64, max: u64) -> (r: u64)
    ensures
        r == next_delay_spec(delay as int, max as int),
{
    if delay <= max / 2 {
        delay * 2
    } else {
        max
    }
}

/// The reconnect delays double monotonically from the initial delay and are
/// capped at the maximum: each delay is twice the previous one until the
/// cap, and every delay stays between the initial delay and the cap.
pub proof fn lemma_backoff_sequence(initial: int, max: int, n: nat)
    requires
        0 < initial <= max,
    ensures
        delay_at(initial, max, n + 1) == next_delay_spec(delay_at(initial, max, n), max),
        delay_at(initial, max, n) <= delay_at(initial, max, n + 1),
        initial <= delay_at(initial, max, n) <= max,
    decreases n,
{
    if n > 0 {
        lemma_backoff_sequence(initial, max, (n - 1) as nat);
    }
}

/// A frame handed in by the transport, reduced to plain values.
#[derive(Debug, Clone)]
pub enum Frame {
    /// A text frame: one line of wire JSON.
    Text(String),
    /// A ping carrying a payload to echo.
    Ping(Vec<u8>),
    /// A close frame from the peer.
    Close,
    /// Any other frame kind.
    Other,
    /// A read error, with the transport's message.
    ReadError(String),
    /// The stream ended.
    Ended,
}

/// What to do with a received frame.
#[derive(Debug, Clone)]
pub enum FrameOutcome {
    /// Text to decode and dispatch.
    Message(String),
    /// Answer the ping with this pong payload, invisibly to the caller.
    Pong(Vec<u8>),
    /// Nothing to do; keep receiving.
    Nothing,
    /// The connection failed or closed.
    Failed(Error),
}

/// Connection state: the live flag and the reconnect-attempt counter.
#[derive(Debug, Clone)]
pub struct ConnState {
    /// Whether a channel is currently open.
    pub connected: bool,
    /// Reconnection attempts made for the current drop; reset on connect.
    pub reconnect_count: u32,
}

impl ConnState {
    /// Initial state: no channel, no attempts.
    pub fn new() -> (s: ConnState)
        ensures
            !s.connected,
            s.reconnect_count == 0,
    {
        ConnState { connected: false, reconnect_count: 0 }
    }

    /// Record a successful connect: live, counter reset.
    pub fn on_connected(&mut self)
        ensures
            final(self).connected,
            final(self).reconnect_count == 0,
    {
        self.connected = true;
        self.reconnect_count = 0;
    }

    /// Classify a received frame. Text is handed on; a close frame or a
    /// read error drops the live flag and fails; pings are answered with a
    /// pong; other frames are ignored.
    pub fn handle_frame(&mut self, f: Frame) -> (r: FrameOutcome)
        ensures
            final(self).reconnect_count == old(self).reconnect_count,
            f matches Frame::Text(t) ==> *final(self) == *old(self) && r == FrameOutcome::Message(
                t,
            ),
            f matches Frame::Ping(d) ==> *final(self) == *old(self) && r == FrameOutcome::Pong(d),
            f matches Frame::Other ==> *final(self) == *old(self) && r == FrameOutcome::Nothing,
            f matches Frame::Close ==> !final(self).connected && (r matches FrameOutcome::Failed(
                Error::ConnectionClosed(m),
            ) && m@ == "Closed by Hub"@),
            f matches Frame::Ended ==> !final(self).connected && (r matches FrameOutcome::Failed(
                Error::ConnectionClosed(m),
            ) && m@ == "Stream ended"@),
            f matches Frame::ReadError(e) ==> !final(self).connected && r
                == FrameOutcome::Failed(Error::Connection(e)),
    {
        match f {
            Frame::Text(t) => FrameOutcome::Message(t),
            Frame::Ping(d) => FrameOutcome::Pong(d),
            Frame::Other => FrameOutcome::Nothing,
            Frame::Close => {
                self.connected = false;
                FrameOutcome::Failed(Error::ConnectionClosed("Closed by Hub".to_owned()))
            },
            Frame::Ended => {
                self.connected = false;
                FrameOutcome::Failed(Error::ConnectionClosed("Stream ended".to_owned()))
            },
            Frame::ReadError(e) => {
                self.connected = false;
                FrameOutcome::Failed(Error::Connection(e))
            },
        }
    }

    /// Record a closed channel.
    pub fn on_closed(&mut self)
        ensures
            !final(self).connected,
            final(self).reconnect_count == old(self).reconnect_count,
    {
        self.connected = false;
    }
}

} // verus!
