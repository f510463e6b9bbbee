//! The Sentinel session: configuration and the dispatcher state machine.
//!
//! The session is a pure state machine over
//! `Idle, Connecting, Handshaking, Running, Reconnecting, Stopped`. The
//! loop that owns the socket lives outside the library; it feeds transport
//! events in as plain values and carries out the actions (send this text,
//! sleep this long, deliver to this callback) that the machine decides on.
//! Trust is connection-scoped: every transition into `Handshaking` resets
//! the handshake machine, so a stale `Ready` is never reused across a new
//! socket, and inbound traffic is dispatched to callbacks only in
//! `Running`.

use vstd::prelude::*;

use crate::auth::token_claims;
use crate::auth::JwtHandler;
use crate::client::next_delay;
use crate::client::next_delay_spec;
use crate::client::ClientConfig;
use crate::client::ConnState;
use crate::error::Error;
use crate::handshake::hs_on_challenge_sent;
use crate::handshake::hs_wf;
use crate::handshake::hs_on_response;
use crate::handshake::hs_on_timeout;
use crate::handshake::hs_start;
use crate::handshake::hs_timed_out;
use crate::handshake::Handshake;
use crate::handshake::HandshakeFailureReason;
use crate::handshake::HandshakePhase;
use crate::messages::ActionCommand;
use crate::messages::PreCheckParams;
use crate::messages::PreCheckResponse;
use crate::messages::RegistrationParams;
use crate::methods;
use crate::wire;
use crate::wire::str_eq;

verus! {

/// The default handshake window, measured from handshake start: ten
/// seconds.
pub const HANDSHAKE_TIMEOUT_MS: u64 = 10000;

/// Priorities are clamped into 1 to 10; inputs outside saturate.
pub open spec fn clamp_priority(p: int) -> int {
    if p < 1 {
        1
    } else if p > 10 {
        10
    } else {
        p
    }
}

/// Sentinel configuration: identity, priority, what it monitors, the
/// optional shared secret, and the auto-reconnect flag. Immutable once the
/// session starts.
#[derive(Debug, Clone)]
pub struct SentinelConfig {
    /// Sentinel layer name.
    pub name: String,
    /// Priority, clamped into 1 to 10; lower is higher priority.
    pub priority: u8,
    /// Capability tags.
    pub capabilities: Vec<String>,
    /// Selectors to monitor.
    pub selectors: Vec<String>,
    /// Shared secret; its absence disables the token in registration, but
    /// the challenge exchange still occurs.
    pub jwt_secret: Option<String>,
    /// Reconnect automatically on connection loss.
    pub auto_reconnect: bool,
    /// The handshake window in milliseconds, measured from handshake
    /// start.
    pub handshake_timeout_ms: u64,
}

impl SentinelConfig {
    /// Create a configuration. The priority saturates into 1 to 10 rather
    /// than erroring.
    pub fn new(name: &str, priority: u8) -> (c: SentinelConfig)
        ensures
            c.name@ == name@,
            c.priority as int == clamp_priority(priority as int),
            1 <= c.priority <= 10,
            c.capabilities@.len() == 0,
            c.selectors@.len() == 0,
            c.jwt_secret is None,
            c.auto_reconnect,
            c.handshake_timeout_ms == HANDSHAKE_TIMEOUT_MS,
    {
        let p: u8 = if priority < 1 {
            1
        } else if priority > 10 {
            10
        } else {
            priority
        };
        SentinelConfig {
            name: name.to_owned(),
            priority: p,
            capabilities: Vec::new(),
            selectors: Vec::new(),
            jwt_secret: None,
            auto_reconnect: true,
            handshake_timeout_ms: HANDSHAKE_TIMEOUT_MS,
        }
    }

    /// Set the capability tags.
    pub fn with_capabilities(self, caps: Vec<String>) -> (c: SentinelConfig)
        ensures
            c == (SentinelConfig { capabilities: caps, ..self }),
    {
        SentinelConfig { capabilities: caps, ..self }
    }

    /// Set the monitored selectors.
    pub fn with_selectors(self, sels: Vec<String>) -> (c: SentinelConfig)
        ensures
            c == (SentinelConfig { selectors: sels, ..self }),
    {
        SentinelConfig { selectors: sels, ..self }
    }

    /// Set the handshake window in milliseconds.
    pub fn with_handshake_timeout_ms(self, ms: u64) -> (c: SentinelConfig)
        ensures
            c == (SentinelConfig { handshake_timeout_ms: ms, ..self }),
    {
        SentinelConfig { handshake_timeout_ms: ms, ..self }
    }

    /// Set the shared secret used to sign registration tokens.
    pub fn with_jwt_secret(self, secret: &str) -> (c: SentinelConfig)
        ensures
            c.jwt_secret matches Some(s) && s@ == secret@,
            c.name == self.name,
            c.priority == self.priority,
            c.capabilities == self.capabilities,
            c.selectors == self.selectors,
            c.auto_reconnect == self.auto_reconnect,
            c.handshake_timeout_ms == self.handshake_timeout_ms,
    {
        SentinelConfig { jwt_secret: Some(secret.to_owned()), ..self }
    }

    /// Disable auto-reconnect.
    pub fn without_auto_reconnect(self) -> (c: SentinelConfig)
        ensures
            c == (SentinelConfig { auto_reconnect: false, ..self }),
    {
        SentinelConfig { auto_reconnect: false, ..self }
    }
}

/// The baseline handler decision: always clear pre-checks.
pub struct DefaultHandler;

impl DefaultHandler {
    /// The default pre-check decision: all clear, whatever the query.
    pub fn on_pre_check(&self, params: &PreCheckParams) -> (r: PreCheckResponse)
        ensures
            r is Clear,
    {
        let _ = params;
        PreCheckResponse::Clear
    }
}

/// Relies on `uuid::Uuid::new_v4` for a fresh random request identifier
/// under the given prefix. Nothing is assumed of the value: correlation
/// compares the stored identifier itself.
#[verifier::external_body]
pub fn new_request_id(prefix: &str) -> String {
    format!("{}-{}", prefix, uuid::Uuid::new_v4())
}

/// The dispatcher's lifecycle states.
#[derive(Debug, Clone, Copy, PartialEq, Eq, Structural)]
pub enum SessionState {
    Idle,
    Connecting,
    Handshaking,
    Running,
    Reconnecting,
    Stopped,
}

/// Where the dispatcher routes an inbound request or notification.
#[derive(Debug, Clone, Copy, PartialEq, Eq, Structural)]
pub enum Dispatch {
    /// Deliver to the pre-check hook; its decision is sent back.
    PreCheck,
    /// Deliver to the entropy-update hook; no reply.
    Entropy,
    /// Deliver to the context-update hook; no reply.
    ContextUpdate,
    /// Unknown method, or the session is not running: ignore.
    Ignored,
}

/// What an inbound response during the handshake led to.
#[derive(Debug, Clone)]
pub enum HandshakeStep {
    /// Send this challenge echo on the wire.
    SendText(String),
    /// The handshake completed; the session is now running.
    Ready,
    /// The response did not correlate; keep waiting.
    Ignored,
}

/// What to do after the connection closed.
#[derive(Debug, Clone, Copy, PartialEq, Eq, Structural)]
pub enum CloseDecision {
    /// Reconnect with backoff, then re-prove trust with a fresh handshake.
    Reconnect,
    /// Stop the session.
    Stop,
}

/// A Sentinel session.
pub struct Sentinel {
    /// The immutable configuration.
    pub config: SentinelConfig,
    /// Token issuer, present exactly when a secret is configured.
    pub jwt_handler: Option<JwtHandler>,
    /// Transport configuration, set when the session starts.
    pub client_config: Option<ClientConfig>,
    /// The lifecycle state.
    pub state: SessionState,
    /// The running flag observed by the receive loop.
    pub running: bool,
    /// Connection state.
    pub conn: ConnState,
    /// The handshake of the current connection.
    pub handshake: Handshake,
    /// Whether the current handshake follows a reconnect; its failure then
    /// stops the session instead of leaving it idle.
    pub after_reconnect: bool,
    /// The delay before the next reconnect attempt.
    pub backoff_delay_ms: u64,
    /// Reconnect attempts made for the current drop.
    pub reconnect_attempts: u32,
}

/// The configured maximum reconnect attempts; 0 means unlimited.
pub open spec fn spec_max_attempts(s: Sentinel) -> u32 {
    match s.client_config {
        Some(c) => c.max_reconnect_attempts,
        None => 0,
    }
}

/// The configured backoff cap.
pub open spec fn spec_max_delay(s: Sentinel) -> u64 {
    match s.client_config {
        Some(c) => c.max_reconnect_delay_ms,
        None => 30000,
    }
}

/// The configured initial backoff delay.
pub open spec fn spec_initial_delay(s: Sentinel) -> u64 {
    match s.client_config {
        Some(c) => c.reconnect_delay_ms,
        None => 1000,
    }
}

/// Saturating increment of the attempt counter.
pub open spec fn spec_sat_inc(a: u32) -> u32 {
    if a == u32::MAX {
        u32::MAX
    } else {
        (a + 1) as u32
    }
}

/// The session after `start`: only an idle session moves, to `Connecting`,
/// taking the transport configuration.
pub open spec fn spec_start(s: Sentinel, cfg: ClientConfig) -> Sentinel {
    if s.state == SessionState::Idle {
        Sentinel { state: SessionState::Connecting, client_config: Some(cfg), ..s }
    } else {
        s
    }
}

/// The session after the transport reports an open channel: from
/// `Connecting` or `Reconnecting` it enters `Handshaking` with a fresh
/// handshake started under `reg_id` — trust is connection-scoped and is
/// re-proven from scratch after every reconnect.
pub open spec fn spec_on_transport_connected(s: Sentinel, reg_id: String, now_ms: u64) -> Sentinel {
    if s.state == SessionState::Connecting || s.state == SessionState::Reconnecting {
        Sentinel {
            state: SessionState::Handshaking,
            conn: ConnState { connected: true, reconnect_count: 0 },
            handshake: hs_start(s.handshake, reg_id, now_ms),
            after_reconnect: s.state == SessionState::Reconnecting,
            ..s
        }
    } else {
        s
    }
}

/// The session after an inbound response while `Handshaking`: the handshake
/// machine takes the response; reaching `AwaitingChallenge` immediately
/// records the echo as sent under `chal_id`; `Ready` makes the session
/// `Running`; failure leaves an initial session `Idle` but stops a
/// post-reconnect one.
pub open spec fn spec_on_response(
    s: Sentinel,
    id: Seq<char>,
    success: bool,
    challenge: Option<String>,
    chal_id: String,
) -> Sentinel {
    if s.state == SessionState::Handshaking {
        let h1 = hs_on_response(s.handshake, id, success, challenge);
        if h1.phase == HandshakePhase::AwaitingChallenge {
            Sentinel { handshake: hs_on_challenge_sent(h1, chal_id), ..s }
        } else if h1.phase == HandshakePhase::Ready {
            Sentinel { state: SessionState::Running, running: true, handshake: h1, ..s }
        } else if h1.phase is Failed {
            Sentinel {
                state: if s.after_reconnect {
                    SessionState::Stopped
                } else {
                    SessionState::Idle
                },
                running: false,
                handshake: h1,
                ..s
            }
        } else {
            Sentinel { handshake: h1, ..s }
        }
    } else {
        s
    }
}

/// The session after a handshake clock check at `now_ms`.
pub open spec fn spec_check_timeout(s: Sentinel, now_ms: u64) -> Sentinel {
    if s.state == SessionState::Handshaking && hs_timed_out(s.handshake, now_ms) {
        Sentinel {
            state: if s.after_reconnect {
                SessionState::Stopped
            } else {
                SessionState::Idle
            },
            running: false,
            handshake: hs_on_timeout(s.handshake, now_ms),
            ..s
        }
    } else {
        s
    }
}

/// The session after the connection closed: a running session with
/// auto-reconnect enters `Reconnecting` with a reset backoff schedule;
/// otherwise the session stops.
pub open spec fn spec_on_connection_closed(s: Sentinel) -> Sentinel {
    if s.state == SessionState::Running && s.config.auto_reconnect {
        Sentinel {
            state: SessionState::Reconnecting,
            conn: ConnState { connected: false, reconnect_count: s.conn.reconnect_count },
            backoff_delay_ms: spec_initial_delay(s),
            reconnect_attempts: 0,
            ..s
        }
    } else {
        Sentinel {
            state: SessionState::Stopped,
            running: false,
            conn: ConnState { connected: false, reconnect_count: s.conn.reconnect_count },
            ..s
        }
    }
}

/// The session after drawing the next backoff delay: the attempt counter
/// advances; past a nonzero budget the session stops, otherwise the stored
/// delay doubles up to the cap.
pub open spec fn spec_next_backoff(s: Sentinel) -> Sentinel {
    if s.state != SessionState::Reconnecting {
        s
    } else {
        let a = spec_sat_inc(s.reconnect_attempts);
        let s1 = Sentinel {
            reconnect_attempts: a,
            conn: ConnState { connected: s.conn.connected, reconnect_count: a },
            ..s
        };
        if spec_max_attempts(s) > 0 && a > spec_max_attempts(s) {
            Sentinel { state: SessionState::Stopped, running: false, ..s1 }
        } else {
            Sentinel {
                backoff_delay_ms: next_delay_spec(
                    s.backoff_delay_ms as int,
                    spec_max_delay(s) as int,
                ) as u64,
                ..s1
            }
        }
    }
}

/// The session after `stop`: stopped, not running, channel down. Applying
/// it twice is the same as applying it once.
pub open spec fn spec_stop(s: Sentinel) -> Sentinel {
    Sentinel {
        state: SessionState::Stopped,
        running: false,
        conn: ConnState { connected: false, reconnect_count: s.conn.reconnect_count },
        ..s
    }
}

/// Where an inbound request or notification with the given method is
/// routed: nothing reaches a callback unless the session is `Running` —
/// the handshake owns the connection until then — and unknown methods are
/// ignored, never rejected.
pub open spec fn spec_route(state: SessionState, method: Seq<char>) -> Dispatch {
    if state != SessionState::Running {
        Dispatch::Ignored
    } else if method == methods::PRE_CHECK@ {
        Dispatch::PreCheck
    } else if method == methods::ENTROPY@ {
        Dispatch::Entropy
    } else if method == methods::CONTEXT_UPDATE@ {
        Dispatch::ContextUpdate
    } else {
        Dispatch::Ignored
    }
}

impl Sentinel {
    /// Create a session in `Idle`. A token issuer exists exactly when a
    /// secret is configured.
    pub fn new(config: SentinelConfig) -> (s: Sentinel)
        ensures
            s.config == config,
            s.state == SessionState::Idle,
            !s.running,
            !s.conn.connected,
            s.conn.reconnect_count == 0,
            s.handshake.phase == HandshakePhase::Disconnected,
            s.handshake.timeout_ms == config.handshake_timeout_ms,
            config.jwt_secret matches Some(sec) ==> (s.jwt_handler matches Some(j)
                && j.spec_secret() == sec@ && j.spec_expiry() == 3600),
            config.jwt_secret is None ==> s.jwt_handler is None,
            !s.after_reconnect,
            s.client_config is None,
    {
        let jwt_handler = match &config.jwt_secret {
            Some(sec) => Some(JwtHandler::new(sec.as_str())),
            None => None,
        };
        let handshake = Handshake::new(config.handshake_timeout_ms);
        Sentinel {
            config,
            jwt_handler,
            client_config: None,
            state: SessionState::Idle,
            running: false,
            conn: ConnState::new(),
            handshake,
            after_reconnect: false,
            backoff_delay_ms: 1000,
            reconnect_attempts: 0,
        }
    }

    /// Whether the receive loop should keep running.
    pub fn is_running(&self) -> (r: bool)
        ensures
            r == self.running,
    {
        self.running
    }

    /// Begin a session: `Idle` moves to `Connecting` under the given
    /// transport configuration; any other state is refused.
    pub fn start(&mut self, client_config: ClientConfig) -> (r: Result<(), Error>)
        ensures
            *final(self) == spec_start(*old(self), client_config),
            r is Ok <==> old(self).state == SessionState::Idle,
            r is Err ==> r matches Err(Error::AlreadyRunning),
    {
        if self.state == SessionState::Idle {
            self.state = SessionState::Connecting;
            self.client_config = Some(client_config);
            Ok(())
        } else {
            Err(Error::AlreadyRunning)
        }
    }

    /// The token to embed in registration: `None` exactly when no secret
    /// is configured — the wire then omits the field entirely — otherwise
    /// a fresh token for the configured name.
    pub fn registration_auth_token(&self) -> (r: Result<Option<String>, Error>)
        ensures
            self.jwt_handler is None ==> r == Ok::<Option<String>, Error>(None),
            r matches Ok(Some(t)) ==> (self.jwt_handler matches Some(j) && (token_claims(
                j.spec_secret(),
                t@,
            ) matches Some(c) && c.0 == self.config.name@ && c.2 == c.1 + j.spec_expiry())),
            r is Err ==> self.jwt_handler is Some && (r matches Err(Error::InvalidConfig(_))),
    {
        match &self.jwt_handler {
            None => Ok(None),
            Some(j) => match j.generate_token(self.config.name.as_str()) {
                Ok(t) => Ok(Some(t)),
                Err(e) => Err(e),
            },
        }
    }

    /// The transport reports an open channel: from `Connecting` or
    /// `Reconnecting` the session enters `Handshaking` with a fresh
    /// handshake under `reg_id`, and the returned text is the registration
    /// request to send, embedding `auth_token` if one is given. In any
    /// other state the call is refused and nothing changes.
    pub fn on_transport_connected(
        &mut self,
        reg_id: String,
        auth_token: Option<String>,
        now_ms: u64,
    ) -> (r: Result<String, Error>)
        ensures
            *final(self) == spec_on_transport_connected(*old(self), reg_id, now_ms),
            r is Ok <==> (old(self).state == SessionState::Connecting || old(self).state
                == SessionState::Reconnecting),
            r matches Ok(t) ==> t@ == wire::json_request(
                methods::REGISTRATION@,
                wire::registration_params_json(
                    old(self).config.name@,
                    old(self).config.priority as int,
                    old(self).config.capabilities.deep_view(),
                    old(self).config.selectors.deep_view(),
                    auth_token.deep_view(),
                ),
                reg_id@,
            ),
            r is Err ==> r matches Err(Error::NotConnected),
    {
        if !(self.state == SessionState::Connecting || self.state == SessionState::Reconnecting) {
            return Err(Error::NotConnected);
        }
        let params = RegistrationParams {
            layer: self.config.name.clone(),
            priority: self.config.priority,
            capabilities: self.config.capabilities.clone(),
            selectors: self.config.selectors.clone(),
            auth_token,
        };
        proof {
            lemma_cloned_string_vec(self.config.capabilities, params.capabilities);
            lemma_cloned_string_vec(self.config.selectors, params.selectors);
        }
        let text = wire::registration_request_json(&params, reg_id.as_str());
        self.after_reconnect = self.state == SessionState::Reconnecting;
        self.state = SessionState::Handshaking;
        self.conn.on_connected();
        self.handshake.start(reg_id, now_ms);
        Ok(text)
    }

    /// Feed an inbound response while handshaking. A correlated
    /// registration acceptance with a challenge yields the challenge echo
    /// to send; the correlated reply to that echo completes the handshake
    /// and the session runs; a rejection or a missing challenge surfaces as
    /// a handshake error. Uncorrelated responses, and anything outside
    /// `Handshaking`, are ignored.
    pub fn on_response(
        &mut self,
        id: &str,
        success: bool,
        challenge: Option<String>,
        chal_id: String,
    ) -> (r: Result<HandshakeStep, Error>)
        requires
            hs_wf(old(self).handshake),
        ensures
            hs_wf(final(self).handshake),
            *final(self) == spec_on_response(*old(self), id@, success, challenge, chal_id),
            old(self).state != SessionState::Handshaking ==> (r matches Ok(
                HandshakeStep::Ignored,
            )),
            old(self).state == SessionState::Handshaking ==> (
            {
                let h1 = hs_on_response(old(self).handshake, id@, success, challenge);
                &&& (h1.phase == HandshakePhase::AwaitingChallenge ==> (r matches Ok(
                    HandshakeStep::SendText(t),
                ) && t@ == wire::json_request(
                    methods::CHALLENGE_RESPONSE@,
                    wire::challenge_params_json(h1.challenge->Some_0@),
                    chal_id@,
                )))
                &&& (h1.phase == HandshakePhase::Ready ==> r matches Ok(HandshakeStep::Ready))
                &&& (h1.phase is Failed ==> r matches Err(Error::Handshake(_)))
                &&& (!(h1.phase == HandshakePhase::AwaitingChallenge || h1.phase
                    == HandshakePhase::Ready || h1.phase is Failed) ==> r matches Ok(
                    HandshakeStep::Ignored,
                ))
            }),
    {
        if self.state != SessionState::Handshaking {
            return Ok(HandshakeStep::Ignored);
        }
        self.handshake.on_response(id, success, challenge);
        if self.handshake.phase == HandshakePhase::AwaitingChallenge {
            let text = match &self.handshake.challenge {
                Some(c) => wire::challenge_request_json(c.as_str(), chal_id.as_str()),
                None => unreached(),
            };
            self.handshake.on_challenge_sent(chal_id);
            Ok(HandshakeStep::SendText(text))
        } else if self.handshake.phase == HandshakePhase::Ready {
            self.state = SessionState::Running;
            self.running = true;
            Ok(HandshakeStep::Ready)
        } else {
            let failed = match self.handshake.phase {
                HandshakePhase::Failed(reason) => Some(reason),
                _ => None,
            };
            match failed {
                Some(reason) => {
                    self.state = if self.after_reconnect {
                        SessionState::Stopped
                    } else {
                        SessionState::Idle
                    };
                    self.running = false;
                    Err(Error::Handshake(reason_message(reason)))
                },
                None => Ok(HandshakeStep::Ignored),
            }
        }
    }

    /// Check the handshake clock: past the window the handshake fails with
    /// a timeout, which stops a post-reconnect session and leaves an
    /// initial one `Idle`.
    pub fn check_handshake_timeout(&mut self, now_ms: u64) -> (r: Result<(), Error>)
        ensures
            *final(self) == spec_check_timeout(*old(self), now_ms),
            r is Err <==> old(self).state == SessionState::Handshaking && hs_timed_out(
                old(self).handshake,
                now_ms,
            ),
            r is Err ==> r matches Err(Error::Handshake(_)),
    {
        if self.state != SessionState::Handshaking {
            return Ok(());
        }
        let terminal = self.handshake.terminal();
        let fired = !terminal && now_ms > self.handshake.started_at_ms && now_ms
            - self.handshake.started_at_ms > self.handshake.timeout_ms;
        if fired {
            self.handshake.check_timeout(now_ms);
            self.state = if self.after_reconnect {
                SessionState::Stopped
            } else {
                SessionState::Idle
            };
            self.running = false;
            Err(Error::Handshake(reason_message(HandshakeFailureReason::Timeout)))
        } else {
            Ok(())
        }
    }

    /// Route an inbound request or notification by its method name.
    pub fn route_inbound(&self, method: &str) -> (r: Dispatch)
        ensures
            r == spec_route(self.state, method@),
    {
        if self.state != SessionState::Running {
            return Dispatch::Ignored;
        }
        if str_eq(method, methods::PRE_CHECK) {
            Dispatch::PreCheck
        } else if str_eq(method, methods::ENTROPY) {
            Dispatch::Entropy
        } else if str_eq(method, methods::CONTEXT_UPDATE) {
            Dispatch::ContextUpdate
        } else {
            Dispatch::Ignored
        }
    }

    /// The reply to a pre-check query: the decision encoded as a
    /// notification whose method names the decision kind — and exactly one
    /// such reply when the query carried an identifier, none at all when it
    /// did not.
    pub fn pre_check_reply(&self, response: &PreCheckResponse, has_id: bool) -> (r: Option<String>)
        ensures
            r is Some <==> has_id,
            r matches Some(t) ==> t@ == wire::json_notification(
                wire::pre_check_method_name(*response),
                wire::pre_check_params_json(*response),
            ),
    {
        if has_id {
            Some(wire::pre_check_reply_json(response))
        } else {
            None
        }
    }

    /// The connection closed: with auto-reconnect on, a running session
    /// enters `Reconnecting` with a fresh backoff schedule; otherwise it
    /// stops.
    pub fn on_connection_closed(&mut self) -> (r: CloseDecision)
        ensures
            *final(self) == spec_on_connection_closed(*old(self)),
            r == CloseDecision::Reconnect <==> old(self).state == SessionState::Running && old(
                self,
            ).config.auto_reconnect,
    {
        self.conn.on_closed();
        if self.state == SessionState::Running && self.config.auto_reconnect {
            self.state = SessionState::Reconnecting;
            self.backoff_delay_ms = match &self.client_config {
                Some(c) => c.reconnect_delay_ms,
                None => 1000,
            };
            self.reconnect_attempts = 0;
            CloseDecision::Reconnect
        } else {
            self.state = SessionState::Stopped;
            self.running = false;
            CloseDecision::Stop
        }
    }

    /// Draw the delay to sleep before the next reconnect attempt. The
    /// counter advances; a nonzero attempt budget, once exceeded, stops the
    /// session with `ReconnectExhausted`; with a budget of 0 attempts are
    /// unlimited.
    pub fn next_backoff(&mut self) -> (r: Result<u64, Error>)
        ensures
            *final(self) == spec_next_backoff(*old(self)),
            old(self).state != SessionState::Reconnecting ==> (r matches Err(Error::NotConnected)),
            old(self).state == SessionState::Reconnecting ==> (if spec_max_attempts(*old(self)) > 0
                && spec_sat_inc(old(self).reconnect_attempts) > spec_max_attempts(*old(self)) {
                r matches Err(Error::ReconnectExhausted)
            } else {
                r == Ok::<u64, Error>(old(self).backoff_delay_ms)
            }),
    {
        if self.state != SessionState::Reconnecting {
            return Err(Error::NotConnected);
        }
        let a: u32 = if self.reconnect_attempts == u32::MAX {
            u32::MAX
        } else {
            self.reconnect_attempts + 1
        };
        self.reconnect_attempts = a;
        self.conn.reconnect_count = a;
        let max_attempts = match &self.client_config {
            Some(c) => c.max_reconnect_attempts,
            None => 0,
        };
        if max_attempts > 0 && a > max_attempts {
            self.state = SessionState::Stopped;
            self.running = false;
            return Err(Error::ReconnectExhausted);
        }
        let cur = self.backoff_delay_ms;
        let max_delay = match &self.client_config {
            Some(c) => c.max_reconnect_delay_ms,
            None => 30000,
        };
        self.backoff_delay_ms = next_delay(cur, max_delay);
        Ok(cur)
    }

    /// Stop the session: stopped, not running, channel down. Idempotent —
    /// stopping twice produces no error and the same terminal state.
    pub fn stop(&mut self)
        ensures
            *final(self) == spec_stop(*old(self)),
    {
        self.state = SessionState::Stopped;
        self.running = false;
        self.conn.on_closed();
    }

    /// Encode a take-over notification; refused when no channel is open.
    pub fn hijack(&self, reason: &str) -> (r: Result<String, Error>)
        ensures
            r is Ok <==> self.conn.connected,
            r matches Ok(t) ==> t@ == wire::json_notification(
                methods::HIJACK@,
                wire::hijack_params_json(reason@),
            ),
            r is Err ==> r matches Err(Error::NotConnected),
    {
        if !self.conn.connected {
            return Err(Error::NotConnected);
        }
        Ok(wire::hijack_notification_json(reason))
    }

    /// Encode an action notification; refused when no channel is open.
    pub fn action(
        &self,
        cmd: ActionCommand,
        selector: &str,
        text: Option<String>,
    ) -> (r: Result<String, Error>)
        ensures
            r is Ok <==> self.conn.connected,
            r matches Ok(t) ==> t@ == wire::json_notification(
                methods::ACTION@,
                wire::action_params_json(cmd, selector@, text.deep_view()),
            ),
            r is Err ==> r matches Err(Error::NotConnected),
    {
        if !self.conn.connected {
            return Err(Error::NotConnected);
        }
        Ok(wire::action_notification_json(cmd, selector, &text))
    }

    /// Encode a resume notification; refused when no channel is open.
    pub fn resume(&self, request_recheck: bool) -> (r: Result<String, Error>)
        ensures
            r is Ok <==> self.conn.connected,
            r matches Ok(t) ==> t@ == wire::json_notification(
                methods::RESUME@,
                wire::resume_params_json(request_recheck),
            ),
            r is Err ==> r matches Err(Error::NotConnected),
    {
        if !self.conn.connected {
            return Err(Error::NotConnected);
        }
        Ok(wire::resume_notification_json(request_recheck))
    }
}

/// The human-readable reason a handshake failed.
pub fn reason_message(r: HandshakeFailureReason) -> (m: String)
    ensures
        r == HandshakeFailureReason::Rejected ==> m@ == "Registration rejected by Hub"@,
        r == HandshakeFailureReason::MissingChallenge ==> m@
            == "Hub failed to issue mutual challenge"@,
        r == HandshakeFailureReason::Timeout ==> m@ == "Handshake timed out"@,
{
    match r {
        HandshakeFailureReason::Rejected => "Registration rejected by Hub".to_owned(),
        HandshakeFailureReason::MissingChallenge => "Hub failed to issue mutual challenge".to_owned(
        ),
        HandshakeFailureReason::Timeout => "Handshake timed out".to_owned(),
    }
}

/// A clone of a vector of strings has the same character contents.
proof fn lemma_cloned_string_vec(a: Vec<String>, b: Vec<String>)
    requires
        a.len() == b.len(),
        forall|i: int| #![all_triggers] 0 <= i < a.len() ==> cloned::<String>(a[i], b[i]),
    ensures
        b.deep_view() == a.deep_view(),
{
    assert forall|i: int| 0 <= i < a.len() implies b.deep_view()[i] == a.deep_view()[i] by {
        assert(cloned::<String>(a[i], b[i]));
        assert(b[i] == a[i]);
    }
    assert(b.deep_view() =~= a.deep_view());
}

/// The session enters `Running` only from `Handshaking`, and only when an
/// inbound response has driven the handshake of the current connection to
/// `Ready`. Entering `Handshaking` — on first connect and after every
/// reconnect alike — resets the handshake machine to `Registering`, so a
/// stale `Ready` is never reused; and a failed post-reconnect handshake
/// stops the session rather than leaving it connected.
pub proof fn lemma_running_only_after_handshake(
    s: Sentinel,
    cfg: ClientConfig,
    reg_id: String,
    id: Seq<char>,
    success: bool,
    challenge: Option<String>,
    chal_id: String,
    now_ms: u64,
)
    ensures
        spec_start(s, cfg).state == SessionState::Running ==> s.state == SessionState::Running,
        spec_on_transport_connected(s, reg_id, now_ms).state == SessionState::Running ==> s.state
            == SessionState::Running,
        spec_on_response(s, id, success, challenge, chal_id).state == SessionState::Running
            && s.state != SessionState::Running ==> (s.state == SessionState::Handshaking
            && hs_on_response(s.handshake, id, success, challenge).phase == HandshakePhase::Ready),
        spec_check_timeout(s, now_ms).state == SessionState::Running ==> s.state
            == SessionState::Running,
        spec_on_connection_closed(s).state != SessionState::Running,
        spec_next_backoff(s).state == SessionState::Running ==> s.state == SessionState::Running,
        spec_stop(s).state != SessionState::Running,
        (s.state == SessionState::Connecting || s.state == SessionState::Reconnecting)
            ==> spec_on_transport_connected(s, reg_id, now_ms).handshake.phase
            == HandshakePhase::Registering,
        s.state == SessionState::Handshaking && s.after_reconnect && hs_on_response(
            s.handshake,
            id,
            success,
            challenge,
        ).phase is Failed ==> spec_on_response(s, id, success, challenge, chal_id).state
            == SessionState::Stopped,
{
}

/// Stopping the session twice leaves exactly the state one stop leaves.
pub proof fn lemma_stop_idempotent(s: Sentinel)
    ensures
        spec_stop(spec_stop(s)) == spec_stop(s),
{
}

/// The trust invariant: a running session sits on a handshake that reached
/// `Ready`. Trust is never assumed, only proven.
pub open spec fn trust_invariant(s: Sentinel) -> bool {
    s.state == SessionState::Running ==> s.handshake.phase == HandshakePhase::Ready
}

/// Every step of the session preserves the trust invariant, so `Running`
/// is never paired with an unproven handshake — on the first connection or
/// on any later one.
pub proof fn lemma_trust_invariant_preserved(
    s: Sentinel,
    cfg: ClientConfig,
    reg_id: String,
    id: Seq<char>,
    success: bool,
    challenge: Option<String>,
    chal_id: String,
    now_ms: u64,
)
    requires
        trust_invariant(s),
    ensures
        trust_invariant(spec_start(s, cfg)),
        trust_invariant(spec_on_transport_connected(s, reg_id, now_ms)),
        trust_invariant(spec_on_response(s, id, success, challenge, chal_id)),
        trust_invariant(spec_check_timeout(s, now_ms)),
        trust_invariant(spec_on_connection_closed(s)),
        trust_invariant(spec_next_backoff(s)),
        trust_invariant(spec_stop(s)),
{
}

} // verus!
