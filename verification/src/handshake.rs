//! The registration/challenge handshake state machine.
//!
//! Trust is established in order: registration is sent and acknowledged,
//! the Hub's challenge is echoed back, and only the correlated reply to that
//! echo makes the handshake `Ready`. Every transition is a pure function of
//! the machine and an inbound event, so the order of phases is a theorem,
//! not a convention: `Ready` is reachable only through
//! `Registering`, `AwaitingChallenge` and `VerifyingChallenge`, and a
//! rejection or a missing challenge always ends in `Failed`.

use vstd::prelude::*;

use crate::wire::str_eq;

verus! {

/// Why a handshake failed.
#[derive(Debug, Clone, Copy, PartialEq, Eq, Structural)]
pub enum HandshakeFailureReason {
    /// The Hub rejected the registration.
    Rejected,
    /// The Hub accepted registration without issuing a challenge; mutual
    /// verification requires one, so this is an error, not a shortcut
    /// success.
    MissingChallenge,
    /// No correlated reply arrived within the handshake timeout.
    Timeout,
}

/// The phase of the handshake. `Failed` is a terminal sink reachable from
/// any non-terminal phase; `Ready` is the terminal success.
#[derive(Debug, Clone, Copy, PartialEq, Eq, Structural)]
pub enum HandshakePhase {
    Disconnected,
    Registering,
    AwaitingChallenge,
    VerifyingChallenge,
    Ready,
    Failed(HandshakeFailureReason),
}

/// Whether a phase is terminal.
pub open spec fn hs_terminal(p: HandshakePhase) -> bool {
    p == HandshakePhase::Ready || p is Failed
}

/// One handshake attempt: its phase, the identifiers of the at most one
/// pending registration and at most one pending challenge-response request,
/// the challenge value to echo, and the timeout window measured from the
/// handshake's start.
#[derive(Debug, Clone)]
pub struct Handshake {
    pub phase: HandshakePhase,
    /// Identifier of the pending registration request, while one is out.
    pub reg_id: Option<String>,
    /// Identifier of the pending challenge-response request, while one is
    /// out.
    pub chal_id: Option<String>,
    /// The challenge value received with the registration reply.
    pub challenge: Option<String>,
    /// When the handshake started, in milliseconds.
    pub started_at_ms: u64,
    /// The timeout for the whole handshake, measured from its start.
    pub timeout_ms: u64,
}

/// Well-formedness of a machine: in `AwaitingChallenge` the challenge to
/// echo is at hand. Every constructor establishes this and every transition
/// preserves it.
pub open spec fn hs_wf(h: Handshake) -> bool {
    h.phase == HandshakePhase::AwaitingChallenge ==> h.challenge is Some
}

/// The machine after starting a handshake: registration sent under
/// `reg_id`, clock started at `now_ms`.
pub open spec fn hs_start(h: Handshake, reg_id: String, now_ms: u64) -> Handshake {
    Handshake {
        phase: HandshakePhase::Registering,
        reg_id: Some(reg_id),
        chal_id: None,
        challenge: None,
        started_at_ms: now_ms,
        timeout_ms: h.timeout_ms,
    }
}

/// Whether an inbound response correlates to the pending registration.
pub open spec fn hs_matches_registration(h: Handshake, id: Seq<char>) -> bool {
    h.phase == HandshakePhase::Registering && (h.reg_id matches Some(r) && r@ == id)
}

/// Whether an inbound response correlates to the pending
/// challenge-response.
pub open spec fn hs_matches_challenge(h: Handshake, id: Seq<char>) -> bool {
    h.phase == HandshakePhase::VerifyingChallenge && (h.chal_id matches Some(c) && c@ == id)
}

/// The machine after an inbound response with identifier `id`. A correlated
/// registration reply either fails the handshake (rejected, or accepted
/// with no challenge) or moves it to `AwaitingChallenge`; a correlated
/// challenge reply makes it `Ready`; anything else is ignored.
pub open spec fn hs_on_response(
    h: Handshake,
    id: Seq<char>,
    success: bool,
    challenge: Option<String>,
) -> Handshake {
    if hs_matches_registration(h, id) {
        if !success {
            Handshake {
                phase: HandshakePhase::Failed(HandshakeFailureReason::Rejected),
                reg_id: None,
                ..h
            }
        } else if challenge is None {
            Handshake {
                phase: HandshakePhase::Failed(HandshakeFailureReason::MissingChallenge),
                reg_id: None,
                ..h
            }
        } else {
            Handshake { phase: HandshakePhase::AwaitingChallenge, reg_id: None, challenge, ..h }
        }
    } else if hs_matches_challenge(h, id) {
        Handshake { phase: HandshakePhase::Ready, chal_id: None, ..h }
    } else {
        h
    }
}

/// The machine after sending the challenge echo under `chal_id`.
pub open spec fn hs_on_challenge_sent(h: Handshake, chal_id: String) -> Handshake {
    if h.phase == HandshakePhase::AwaitingChallenge {
        Handshake { phase: HandshakePhase::VerifyingChallenge, chal_id: Some(chal_id), ..h }
    } else {
        h
    }
}

/// Whether the handshake timeout has fired at `now_ms`: the window is
/// measured from the handshake's start, not per step.
pub open spec fn hs_timed_out(h: Handshake, now_ms: u64) -> bool {
    !hs_terminal(h.phase) && now_ms > h.started_at_ms + h.timeout_ms
}

/// The machine after a clock check at `now_ms`.
pub open spec fn hs_on_timeout(h: Handshake, now_ms: u64) -> Handshake {
    if hs_timed_out(h, now_ms) {
        Handshake {
            phase: HandshakePhase::Failed(HandshakeFailureReason::Timeout),
            reg_id: None,
            chal_id: None,
            ..h
        }
    } else {
        h
    }
}

/// Every transition preserves well-formedness.
pub proof fn lemma_hs_wf_preserved(
    h: Handshake,
    reg_id: String,
    chal_id: String,
    id: Seq<char>,
    success: bool,
    challenge: Option<String>,
    now_ms: u64,
)
    requires
        hs_wf(h),
    ensures
        hs_wf(hs_start(h, reg_id, now_ms)),
        hs_wf(hs_on_response(h, id, success, challenge)),
        hs_wf(hs_on_challenge_sent(h, chal_id)),
        hs_wf(hs_on_timeout(h, now_ms)),
{
}

/// The meaning of an outstanding request.
#[derive(Debug, Clone, Copy, PartialEq, Eq, Structural)]
pub enum PendingKind {
    /// A registration awaiting its acknowledgement.
    Registration,
    /// A challenge echo awaiting its confirmation.
    ChallengeResponse,
}

/// The pending-request table: outstanding request identifiers mapped to
/// what they mean. An entry appears when the request is sent and disappears
/// when the correlated reply arrives or the handshake leaves the phase.
pub open spec fn pending_requests(h: Handshake) -> Map<Seq<char>, PendingKind> {
    let table = Map::<Seq<char>, PendingKind>::empty();
    let table = if h.phase == HandshakePhase::Registering && h.reg_id is Some {
        table.insert(h.reg_id->0@, PendingKind::Registration)
    } else {
        table
    };
    if h.phase == HandshakePhase::VerifyingChallenge && h.chal_id is Some {
        table.insert(h.chal_id->0@, PendingKind::ChallengeResponse)
    } else {
        table
    }
}

/// The pending-request table never holds more than one entry — in
/// particular at most one pending registration and at most one pending
/// challenge-response: starting the handshake registers exactly the
/// registration request; its correlated reply removes it; sending the echo
/// registers exactly the challenge-response; its correlated reply removes
/// it; and a timeout empties the table.
pub proof fn lemma_pending_requests(
    h: Handshake,
    reg_id: String,
    chal_id: String,
    id: Seq<char>,
    success: bool,
    challenge: Option<String>,
    now_ms: u64,
)
    ensures
        pending_requests(h).dom().len() <= 1,
        pending_requests(hs_start(h, reg_id, now_ms)) =~= Map::<Seq<char>, PendingKind>::empty()
            .insert(reg_id@, PendingKind::Registration),
        hs_matches_registration(h, id) ==> !pending_requests(
            hs_on_response(h, id, success, challenge),
        ).dom().contains(id),
        h.phase == HandshakePhase::AwaitingChallenge ==> pending_requests(
            hs_on_challenge_sent(h, chal_id),
        ) =~= Map::<Seq<char>, PendingKind>::empty().insert(
            chal_id@,
            PendingKind::ChallengeResponse,
        ),
        hs_matches_challenge(h, id) ==> pending_requests(hs_on_response(h, id, success, challenge))
            =~= Map::<Seq<char>, PendingKind>::empty(),
        hs_timed_out(h, now_ms) ==> pending_requests(hs_on_timeout(h, now_ms)) =~= Map::<
            Seq<char>,
            PendingKind,
        >::empty(),
{
    let table = pending_requests(h);
    if h.phase == HandshakePhase::Registering && h.reg_id is Some {
        assert(table.dom() =~= set![h.reg_id->0@]);
    } else if h.phase == HandshakePhase::VerifyingChallenge && h.chal_id is Some {
        assert(table.dom() =~= set![h.chal_id->0@]);
    } else {
        assert(table.dom() =~= Set::<Seq<char>>::empty());
    }
}

impl Handshake {
    /// A fresh machine, not yet started.
    pub fn new(timeout_ms: u64) -> (h: Handshake)
        ensures
            h.phase == HandshakePhase::Disconnected,
            h.reg_id is None,
            h.chal_id is None,
            h.challenge is None,
            h.started_at_ms == 0,
            h.timeout_ms == timeout_ms,
    {
        Handshake {
            phase: HandshakePhase::Disconnected,
            reg_id: None,
            chal_id: None,
            challenge: None,
            started_at_ms: 0,
            timeout_ms,
        }
    }

    /// Whether the handshake is in a terminal phase.
    pub fn terminal(&self) -> (r: bool)
        ensures
            r == hs_terminal(self.phase),
    {
        match self.phase {
            HandshakePhase::Ready => true,
            HandshakePhase::Failed(_) => true,
            _ => false,
        }
    }

    /// Start the handshake: the registration request has been sent under
    /// `reg_id` at `now_ms`.
    pub fn start(&mut self, reg_id: String, now_ms: u64)
        ensures
            *final(self) == hs_start(*old(self), reg_id, now_ms),
    {
        self.phase = HandshakePhase::Registering;
        self.reg_id = Some(reg_id);
        self.chal_id = None;
        self.challenge = None;
        self.started_at_ms = now_ms;
    }

    /// Feed an inbound response. Uncorrelated responses are ignored and do
    /// not reset the timeout.
    pub fn on_response(&mut self, id: &str, success: bool, challenge: Option<String>)
        ensures
            *final(self) == hs_on_response(*old(self), id@, success, challenge),
    {
        let matches_reg = self.phase == HandshakePhase::Registering && (match &self.reg_id {
            Some(r) => str_eq(r.as_str(), id),
            None => false,
        });
        if matches_reg {
            self.reg_id = None;
            if !success {
                self.phase = HandshakePhase::Failed(HandshakeFailureReason::Rejected);
            } else if challenge.is_none() {
                self.phase = HandshakePhase::Failed(HandshakeFailureReason::MissingChallenge);
            } else {
                self.phase = HandshakePhase::AwaitingChallenge;
                self.challenge = challenge;
            }
        } else {
            let matches_chal = self.phase == HandshakePhase::VerifyingChallenge && (match &self
                .chal_id {
                Some(c) => str_eq(c.as_str(), id),
                None => false,
            });
            if matches_chal {
                self.chal_id = None;
                self.phase = HandshakePhase::Ready;
            }
        }
    }

    /// Record that the challenge echo has been sent under `chal_id`.
    pub fn on_challenge_sent(&mut self, chal_id: String)
        ensures
            *final(self) == hs_on_challenge_sent(*old(self), chal_id),
    {
        if self.phase == HandshakePhase::AwaitingChallenge {
            self.phase = HandshakePhase::VerifyingChallenge;
            self.chal_id = Some(chal_id);
        }
    }

    /// Check the handshake clock at `now_ms`; past the window, a
    /// non-terminal handshake fails with `Timeout`.
    pub fn check_timeout(&mut self, now_ms: u64)
        ensures
            *final(self) == hs_on_timeout(*old(self), now_ms),
    {
        let terminal = self.terminal();
        if !terminal && now_ms > self.started_at_ms && now_ms - self.started_at_ms
            > self.timeout_ms {
            self.phase = HandshakePhase::Failed(HandshakeFailureReason::Timeout);
            self.reg_id = None;
            self.chal_id = None;
        }
    }
}

/// The handshake reaches `Ready` only through the phases in order:
/// `Ready` comes only from a correlated reply in `VerifyingChallenge`,
/// `VerifyingChallenge` only from sending the echo in `AwaitingChallenge`,
/// `AwaitingChallenge` only from a correlated, accepted registration reply
/// carrying a challenge in `Registering`; and a registration rejection or a
/// missing challenge always yields `Failed`, never `Ready`.
pub proof fn lemma_handshake_order(
    h: Handshake,
    reg_id: String,
    chal_id: String,
    id: Seq<char>,
    success: bool,
    challenge: Option<String>,
    now_ms: u64,
)
    ensures
        hs_on_response(h, id, success, challenge).phase == HandshakePhase::Ready ==> h.phase
            == HandshakePhase::VerifyingChallenge || h.phase == HandshakePhase::Ready,
        hs_on_response(h, id, success, challenge).phase == HandshakePhase::AwaitingChallenge
            ==> h.phase == HandshakePhase::Registering || h.phase
            == HandshakePhase::AwaitingChallenge,
        hs_on_challenge_sent(h, chal_id).phase == HandshakePhase::VerifyingChallenge ==> h.phase
            == HandshakePhase::AwaitingChallenge || h.phase == HandshakePhase::VerifyingChallenge,
        hs_on_challenge_sent(h, chal_id).phase == HandshakePhase::Ready ==> h.phase
            == HandshakePhase::Ready,
        hs_start(h, reg_id, now_ms).phase == HandshakePhase::Registering,
        hs_on_timeout(h, now_ms).phase == HandshakePhase::Ready ==> h.phase
            == HandshakePhase::Ready,
        hs_matches_registration(h, id) && !success ==> hs_on_response(h, id, success, challenge)
            .phase == HandshakePhase::Failed(HandshakeFailureReason::Rejected),
        hs_matches_registration(h, id) && success && challenge is None ==> hs_on_response(
            h,
            id,
            success,
            challenge,
        ).phase == HandshakePhase::Failed(HandshakeFailureReason::MissingChallenge),
{
}

} // verus!
