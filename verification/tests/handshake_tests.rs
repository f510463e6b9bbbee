//! The handshake state machine: phase order, failure sinks, correlation and
//! the timeout window.

use starlight::handshake::Handshake;
use starlight::handshake::HandshakeFailureReason;
use starlight::handshake::HandshakePhase;

fn started() -> Handshake {
    let mut h = Handshake::new(10000);
    h.start("reg-1".to_string(), 500);
    h
}

#[test]
fn happy_path_passes_phases_in_order() {
    let mut h = Handshake::new(10000);
    assert_eq!(h.phase, HandshakePhase::Disconnected);

    h.start("reg-1".to_string(), 500);
    assert_eq!(h.phase, HandshakePhase::Registering);

    h.on_response("reg-1", true, Some("challenge-42".to_string()));
    assert_eq!(h.phase, HandshakePhase::AwaitingChallenge);
    assert_eq!(h.challenge.as_deref(), Some("challenge-42"));

    h.on_challenge_sent("chal-1".to_string());
    assert_eq!(h.phase, HandshakePhase::VerifyingChallenge);

    h.on_response("chal-1", true, None);
    assert_eq!(h.phase, HandshakePhase::Ready);
}

#[test]
fn rejected_registration_fails_never_ready() {
    let mut h = started();
    h.on_response("reg-1", false, Some("ignored".to_string()));
    assert_eq!(h.phase, HandshakePhase::Failed(HandshakeFailureReason::Rejected));
}

#[test]
fn missing_challenge_fails_never_ready() {
    let mut h = started();
    h.on_response("reg-1", true, None);
    assert_eq!(h.phase, HandshakePhase::Failed(HandshakeFailureReason::MissingChallenge));
}

#[test]
fn uncorrelated_responses_are_ignored() {
    let mut h = started();
    h.on_response("some-other-id", true, Some("c".to_string()));
    assert_eq!(h.phase, HandshakePhase::Registering);

    h.on_response("reg-1", true, Some("c".to_string()));
    h.on_challenge_sent("chal-1".to_string());
    h.on_response("reg-1", true, None);
    assert_eq!(h.phase, HandshakePhase::VerifyingChallenge);
    h.on_response("chal-1", false, None);
    assert_eq!(h.phase, HandshakePhase::Ready);
}

#[test]
fn timeout_is_measured_from_start() {
    let mut h = started();
    h.check_timeout(10500);
    assert_eq!(h.phase, HandshakePhase::Registering);

    h.check_timeout(10501);
    assert_eq!(h.phase, HandshakePhase::Failed(HandshakeFailureReason::Timeout));
}

#[test]
fn timeout_does_not_fire_in_terminal_phases() {
    let mut h = started();
    h.on_response("reg-1", false, None);
    let failed = h.phase;
    h.check_timeout(u64::MAX);
    assert_eq!(h.phase, failed);
}

#[test]
fn pending_ids_are_cleared_when_replies_arrive() {
    let mut h = started();
    assert_eq!(h.reg_id.as_deref(), Some("reg-1"));
    h.on_response("reg-1", true, Some("c".to_string()));
    assert_eq!(h.reg_id, None);

    h.on_challenge_sent("chal-1".to_string());
    assert_eq!(h.chal_id.as_deref(), Some("chal-1"));
    h.on_response("chal-1", true, None);
    assert_eq!(h.chal_id, None);
}
