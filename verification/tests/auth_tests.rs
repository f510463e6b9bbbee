//! Token issue, verification, expiry-window and refresh behavior, run
//! against the real signing backend.

use starlight::auth::CLOCK_SKEW_SECONDS;
use starlight::Error;
use starlight::JwtHandler;

#[test]
fn test_generate_and_verify() {
    let handler = JwtHandler::new("test-secret-key-32-characters-long");
    let token = handler.generate_token("TestSentinel").unwrap();

    assert!(!token.is_empty());

    let claims = handler.verify_token(&token).unwrap();
    assert_eq!(claims.sub, "TestSentinel");
}

#[test]
fn test_expired_token() {
    // Use -120 seconds so the token is expired well past the 60-second
    // clock-skew allowance.
    let handler = JwtHandler::new("test-secret").with_expiry(-120);
    let token = handler.generate_token("TestSentinel").unwrap();

    let result = handler.verify_token(&token);
    assert!(result.is_err(), "Expected expired token to fail verification");
}

#[test]
fn test_refresh_token() {
    let handler = JwtHandler::new("test-secret-key-32-characters-long");
    let original = handler.generate_token("TestSentinel").unwrap();
    let refreshed = handler.refresh_token(&original).unwrap();

    // Both tokens should be valid
    let original_claims = handler.verify_token(&original).unwrap();
    let refreshed_claims = handler.verify_token(&refreshed).unwrap();

    // Both should have the same subject
    assert_eq!(original_claims.sub, "TestSentinel");
    assert_eq!(refreshed_claims.sub, "TestSentinel");

    // Refreshed token should have same or later expiration
    assert!(refreshed_claims.exp >= original_claims.exp);
}

#[test]
fn verify_window_boundary() {
    // A token issued at 1000 with a 120-second life expires at 1120 and is
    // accepted up to 1120 + 60, and not one second longer.
    let handler = JwtHandler::new("boundary-secret").with_expiry(120);
    let token = handler.issue_token_at("Edge", 1000).unwrap();

    let claims = handler.verify_token_at(&token, 1000).unwrap();
    assert_eq!(claims.sub, "Edge");
    assert_eq!(claims.iat, 1000);
    assert_eq!(claims.exp, 1120);
    assert_eq!(claims.iss.as_deref(), Some("starlight-rust-sdk"));

    assert!(handler.verify_token_at(&token, 1120).is_ok());
    assert!(handler.verify_token_at(&token, 1120 + CLOCK_SKEW_SECONDS).is_ok());
    let late = handler.verify_token_at(&token, 1121 + CLOCK_SKEW_SECONDS);
    assert!(matches!(late, Err(Error::Jwt(_))));
}

#[test]
fn wrong_secret_always_fails() {
    let signer = JwtHandler::new("the-right-secret-for-this-test!!");
    let other = JwtHandler::new("not-the-right-secret-for-this-!!");
    let token = signer.issue_token_at("Suspicious", 5000).unwrap();

    // However fresh the token is, the wrong secret rejects it.
    assert!(matches!(other.verify_token_at(&token, 5000), Err(Error::Jwt(_))));
    assert!(matches!(other.verify_token_at(&token, 0), Err(Error::Jwt(_))));
    assert!(signer.verify_token_at(&token, 5000).is_ok());
}

#[test]
fn malformed_token_fails() {
    let handler = JwtHandler::new("some-secret");
    assert!(matches!(handler.verify_token("not-a-token"), Err(Error::Jwt(_))));
    assert!(matches!(handler.verify_token(""), Err(Error::Jwt(_))));
    assert!(matches!(handler.verify_token("a.b.c"), Err(Error::Jwt(_))));
}

#[test]
fn refresh_keeps_subject_and_extends_expiry() {
    let handler = JwtHandler::new("refresh-secret").with_expiry(300);
    let token = handler.issue_token_at("Keeper", 2000).unwrap();

    // Refresh at a later time: same subject, expiry moved forward.
    let refreshed = handler.refresh_token_at(&token, 2100).unwrap();
    let claims = handler.verify_token_at(&refreshed, 2100).unwrap();
    assert_eq!(claims.sub, "Keeper");
    assert_eq!(claims.iat, 2100);
    assert_eq!(claims.exp, 2400);
    assert!(claims.exp >= 2300);
}

#[test]
fn refresh_of_expired_token_fails_like_verify() {
    let handler = JwtHandler::new("refresh-secret").with_expiry(100);
    let token = handler.issue_token_at("Gone", 1000).unwrap();

    // Past expiry plus skew, verification and refresh fail the same way.
    let at = 1000 + 100 + CLOCK_SKEW_SECONDS + 1;
    assert!(matches!(handler.verify_token_at(&token, at), Err(Error::Jwt(_))));
    assert!(matches!(handler.refresh_token_at(&token, at), Err(Error::Jwt(_))));
}

#[test]
fn expiry_overflow_is_rejected() {
    let handler = JwtHandler::new("overflow-secret").with_expiry(i64::MAX);
    let result = handler.issue_token_at("TooFar", 10);
    assert!(matches!(result, Err(Error::InvalidConfig(_))));
}

#[test]
fn expiry_before_epoch_is_rejected() {
    // The decoder reads `exp` as an unsigned number, so a pre-epoch expiry
    // can never round-trip; issuance refuses it up front.
    let handler = JwtHandler::new("pre-epoch-secret").with_expiry(-120);
    let result = handler.issue_token_at("TooEarly", 10);
    assert!(matches!(result, Err(Error::InvalidConfig(_))));
}

#[test]
fn issuance_succeeds_for_representable_expiries() {
    let handler = JwtHandler::new("issue-secret").with_expiry(0);
    assert!(handler.issue_token_at("Edge", 0).is_ok());
    let handler = JwtHandler::new("issue-secret").with_expiry(i64::MAX - 1);
    assert!(handler.issue_token_at("Wide", 1).is_ok());
}

#[test]
fn default_handler_round_trip() {
    let handler = JwtHandler::default();
    let token = handler.generate_token("Plain").unwrap();
    assert_eq!(handler.verify_token(&token).unwrap().sub, "Plain");
}
