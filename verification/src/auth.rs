//! Bearer-token issue and verification.
//!
//! A token carries a subject, an issued-at time and an expiry (seconds since
//! the Unix epoch). Signing and signature checking are done by the
//! `jsonwebtoken` crate behind two trusted wrappers; everything about time —
//! building the expiry from a time-to-live, and checking expiry against the
//! clock with a bounded skew allowance — is verified here, so the expiry
//! window is exact, and issuance is proved to succeed whenever the expiry
//! is a representable timestamp.

use vstd::prelude::*;

use crate::error::Error;

verus! {

/// Clock-skew allowance, in seconds, granted when checking token expiry: a
/// token is accepted while `now <= exp + CLOCK_SKEW_SECONDS`.
pub const CLOCK_SKEW_SECONDS: i64 = 60;

/// The issuer written into every token this library signs.
pub const TOKEN_ISSUER: &'static str = "starlight-rust-sdk";

/// Token claims: subject, issued-at and expiry (Unix seconds), and an
/// optional issuer.
#[derive(Debug, Clone, PartialEq, Eq)]
pub struct Claims {
    /// Subject (Sentinel name).
    pub sub: String,
    /// Issued at (Unix timestamp).
    pub iat: i64,
    /// Expiration (Unix timestamp).
    pub exp: i64,
    /// Issuer, when the token carries one.
    pub iss: Option<String>,
}

/// The `(subject, issued-at, expiry, issuer)` claims that `token` carries
/// under `secret`, or `None` when the token is malformed, is signed with
/// another secret, or lacks those claims. This is what `jsonwebtoken`'s
/// signature check recovers; it depends on the secret and the token alone.
pub uninterp spec fn token_claims(secret: Seq<char>, token: Seq<char>) -> Option<
    (Seq<char>, int, int, Option<Seq<char>>),
>;

/// Relies on `jsonwebtoken::encode`: signs the claims
/// `{sub, iat, exp, iss}` with HS256 under `secret`, and decoding the
/// result with the same secret recovers exactly these claims. The expiry
/// must be nonnegative because the decoder parses `exp` as an unsigned
/// number and treats a negative one as missing. Signing itself cannot fail:
/// an HMAC key accepts any byte string, the default header is HS256, and
/// these plain claims always serialize — so a token is always returned.
#[verifier::external_body]
fn jwt_encode_signed(secret: &str, sub: &str, iat: i64, exp: i64, iss: &str) -> (r: Option<String>)
    requires
        0 <= exp,
    ensures
        r is Some,
        r matches Some(t) ==> token_claims(secret@, t@) == Some(
            (sub@, iat as int, exp as int, Some(iss@)),
        ),
{
    let mut claims = serde_json::Map::new();
    claims.insert("sub".to_string(), serde_json::Value::from(sub));
    claims.insert("iat".to_string(), serde_json::Value::from(iat));
    claims.insert("exp".to_string(), serde_json::Value::from(exp));
    claims.insert("iss".to_string(), serde_json::Value::from(iss));
    let key = jsonwebtoken::EncodingKey::from_secret(secret.as_bytes());
    let header = jsonwebtoken::Header::default();
    jsonwebtoken::encode(&header, &serde_json::Value::Object(claims), &key).ok()
}

/// Relies on `jsonwebtoken::decode`: checks the HS256 signature under
/// `secret` and recovers the `sub`, `iat`, `exp` and optional `iss` claims.
/// Expiry is not validated here (the validation is configured without it),
/// so the result is a function of the secret and the token alone.
#[verifier::external_body]
fn jwt_decode_signed(secret: &str, token: &str) -> (r: Option<(String, i64, i64, Option<String>)>)
    ensures
        r matches Some(c) ==> token_claims(secret@, token@) == Some(
            (c.0@, c.1 as int, c.2 as int, c.3.deep_view()),
        ),
        r is None ==> token_claims(secret@, token@) is None,
{
    let key = jsonwebtoken::DecodingKey::from_secret(secret.as_bytes());
    let mut validation = jsonwebtoken::Validation::new(jsonwebtoken::Algorithm::HS256);
    validation.set_required_spec_claims(&["exp", "sub"]);
    validation.validate_exp = false;
    let data = jsonwebtoken::decode::<serde_json::Value>(token, &key, &validation).ok()?;
    let sub = data.claims.get("sub")?.as_str()?.to_string();
    let iat = data.claims.get("iat")?.as_i64()?;
    let exp = data.claims.get("exp")?.as_i64()?;
    let iss = data.claims.get("iss").and_then(|v| v.as_str()).map(|s| s.to_string());
    Some((sub, iat, exp, iss))
}

/// Relies on `chrono::Utc::now` for the current Unix timestamp. Nothing is
/// assumed of the value returned: callers state what holds for every time.
#[verifier::external_body]
pub(crate) fn now_unix_seconds() -> i64 {
    chrono::Utc::now().timestamp()
}

/// Whether `token` verifies under `secret` at time `now`: it must carry
/// well-signed claims and must not be past its expiry plus the skew
/// allowance.
pub open spec fn token_valid_at(secret: Seq<char>, token: Seq<char>, now: int) -> bool {
    match token_claims(secret, token) {
        Some(c) => now <= c.2 + CLOCK_SKEW_SECONDS,
        None => false,
    }
}

/// Whether `now` plus the lifetime `ttl` is a representable, nonnegative
/// expiry timestamp — the exact condition under which issuance succeeds.
pub open spec fn expiry_representable(now: int, ttl: int) -> bool {
    0 <= now + ttl <= i64::MAX
}

/// Issues and validates bearer tokens with a configured secret and
/// time-to-live.
#[derive(Clone)]
pub struct JwtHandler {
    secret: String,
    expires_in_seconds: i64,
}

impl JwtHandler {
    /// The signing secret.
    pub closed spec fn spec_secret(&self) -> Seq<char> {
        self.secret@
    }

    /// The configured token lifetime, in seconds.
    pub closed spec fn spec_expiry(&self) -> int {
        self.expires_in_seconds as int
    }

    /// Create a new handler with the given secret and a one-hour lifetime.
    pub fn new(secret: &str) -> (h: JwtHandler)
        ensures
            h.spec_secret() == secret@,
            h.spec_expiry() == 3600,
    {
        JwtHandler { secret: secret.to_owned(), expires_in_seconds: 3600 }
    }

    /// Set the token lifetime in seconds.
    pub fn with_expiry(self, seconds: i64) -> (h: JwtHandler)
        ensures
            h.spec_secret() == self.spec_secret(),
            h.spec_expiry() == seconds as int,
    {
        JwtHandler { expires_in_seconds: seconds, ..self }
    }

    /// Issue a token for `subject` as of time `now`: issued-at `now`, expiry
    /// `now` plus the configured lifetime, issuer the library's own. It
    /// succeeds exactly when that expiry is a representable, nonnegative
    /// timestamp; otherwise the configuration is rejected.
    pub fn issue_token_at(&self, subject: &str, now: i64) -> (r: Result<String, Error>)
        ensures
            r is Ok <==> expiry_representable(now as int, self.spec_expiry()),
            r matches Ok(t) ==> token_claims(self.spec_secret(), t@) == Some(
                (subject@, now as int, now + self.spec_expiry(), Some(TOKEN_ISSUER@)),
            ),
            r is Err ==> r matches Err(Error::InvalidConfig(_)),
    {
        match now.checked_add(self.expires_in_seconds) {
            None => Err(Error::InvalidConfig("token expiry overflows the timestamp".to_owned())),
            Some(exp) => {
                if exp < 0 {
                    Err(Error::InvalidConfig("token expiry is before the epoch".to_owned()))
                } else {
                    match jwt_encode_signed(self.secret.as_str(), subject, now, exp, TOKEN_ISSUER) {
                        Some(t) => Ok(t),
                        None => unreached(),
                    }
                }
            },
        }
    }

    /// Issue a token for `subject` as of the current time. The clock is
    /// outside the library; for each time value, `issue_token_at` fixes the
    /// result exactly.
    pub fn generate_token(&self, subject: &str) -> (r: Result<String, Error>)
        ensures
            r matches Ok(t) ==> (token_claims(self.spec_secret(), t@) matches Some(c) && c.0
                == subject@ && c.2 == c.1 + self.spec_expiry() && 0 <= c.2 && c.3 == Some(
                TOKEN_ISSUER@,
            )),
            r is Err ==> r matches Err(Error::InvalidConfig(_)),
    {
        let now = now_unix_seconds();
        self.issue_token_at(subject, now)
    }

    /// Verify `token` as of time `now`: it succeeds exactly when the token
    /// carries well-signed claims and `now` is at most the expiry plus the
    /// skew allowance, and returns those claims.
    pub fn verify_token_at(&self, token: &str, now: i64) -> (r: Result<Claims, Error>)
        ensures
            r is Ok <==> token_valid_at(self.spec_secret(), token@, now as int),
            r matches Ok(c) ==> token_claims(self.spec_secret(), token@) == Some(
                (c.sub@, c.iat as int, c.exp as int, c.iss.deep_view()),
            ),
            r is Err ==> (r matches Err(Error::Jwt(_))),
    {
        match jwt_decode_signed(self.secret.as_str(), token) {
            None => Err(Error::Jwt("invalid token signature or structure".to_owned())),
            Some((sub, iat, exp, iss)) => {
                // An expiry bound past the top of the timestamp type can
                // never be exceeded.
                let within = match exp.checked_add(CLOCK_SKEW_SECONDS) {
                    Some(bound) => now <= bound,
                    None => true,
                };
                if within {
                    Ok(Claims { sub, iat, exp, iss })
                } else {
                    Err(Error::Jwt("token expired".to_owned()))
                }
            },
        }
    }

    /// Verify `token` as of the current time. The clock is outside the
    /// library; for each time value, `verify_token_at` fixes the result
    /// exactly.
    pub fn verify_token(&self, token: &str) -> (r: Result<Claims, Error>)
        ensures
            r matches Ok(c) ==> token_claims(self.spec_secret(), token@) == Some(
                (c.sub@, c.iat as int, c.exp as int, c.iss.deep_view()),
            ),
            token_claims(self.spec_secret(), token@) is None ==> r is Err,
            r is Err ==> (r matches Err(Error::Jwt(_))),
    {
        let now = now_unix_seconds();
        self.verify_token_at(token, now)
    }

    /// Refresh `token` as of time `now`: verify it, then issue a new token
    /// with the same subject, issued at `now`. It succeeds exactly when the
    /// old token verifies at `now` and the fresh expiry is representable;
    /// an invalid or expired token is rejected with the error its
    /// verification gives.
    pub fn refresh_token_at(&self, token: &str, now: i64) -> (r: Result<String, Error>)
        ensures
            r is Ok <==> token_valid_at(self.spec_secret(), token@, now as int)
                && expiry_representable(now as int, self.spec_expiry()),
            !token_valid_at(self.spec_secret(), token@, now as int) ==> (r matches Err(
                Error::Jwt(_),
            )),
            r matches Ok(t) ==> (token_claims(self.spec_secret(), token@) matches Some(orig)
                && token_claims(self.spec_secret(), t@) == Some(
                (orig.0, now as int, now + self.spec_expiry(), Some(TOKEN_ISSUER@)),
            )),
            r is Err ==> (r matches Err(Error::Jwt(_)) || r matches Err(Error::InvalidConfig(_))),
    {
        match self.verify_token_at(token, now) {
            Err(e) => Err(e),
            Ok(claims) => self.issue_token_at(claims.sub.as_str(), now),
        }
    }

    /// Refresh `token` as of the current time. The clock is outside the
    /// library; for each time value, `refresh_token_at` fixes the result
    /// exactly.
    pub fn refresh_token(&self, token: &str) -> (r: Result<String, Error>)
        ensures
            token_claims(self.spec_secret(), token@) is None ==> (r matches Err(Error::Jwt(_))),
            r matches Ok(t) ==> (token_claims(self.spec_secret(), token@) matches Some(orig)
                && token_claims(self.spec_secret(), t@) matches Some(c) && c.0 == orig.0 && c.2
                == c.1 + self.spec_expiry() && c.3 == Some(TOKEN_ISSUER@)),
            r is Err ==> (r matches Err(Error::Jwt(_)) || r matches Err(Error::InvalidConfig(_))),
    {
        let now = now_unix_seconds();
        self.refresh_token_at(token, now)
    }
}

impl Default for JwtHandler {
    /// A handler with a placeholder secret, for development only.
    fn default() -> (h: Self)
        ensures
            h.spec_secret() == "starlight-default-secret-not-for-production"@,
            h.spec_expiry() == 3600,
    {
        JwtHandler::new("starlight-default-secret-not-for-production")
    }
}

/// A token carrying expiry `exp` verifies exactly while `now` is at most
/// `exp` plus the clock-skew allowance; past that bound verification fails,
/// whatever the subject, issue time or issuer.
pub proof fn lemma_verify_window(
    secret: Seq<char>,
    token: Seq<char>,
    sub: Seq<char>,
    iat: int,
    exp: int,
    iss: Option<Seq<char>>,
    now: int,
)
    requires
        token_claims(secret, token) == Some((sub, iat, exp, iss)),
    ensures
        token_valid_at(secret, token, now) <==> now <= exp + CLOCK_SKEW_SECONDS,
{
}

/// Refreshing a still-valid token issued no later than `now`, whose life is
/// no longer than the issuer grants, keeps its subject and never shortens
/// its expiry.
pub proof fn lemma_refresh_extends(
    secret: Seq<char>,
    old_token: Seq<char>,
    new_token: Seq<char>,
    sub: Seq<char>,
    iat: int,
    exp: int,
    iss: Option<Seq<char>>,
    ttl: int,
    now: int,
)
    requires
        token_claims(secret, old_token) == Some((sub, iat, exp, iss)),
        token_valid_at(secret, old_token, now),
        iat <= now,
        exp <= iat + ttl,
        token_claims(secret, new_token) == Some((sub, now, now + ttl, Some(TOKEN_ISSUER@))),
    ensures
        token_claims(secret, new_token)->Some_0.2 >= exp,
        token_claims(secret, new_token)->Some_0.0 == sub,
{
}

} // verus!
