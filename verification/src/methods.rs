//! The closed vocabulary of protocol method names. Unrecognized methods are
//! ignored by the dispatcher, never rejected.

use vstd::prelude::*;

verus! {

/// Sentinel registration request (Sentinel to Hub).
pub const REGISTRATION: &'static str = "starlight.registration";

/// Handshake challenge response (Sentinel to Hub).
pub const CHALLENGE_RESPONSE: &'static str = "starlight.challenge_response";

/// Pre-check query (Hub to Sentinel).
pub const PRE_CHECK: &'static str = "starlight.pre_check";

/// Pre-check decision: proceed (Sentinel to Hub).
pub const CLEAR: &'static str = "starlight.clear";

/// Pre-check decision: retry later (Sentinel to Hub).
pub const WAIT: &'static str = "starlight.wait";

/// Take-over notification (Sentinel to Hub).
pub const HIJACK: &'static str = "starlight.hijack";

/// Action command during a take-over (Sentinel to Hub).
pub const ACTION: &'static str = "starlight.action";

/// Resume after a take-over (Sentinel to Hub).
pub const RESUME: &'static str = "starlight.resume";

/// Page-state (entropy) update (Hub to Sentinel).
pub const ENTROPY: &'static str = "starlight.entropy";

/// Context update (Hub to Sentinel).
pub const CONTEXT_UPDATE: &'static str = "starlight.context_update";

/// Intent declaration (Hub to Sentinel).
pub const INTENT: &'static str = "starlight.intent";

} // verus!
