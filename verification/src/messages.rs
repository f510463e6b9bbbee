//! JSON-RPC 2.0 envelopes and the protocol's message shapes: pure data, no
//! behavior. Inbound payloads reach these types as plain values; the wire
//! text of outbound messages is produced by the encoders in `wire`.

use vstd::prelude::*;

verus! {

/// JSON-RPC version tag carried by every envelope.
pub const JSONRPC_VERSION: &'static str = "2.0";

/// A JSON-RPC 2.0 request: a method, parameters, and a correlation
/// identifier that the matching response must echo.
#[derive(Debug, Clone)]
pub struct JsonRpcRequest<T> {
    pub jsonrpc: String,
    pub method: String,
    pub params: T,
    pub id: String,
}

impl<T> JsonRpcRequest<T> {
    /// Create a new request.
    pub fn new(method: &str, params: T, id: &str) -> (r: JsonRpcRequest<T>)
        ensures
            r.jsonrpc@ == JSONRPC_VERSION@,
            r.method@ == method@,
            r.params == params,
            r.id@ == id@,
    {
        JsonRpcRequest {
            jsonrpc: JSONRPC_VERSION.to_owned(),
            method: method.to_owned(),
            params,
            id: id.to_owned(),
        }
    }
}

/// A JSON-RPC 2.0 response, correlated to a request by its identifier.
#[derive(Debug, Clone)]
pub struct JsonRpcResponse<T> {
    pub jsonrpc: String,
    pub result: Option<T>,
    pub error: Option<JsonRpcError>,
    pub id: String,
}

/// A JSON-RPC 2.0 error object. `data` holds the raw text of the optional
/// detail payload.
#[derive(Debug, Clone)]
pub struct JsonRpcError {
    pub code: i32,
    pub message: String,
    pub data: Option<String>,
}

/// A JSON-RPC 2.0 notification: a request with no identifier and hence no
/// reply obligation.
#[derive(Debug, Clone)]
pub struct JsonRpcNotification<T> {
    pub jsonrpc: String,
    pub method: String,
    pub params: T,
}

impl<T> JsonRpcNotification<T> {
    /// Create a new notification.
    pub fn new(method: &str, params: T) -> (r: JsonRpcNotification<T>)
        ensures
            r.jsonrpc@ == JSONRPC_VERSION@,
            r.method@ == method@,
            r.params == params,
    {
        JsonRpcNotification {
            jsonrpc: JSONRPC_VERSION.to_owned(),
            method: method.to_owned(),
            params,
        }
    }
}

/// Registration parameters (Sentinel to Hub).
#[derive(Debug, Clone)]
pub struct RegistrationParams {
    /// Sentinel layer name.
    pub layer: String,
    /// Priority, 1 to 10; lower is higher priority.
    pub priority: u8,
    /// Capability tags.
    pub capabilities: Vec<String>,
    /// Selectors this Sentinel monitors.
    pub selectors: Vec<String>,
    /// Optional bearer token; absent entirely when no secret is configured.
    pub auth_token: Option<String>,
}

impl RegistrationParams {
    /// Create registration params with no capabilities, selectors or token.
    pub fn new(layer: &str, priority: u8) -> (r: RegistrationParams)
        ensures
            r.layer@ == layer@,
            r.priority == priority,
            r.capabilities@.len() == 0,
            r.selectors@.len() == 0,
            r.auth_token is None,
    {
        RegistrationParams {
            layer: layer.to_owned(),
            priority,
            capabilities: Vec::new(),
            selectors: Vec::new(),
            auth_token: None,
        }
    }

    /// Set the capability tags.
    pub fn with_capabilities(self, caps: Vec<String>) -> (r: RegistrationParams)
        ensures
            r == (RegistrationParams { capabilities: caps, ..self }),
    {
        RegistrationParams { capabilities: caps, ..self }
    }

    /// Set the monitored selectors.
    pub fn with_selectors(self, sels: Vec<String>) -> (r: RegistrationParams)
        ensures
            r == (RegistrationParams { selectors: sels, ..self }),
    {
        RegistrationParams { selectors: sels, ..self }
    }

    /// Set the bearer token.
    pub fn with_auth_token(self, token: &str) -> (r: RegistrationParams)
        ensures
            r.auth_token matches Some(t) && t@ == token@,
            r.layer == self.layer,
            r.priority == self.priority,
            r.capabilities == self.capabilities,
            r.selectors == self.selectors,
    {
        RegistrationParams { auth_token: Some(token.to_owned()), ..self }
    }
}

/// The Hub's reply to a registration request: acceptance, and the handshake
/// challenge the Sentinel must echo back.
#[derive(Debug, Clone)]
pub struct RegistrationResult {
    /// Whether the registration was accepted.
    pub success: bool,
    /// Challenge value to echo; a missing challenge on an accepted
    /// registration is a handshake error, not a shortcut success.
    pub challenge: Option<String>,
}

/// Challenge-response parameters (Sentinel to Hub).
#[derive(Debug, Clone)]
pub struct ChallengeResponseParams {
    /// The challenge value, echoed back.
    pub response: String,
}

/// Pre-check query parameters (Hub to Sentinel).
#[derive(Debug, Clone)]
pub struct PreCheckParams {
    /// Current page URL.
    pub url: Option<String>,
    /// Upcoming command type.
    pub command: String,
    /// Target selector for the command.
    pub selector: Option<String>,
    /// Semantic goal.
    pub goal: Option<String>,
    /// Detected blocking elements.
    pub blocking: Vec<BlockingElement>,
    /// Page screenshot, base64-encoded.
    pub screenshot: Option<String>,
}

/// A blocking element detected by the Hub.
#[derive(Debug, Clone)]
pub struct BlockingElement {
    pub selector: String,
    pub text: Option<String>,
    pub element_type: Option<String>,
}

/// A Sentinel's decision on a pre-check query.
#[derive(Debug, Clone)]
pub enum PreCheckResponse {
    /// All clear: proceed with the command.
    Clear,
    /// Wait: retry after the given number of milliseconds.
    Wait { retry_after_ms: u64, reason: Option<String> },
    /// Hijack: the Sentinel takes control.
    Hijack { reason: String },
}

/// Take-over parameters (Sentinel to Hub).
#[derive(Debug, Clone)]
pub struct HijackParams {
    pub reason: String,
}

/// An action command issued during a take-over (Sentinel to Hub).
#[derive(Debug, Clone)]
pub struct ActionParams {
    pub cmd: ActionCommand,
    pub selector: String,
    /// Text for fill commands; absent from the wire when `None`.
    pub text: Option<String>,
}

/// The commands available during a take-over.
#[derive(Debug, Clone, Copy, PartialEq, Eq, Structural)]
pub enum ActionCommand {
    Click,
    Fill,
    Hide,
    Remove,
}

/// Resume parameters after a take-over.
#[derive(Debug, Clone)]
pub struct ResumeParams {
    /// Ask the Hub to re-run its pre-check after resuming.
    pub request_recheck: bool,
}

impl Default for ResumeParams {
    /// By default a re-check is requested.
    fn default() -> (r: Self)
        ensures
            r.request_recheck,
    {
        ResumeParams { request_recheck: true }
    }
}

/// A context update, carried as pairs of key and raw value text.
#[derive(Debug, Clone)]
pub struct ContextUpdateParams {
    pub context: Vec<(String, String)>,
}

/// A page-state (entropy) update from the Hub.
#[derive(Debug, Clone)]
pub struct EntropyParams {
    pub url: String,
    pub title: Option<String>,
    /// Recent DOM mutation count.
    pub mutations: u32,
    /// Pending network request count.
    pub network_pending: u32,
}

} // verus!
