//! Client-side session engine for the Starlight protocol: a Sentinel agent
//! registers with a coordinating Hub over a duplex text channel, completes a
//! mutual challenge handshake before any traffic is trusted, answers
//! synchronous pre-check queries, and emits control notifications, tolerating
//! connection loss with backoff and a fresh handshake on every reconnect.
//!
//! The modules here hold the protocol logic itself: message shapes and their
//! wire encoding, token issue and verification, the handshake and session
//! state machines, and the reconnect backoff policy. Transport I/O and JSON
//! decoding of inbound frames live outside, feeding these state machines
//! plain values.

pub mod auth;
pub mod client;
pub mod error;
pub mod handshake;
pub mod messages;
pub mod methods;
pub mod sentinel;
pub mod wire;

pub use auth::Claims;
pub use auth::JwtHandler;
pub use error::Error;
pub use messages::ActionCommand;
pub use messages::ActionParams;
pub use messages::EntropyParams;
pub use messages::HijackParams;
pub use messages::JsonRpcNotification;
pub use messages::JsonRpcRequest;
pub use messages::JsonRpcResponse;
pub use messages::PreCheckParams;
pub use messages::PreCheckResponse;
pub use messages::RegistrationParams;
pub use sentinel::DefaultHandler;
pub use sentinel::Sentinel;
pub use sentinel::SentinelConfig;
