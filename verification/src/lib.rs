//! Authorization-code login with single-use state tokens and cookie sessions.
//!
//! The crate holds the decisions of a login flow against an identity
//! provider: minting and consuming anti-forgery state tokens, building the
//! redirect to the provider, judging the provider's reply to the code
//! exchange, and issuing and looking up session identifiers. Network traffic
//! is left to the caller, which hands requests and replies over as plain
//! values.

pub mod authorize;
pub mod callback;
pub mod cookie;
pub mod cookie_manager;
pub mod encoding;
pub mod error;
pub mod json;
pub mod lookup;
pub mod registry;
pub mod session;
pub mod token;
