//! The kinds of failure of a login, and what a client is told of each.

use vstd::prelude::*;

verus! {

/// Why a step of the login did not succeed.
#[derive(Debug, Clone, Copy, PartialEq, Eq, Structural)]
pub enum AuthError {
    /// The callback's state token is not outstanding: it was never issued,
    /// or it was used before. The client's fault.
    ProtocolViolation,
    /// The provider could not be reached, refused the code, or sent a reply
    /// that is no token record. The provider's fault, or the network's.
    UpstreamFailure,
    /// The configured values do not make a request: the authorization URL
    /// cannot be built, or the credentials are too long to encode.
    ConfigurationFailure,
    /// Every candidate for a new session identifier was already taken.
    IdentifierExhausted,
}

/// The HTTP status that reports `error`.
pub open spec fn status_of(error: AuthError) -> u16 {
    match error {
        AuthError::ProtocolViolation => 401,
        _ => 500,
    }
}

impl AuthError {
    /// The HTTP status that reports this failure: 401 for a rejected state
    /// token, 500 for every failure on the server's side.
    pub fn status_code(&self) -> (status: u16)
        ensures
            status == status_of(*self),
    {
        match self {
            AuthError::ProtocolViolation => 401,
            AuthError::UpstreamFailure => 500,
            AuthError::ConfigurationFailure => 500,
            AuthError::IdentifierExhausted => 500,
        }
    }

    /// The text sent to the client with the status. It names the kind of
    /// failure, never a secret nor the registry's contents.
    pub fn message(&self) -> (text: &'static str)
        ensures
            text@ == (match *self {
                AuthError::ProtocolViolation => "Unauthorized"@,
                AuthError::UpstreamFailure => "token exchange failed"@,
                AuthError::ConfigurationFailure => "login is not configured"@,
                AuthError::IdentifierExhausted => "no session identifier available"@,
            }),
    {
        match self {
            AuthError::ProtocolViolation => "Unauthorized",
            AuthError::UpstreamFailure => "token exchange failed",
            AuthError::ConfigurationFailure => "login is not configured",
            AuthError::IdentifierExhausted => "no session identifier available",
        }
    }
}

} // verus!
