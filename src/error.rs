use vstd::prelude::*;

verus! {

/// The typed errors that every public operation of an account may surface.
#[derive(Debug, Clone, Copy, PartialEq, Eq, Structural)]
pub enum FxaError {
    /// The operation needs a connected account.
    NotAuthenticated,
    /// No OAuth flow is in progress, or the returned state nonce does not match.
    FlowMismatch,
    /// The server rejected the credentials: a fresh sign-in is needed.
    AuthenticationError,
    /// The target of a device command is not a known device that has the capability.
    UnknownDevice,
    /// The server declined a device command.
    CommandRejected,
    /// A network or server failure that the caller may retry.
    Transient,
    /// Malformed persisted state, or an operation used out of order.
    Fatal,
}

/// How the transport classifies a failed request to the identity or OAuth server.
#[derive(Debug, Clone, Copy, PartialEq, Eq, Structural)]
pub enum TransportError {
    Network,
    InvalidGrant,
    InvalidToken,
    RateLimited,
    ServerError,
}

/// Whether the server refused the credentials themselves.
pub open spec fn is_auth_rejection(e: TransportError) -> bool {
    e == TransportError::InvalidGrant || e == TransportError::InvalidToken
}

/// The error surfaced for a failed transport request.
pub open spec fn transport_error_spec(e: TransportError) -> FxaError {
    if is_auth_rejection(e) {
        FxaError::AuthenticationError
    } else {
        FxaError::Transient
    }
}

impl FxaError {
    /// Maps a transport failure to the error surfaced to callers: a rejection of the
    /// credentials is an authentication error, anything else may be retried.
    pub fn from_transport(e: TransportError) -> (r: FxaError)
        ensures
            r == transport_error_spec(e),
    {
        match e {
            TransportError::InvalidGrant | TransportError::InvalidToken => FxaError::AuthenticationError,
            _ => FxaError::Transient,
        }
    }
}

} // verus!
