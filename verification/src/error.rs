//! Errors of the server's authorization flow.

use vstd::prelude::*;

verus! {

/// What went wrong while serving a request, with a message for the log.
pub enum ServerError {
    /// The client could not build what it sends (a URL).
    ClientError(String),
    /// The authorization flow is not in a state to go on (no code verifier).
    AuthError(String),
    /// The token endpoint could not be reached or answered with an error.
    TokenError(String),
}

impl ServerError {
    /// The message carried by the error.
    pub fn message(&self) -> (m: &String)
        ensures
            m == match self {
                ServerError::ClientError(m) => m,
                ServerError::AuthError(m) => m,
                ServerError::TokenError(m) => m,
            },
    {
        match self {
            ServerError::ClientError(m) => m,
            ServerError::AuthError(m) => m,
            ServerError::TokenError(m) => m,
        }
    }
}

} // verus!
