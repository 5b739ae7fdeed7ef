use vstd::prelude::*;

verus! {

/// Typed failures of the authentication core. Every fallible operation of the
/// library reports one of these; the hosting layer maps them to user-visible
/// responses.
#[derive(Clone, Copy, Debug, PartialEq, Eq, Structural)]
pub enum AuthError {
    /// The bearer header is absent, not of the `Bearer <token>` shape, or uses
    /// another scheme.
    MissingOrMalformedHeader,
    /// A token's signature or structure is invalid.
    InvalidToken,
    /// A token's signature is valid but its expiry lies in the past.
    ExpiredToken,
    /// A password mismatch, or a missing second-factor code at login.
    InvalidCredentials,
    /// A one-time-password secret fails Base32 decoding, or a stored password
    /// hash is structurally invalid.
    MalformedSecretOrCode,
    /// A server-side integrity fault: entropy or key-setup failure, a signed
    /// subject that is no valid identity, or a decryption that yields
    /// non-text output.
    Internal,
}

impl AuthError {
    /// A short description, for the hosting layer's logs and responses.
    pub fn message(&self) -> (r: &'static str)
        ensures
            r@.len() > 0,
    {
        proof {
            reveal_strlit("missing or malformed authorization header");
            reveal_strlit("invalid token");
            reveal_strlit("token expired");
            reveal_strlit("invalid credentials");
            reveal_strlit("malformed secret or code");
            reveal_strlit("internal server error");
        }
        match self {
            AuthError::MissingOrMalformedHeader => "missing or malformed authorization header",
            AuthError::InvalidToken => "invalid token",
            AuthError::ExpiredToken => "token expired",
            AuthError::InvalidCredentials => "invalid credentials",
            AuthError::MalformedSecretOrCode => "malformed secret or code",
            AuthError::Internal => "internal server error",
        }
    }
}

} // verus!
