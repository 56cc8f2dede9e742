//! The error taxonomy: verification failures, key-set (JWKS) failures, and
//! structural token failures.

use vstd::prelude::*;

verus! {

/// Failure of token verification or of the configuration resolver.
#[derive(Debug, Clone, PartialEq, Eq)]
pub enum USSOError {
    /// The signature did not match the resolved key.
    InvalidSignature,
    /// The token could not be verified: bad signature, disallowed algorithm,
    /// missing key id, unknown key id, or claims of the wrong shape.
    InvalidToken,
    /// The token's expiry lies in the past.
    ExpiredToken,
    /// No configuration could verify the token.
    Unauthorized,
    /// Reserved for callers that distinguish access from refresh tokens.
    InvalidTokenType,
    /// Any other failure, with a short description.
    Other(String),
}

impl USSOError {
    /// A short human-readable description of the error.
    pub fn message(&self) -> (r: String)
        ensures
            self is InvalidSignature ==> r@ == "Invalid signature"@,
            self is InvalidToken ==> r@ == "Invalid token"@,
            self is ExpiredToken ==> r@ == "Expired token"@,
            self is Unauthorized ==> r@ == "Unauthorized"@,
            self is InvalidTokenType ==> r@ == "Invalid token type"@,
            self matches USSOError::Other(m) ==> r@ == m@,
    {
        match self {
            USSOError::InvalidSignature => "Invalid signature".to_owned(),
            USSOError::InvalidToken => "Invalid token".to_owned(),
            USSOError::ExpiredToken => "Expired token".to_owned(),
            USSOError::Unauthorized => "Unauthorized".to_owned(),
            USSOError::InvalidTokenType => "Invalid token type".to_owned(),
            USSOError::Other(m) => m.clone(),
        }
    }
}

/// Failure while fetching, validating or caching a JWKS document.
#[derive(Debug, Clone, PartialEq, Eq)]
pub enum JwksError {
    /// The HTTP exchange failed or returned a non-2xx status code.
    HttpError(u16),
    /// The fetched document is structurally invalid or holds no keys, or the
    /// cache slot was already set.
    InvalidJwksData(String),
    /// The cache was read before any successful initialization.
    NotInitialized,
}

impl JwksError {
    /// A short human-readable description of the error.
    pub fn message(&self) -> (r: String)
        ensures
            self matches JwksError::InvalidJwksData(m) ==> r@ == m@,
            self is NotInitialized ==> r@ == "JWKS not initialized"@,
    {
        match self {
            JwksError::HttpError(_) => "HTTP error".to_owned(),
            JwksError::InvalidJwksData(m) => m.clone(),
            JwksError::NotInitialized => "JWKS not initialized".to_owned(),
        }
    }
}

/// Structural failure while reading a compact token's header.
#[derive(Debug, Clone, PartialEq, Eq)]
pub enum JwtError {
    /// The token does not consist of exactly three dot-separated segments.
    InvalidFormat,
    /// A segment failed base64url or JSON decoding.
    DecodingError(String),
    /// A required field is absent from the decoded header.
    MissingField(String),
    /// The header decoded but does not describe a usable token.
    InvalidToken(String),
}

} // verus!
