//! The error taxonomy shared by the signature verifier, the token manager,
//! the request gate and the refresh coordinator, together with the fixed
//! mapping from each error kind to its HTTP status code.

use vstd::prelude::*;

verus! {

/// Every failure the authentication core can report to a client.
#[derive(Clone, Copy, Debug, PartialEq, Eq, Structural)]
pub enum ApiErrorResponse {
    /// No credential was presented at all.
    NoToken,
    /// A structurally or cryptographically invalid token was presented.
    InvalidToken,
    /// A validly signed token past its expiry; recoverable via refresh.
    ExpiredToken,
    /// The challenge signature failed verification or named another address.
    InvalidSignature,
    /// A credential was presented, but not under the `Bearer` scheme.
    MissingBearerToken,
    /// A refresh token that decodes but was superseded by a newer one.
    TokenMismatch,
    /// A storage or collaborator fault; never an authentication failure.
    InternalServerError,
    /// A referenced resource is absent.
    NotFound,
}

impl ApiErrorResponse {
    /// The HTTP status this error kind maps to.
    pub open spec fn spec_status_code(self) -> u16 {
        match self {
            ApiErrorResponse::NoToken => 401,
            ApiErrorResponse::InvalidToken => 403,
            ApiErrorResponse::ExpiredToken => 498,
            ApiErrorResponse::InvalidSignature => 495,
            ApiErrorResponse::MissingBearerToken => 499,
            ApiErrorResponse::TokenMismatch => 496,
            ApiErrorResponse::InternalServerError => 500,
            ApiErrorResponse::NotFound => 404,
        }
    }

    /// Maps an error kind to its HTTP status code.
    pub fn status_code(&self) -> (r: u16)
        ensures
            r == self.spec_status_code(),
    {
        match self {
            ApiErrorResponse::NoToken => 401,
            ApiErrorResponse::InvalidToken => 403,
            ApiErrorResponse::ExpiredToken => 498,
            ApiErrorResponse::InvalidSignature => 495,
            ApiErrorResponse::MissingBearerToken => 499,
            ApiErrorResponse::TokenMismatch => 496,
            ApiErrorResponse::InternalServerError => 500,
            ApiErrorResponse::NotFound => 404,
        }
    }

    /// A short human-readable description of the error kind.
    pub fn message(&self) -> (r: &'static str)
        ensures
            self is NoToken ==> r@ == "missing token"@,
            self is InvalidToken ==> r@ == "invalid token"@,
            self is ExpiredToken ==> r@ == "expired token"@,
            self is InvalidSignature ==> r@ == "invalid signature"@,
            self is MissingBearerToken ==> r@ == "missing bearer token"@,
            self is TokenMismatch ==> r@ == "token mismatch"@,
            self is InternalServerError ==> r@ == "internal server error"@,
            self is NotFound ==> r@ == "resource not found"@,
    {
        match self {
            ApiErrorResponse::NoToken => "missing token",
            ApiErrorResponse::InvalidToken => "invalid token",
            ApiErrorResponse::ExpiredToken => "expired token",
            ApiErrorResponse::InvalidSignature => "invalid signature",
            ApiErrorResponse::MissingBearerToken => "missing bearer token",
            ApiErrorResponse::TokenMismatch => "token mismatch",
            ApiErrorResponse::InternalServerError => "internal server error",
            ApiErrorResponse::NotFound => "resource not found",
        }
    }
}

} // verus!
