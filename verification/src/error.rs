//! Error taxonomy: the application-level error type and the
//! authentication-specific failure kinds, with their mapping onto HTTP
//! status codes and structured error bodies.

use vstd::prelude::*;

verus! {

/// Application-level error, as surfaced to HTTP handlers.
#[derive(Debug, PartialEq, Eq)]
pub enum AppError {
    Unauthorized(String),
    Forbidden(String),
    NotFound(String),
    Validation(String),
    Conflict(String),
    Internal(String),
    Firebase(String),
}

/// The ways verification of a bearer credential can fail.
#[derive(Debug, Clone, Copy, PartialEq, Eq, Structural)]
pub enum AuthError {
    /// No `Authorization: Bearer <token>` header was presented.
    CredentialMissing,
    /// The credential is not a structurally valid compact token.
    CredentialMalformed,
    /// The token's header carries no signing-key id.
    MissingKeyId,
    /// The signing-key id is not in the key cache, even after a refresh.
    UnknownKey,
    /// The cryptographic signature does not match the located key.
    SignatureInvalid,
    /// The token's expiry is at or before the current time, minus skew.
    Expired,
    /// The audience or issuer claim does not match the configured values.
    ClaimMismatch,
    /// The identity provider could not be reached or returned no usable keys.
    KeyProviderUnavailable,
}

impl AppError {
    /// The HTTP status code this error is reported with.
    pub fn http_status(&self) -> (s: u16)
        ensures
            s == match self {
                AppError::Unauthorized(_) => 401u16,
                AppError::Forbidden(_) => 403u16,
                AppError::NotFound(_) => 404u16,
                AppError::Validation(_) => 400u16,
                AppError::Conflict(_) => 409u16,
                AppError::Internal(_) => 500u16,
                AppError::Firebase(_) => 500u16,
            },
    {
        match self {
            AppError::Unauthorized(_) => 401,
            AppError::Forbidden(_) => 403,
            AppError::NotFound(_) => 404,
            AppError::Validation(_) => 400,
            AppError::Conflict(_) => 409,
            AppError::Internal(_) => 500,
            AppError::Firebase(_) => 500,
        }
    }

    /// The machine-readable code carried in the error response body.
    pub fn error_code(&self) -> (c: &'static str)
        ensures
            c@ == match self {
                AppError::Unauthorized(_) => "UNAUTHORIZED"@,
                AppError::Forbidden(_) => "FORBIDDEN"@,
                AppError::NotFound(_) => "NOT_FOUND"@,
                AppError::Validation(_) => "VALIDATION_ERROR"@,
                AppError::Conflict(_) => "CONFLICT"@,
                AppError::Internal(_) => "INTERNAL_ERROR"@,
                AppError::Firebase(_) => "FIREBASE_ERROR"@,
            },
    {
        match self {
            AppError::Unauthorized(_) => "UNAUTHORIZED",
            AppError::Forbidden(_) => "FORBIDDEN",
            AppError::NotFound(_) => "NOT_FOUND",
            AppError::Validation(_) => "VALIDATION_ERROR",
            AppError::Conflict(_) => "CONFLICT",
            AppError::Internal(_) => "INTERNAL_ERROR",
            AppError::Firebase(_) => "FIREBASE_ERROR",
        }
    }

    /// The message disclosed to the caller. Internal and provider-side
    /// failures are replaced by a generic message so that nothing about the
    /// failure's cause leaks out.
    pub fn client_message(&self) -> (m: String)
        ensures
            m@ == match self {
                AppError::Unauthorized(s) => s@,
                AppError::Forbidden(s) => s@,
                AppError::NotFound(s) => s@,
                AppError::Validation(s) => s@,
                AppError::Conflict(s) => s@,
                AppError::Internal(_) => "An internal error occurred"@,
                AppError::Firebase(_) => "Authentication service error"@,
            },
    {
        match self {
            AppError::Unauthorized(s) => s.clone(),
            AppError::Forbidden(s) => s.clone(),
            AppError::NotFound(s) => s.clone(),
            AppError::Validation(s) => s.clone(),
            AppError::Conflict(s) => s.clone(),
            AppError::Internal(_) => String::from_str("An internal error occurred"),
            AppError::Firebase(_) => String::from_str("Authentication service error"),
        }
    }
}

impl AuthError {
    /// A short description of the failure, for internal logging.
    pub fn describe(&self) -> (d: &'static str)
        ensures
            d@ == self.describe_spec(),
    {
        match self {
            AuthError::CredentialMissing => "Authorization header missing",
            AuthError::CredentialMalformed => "Token is malformed",
            AuthError::MissingKeyId => "Token has no key id",
            AuthError::UnknownKey => "Unknown signing key",
            AuthError::SignatureInvalid => "Token signature is invalid",
            AuthError::Expired => "Token is expired",
            AuthError::ClaimMismatch => "Token claims do not match",
            AuthError::KeyProviderUnavailable => "Key provider unavailable",
        }
    }

    /// Fold an authentication failure into the application error space.
    /// Every verification-time failure is reported as `Unauthorized`;
    /// a provider outage is a service-side error, not the caller's fault.
    pub fn to_app_error(self) -> (e: AppError)
        ensures
            self is KeyProviderUnavailable ==> (e matches AppError::Firebase(m) && m@
                == self.describe_spec()),
            !(self is KeyProviderUnavailable) ==> (e matches AppError::Unauthorized(m) && m@
                == self.describe_spec()),
    {
        let msg = String::from_str(self.describe());
        match self {
            AuthError::KeyProviderUnavailable => AppError::Firebase(msg),
            _ => AppError::Unauthorized(msg),
        }
    }

    /// What `describe` returns, as a spec-level sequence.
    pub open spec fn describe_spec(&self) -> Seq<char> {
        match self {
            AuthError::CredentialMissing => "Authorization header missing"@,
            AuthError::CredentialMalformed => "Token is malformed"@,
            AuthError::MissingKeyId => "Token has no key id"@,
            AuthError::UnknownKey => "Unknown signing key"@,
            AuthError::SignatureInvalid => "Token signature is invalid"@,
            AuthError::Expired => "Token is expired"@,
            AuthError::ClaimMismatch => "Token claims do not match"@,
            AuthError::KeyProviderUnavailable => "Key provider unavailable"@,
        }
    }
}

} // verus!
