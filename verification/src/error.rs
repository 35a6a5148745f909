//! What can go wrong while a token is verified and turned into a
//! [`KeycloakToken`](crate::token::KeycloakToken).

use jsonwebtoken::errors::ErrorKind;
use vstd::prelude::*;

verus! {

/// `jsonwebtoken::errors::Error`, opaque here: it is read through
/// [`error_kind`] and [`error_text`] only.
#[verifier::external_type_specification]
#[verifier::external_body]
pub struct ExJwtError(jsonwebtoken::errors::Error);

/// Why decoding or verifying a token failed. One variant per kind of failure
/// that `jsonwebtoken` reports, and `Other` for kinds this library does not
/// know by name.
#[derive(Clone, Copy, Debug, PartialEq, Eq)]
pub enum DecodeErrorKind {
    /// The token does not have the shape of a JWT.
    InvalidToken,
    /// The signature does not match.
    InvalidSignature,
    InvalidEcdsaKey,
    InvalidRsaKey,
    RsaFailedSigning,
    InvalidAlgorithmName,
    InvalidKeyFormat,
    /// A claim that the validation requires is absent.
    MissingRequiredClaim,
    /// The `exp` claim lies in the past.
    ExpiredSignature,
    InvalidIssuer,
    /// The `aud` claim names none of the expected audiences.
    InvalidAudience,
    InvalidSubject,
    /// The `nbf` claim lies in the future.
    ImmatureSignature,
    /// The header's algorithm is not the one asked for, or does not fit the key.
    InvalidAlgorithm,
    MissingAlgorithm,
    Base64,
    Json,
    Utf8,
    Crypto,
    Other,
}

/// A failed decode: its kind, and the message of the underlying error.
#[derive(Clone, Debug, PartialEq, Eq)]
pub struct DecodeError {
    pub kind: DecodeErrorKind,
    pub message: String,
}

/// The reasons for which a token is turned down.
#[derive(Clone, Debug, PartialEq, Eq)]
pub enum AuthError {
    /// The token's header could not be decoded.
    DecodeHeader { source: DecodeError },
    /// There was no key to check the token against.
    NoDecodingKeys,
    /// The token could not be decoded or did not pass validation.
    Decode { source: DecodeError },
    /// The claims do not have the shape of the standard claims.
    JsonParse { message: String },
    /// A claim is present but holds a value that cannot be used.
    InvalidToken { reason: String },
    /// The token's time of expiry has passed.
    TokenExpired,
    /// A role that the caller requires is not among the token's roles.
    MissingExpectedRole { role: String },
    /// A role that the caller forbids is among the token's roles.
    UnexpectedRole,
}

impl AuthError {
    /// The failure is a decode failure caused by a signature that does not
    /// match the key it was checked against.
    pub open spec fn is_signature_mismatch(&self) -> bool {
        self matches AuthError::Decode { source } && source.kind is InvalidSignature
    }
}

/// What `jsonwebtoken` reported, as a value of this library.
pub(crate) fn decode_error(error: &jsonwebtoken::errors::Error) -> DecodeError {
    DecodeError { kind: error_kind(error), message: error_text(error) }
}

/// Reads `jsonwebtoken::errors::Error::kind` and names the variant found.
///
/// Trusted: nothing is claimed of the result; each arm gives the variant of
/// the same name, and kinds added to `jsonwebtoken` later come out as `Other`.
#[verifier::external_body]
fn error_kind(error: &jsonwebtoken::errors::Error) -> DecodeErrorKind {
    match error.kind() {
        ErrorKind::InvalidToken => DecodeErrorKind::InvalidToken, ErrorKind::InvalidSignature => DecodeErrorKind::InvalidSignature,
        ErrorKind::InvalidEcdsaKey => DecodeErrorKind::InvalidEcdsaKey, ErrorKind::InvalidRsaKey(_) => DecodeErrorKind::InvalidRsaKey,
        ErrorKind::RsaFailedSigning => DecodeErrorKind::RsaFailedSigning, ErrorKind::InvalidAlgorithmName => DecodeErrorKind::InvalidAlgorithmName,
        ErrorKind::InvalidKeyFormat => DecodeErrorKind::InvalidKeyFormat, ErrorKind::MissingRequiredClaim(_) => DecodeErrorKind::MissingRequiredClaim,
        ErrorKind::ExpiredSignature => DecodeErrorKind::ExpiredSignature, ErrorKind::InvalidIssuer => DecodeErrorKind::InvalidIssuer,
        ErrorKind::InvalidAudience => DecodeErrorKind::InvalidAudience, ErrorKind::InvalidSubject => DecodeErrorKind::InvalidSubject,
        ErrorKind::ImmatureSignature => DecodeErrorKind::ImmatureSignature, ErrorKind::InvalidAlgorithm => DecodeErrorKind::InvalidAlgorithm,
        ErrorKind::MissingAlgorithm => DecodeErrorKind::MissingAlgorithm, ErrorKind::Base64(_) => DecodeErrorKind::Base64,
        ErrorKind::Json(_) => DecodeErrorKind::Json, ErrorKind::Utf8(_) => DecodeErrorKind::Utf8,
        ErrorKind::Crypto(_) => DecodeErrorKind::Crypto,
        _ => DecodeErrorKind::Other,
    }
}

/// Renders a `jsonwebtoken::errors::Error` through its `Display` impl.
///
/// Trusted: nothing is claimed of the text.
#[verifier::external_body]
fn error_text(error: &jsonwebtoken::errors::Error) -> String {
    error.to_string()
}

} // verus!
