//! What can go wrong while loading a key or signing.
use vstd::prelude::*;

verus! {

/// Each kind calls for a different remedy from the caller.
#[derive(Debug, Clone, Copy, PartialEq, Eq, Structural)]
pub enum JwsError {
    /// The key bytes are not a parseable PEM private key.
    KeyFormatError,
    /// The private key is not an elliptic-curve key.
    NotEllipticCurveKey,
    /// The key failed its internal consistency check.
    KeyVerificationError,
    /// The key's curve is not P-521, the only curve of ES512.
    CurveMismatch,
    /// A signature scalar does not fit in its 66 bytes.
    OversizedScalar,
    /// The header could not be serialized to JSON.
    SerializationError,
    /// The digest or the ECDSA primitive reported a failure.
    SigningFailure,
}

impl JwsError {
    /// A message for the user that names the kind of failure.
    pub fn message(&self) -> (r: &'static str) {
        match self {
            JwsError::KeyFormatError => "Failed to parse the private key as PEM.",
            JwsError::NotEllipticCurveKey => "The private key must be an Elliptic Curve key.",
            JwsError::KeyVerificationError => "Key verification failed.",
            JwsError::CurveMismatch => "The underlying elliptic curve must be P-521 to sign using ES512.",
            JwsError::OversizedScalar => "A signature scalar is longer than 66 bytes.",
            JwsError::SerializationError => "Failed to serialize the JWS header as JSON.",
            JwsError::SigningFailure => "The ES512 signing primitive failed.",
        }
    }
}

} // verus!
