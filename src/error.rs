//! The failure classes of the library.
use vstd::prelude::*;

verus! {

/// Why an operation of the library failed.
#[derive(Clone, Copy, Debug, PartialEq, Eq, Structural)]
pub enum FederationError {
    /// The key pair of a new user could not be generated or encoded.
    KeyGenerationFailed,
    /// Stored public key material could not be re-encoded as PEM.
    KeyEncodingFailed,
    /// The private key could not be read or the signature could not be made.
    SigningFailed,
}

impl FederationError {
    /// A short description of the failure.
    pub fn message(&self) -> (r: &'static str)
        ensures
            r@ == match self {
                FederationError::KeyGenerationFailed => "key generation failed"@,
                FederationError::KeyEncodingFailed => "key encoding failed"@,
                FederationError::SigningFailed => "signing failed"@,
            },
    {
        match self {
            FederationError::KeyGenerationFailed => "key generation failed",
            FederationError::KeyEncodingFailed => "key encoding failed",
            FederationError::SigningFailed => "signing failed",
        }
    }
}

} // verus!
