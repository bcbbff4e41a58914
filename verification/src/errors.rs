//! Failure reasons shared by all operations of the crate.

use vstd::prelude::*;

verus! {

/// Why an operation was refused.
#[derive(Debug, Clone, Copy, PartialEq, Eq, Structural)]
pub enum CryptoError {
    InvalidPublicKey,
    InvalidSecretKey,
    InvalidCiphertext,
    DecryptionFailed,
    InvalidCurvePoint,
    SerializationError,
    InvalidNullifierInput,
    InvalidCommitmentInput,
    ArithmeticError,
}

impl CryptoError {
    /// The human readable text of each failure reason.
    pub open spec fn message_text(self) -> Seq<char> {
        match self {
            CryptoError::InvalidPublicKey => "Invalid public key"@,
            CryptoError::InvalidSecretKey => "Invalid secret key"@,
            CryptoError::InvalidCiphertext => "Invalid ciphertext"@,
            CryptoError::DecryptionFailed => "Decryption failed"@,
            CryptoError::InvalidCurvePoint => "Invalid point on curve"@,
            CryptoError::SerializationError => "Serialization error"@,
            CryptoError::InvalidNullifierInput => "Invalid nullifier input"@,
            CryptoError::InvalidCommitmentInput => "Invalid commitment input"@,
            CryptoError::ArithmeticError => "Arithmetic error"@,
        }
    }

    /// Renders the failure reason as text.
    pub fn message(&self) -> (text: String)
        ensures
            text@ == self.message_text(),
    {
        match self {
            CryptoError::InvalidPublicKey => "Invalid public key".to_string(),
            CryptoError::InvalidSecretKey => "Invalid secret key".to_string(),
            CryptoError::InvalidCiphertext => "Invalid ciphertext".to_string(),
            CryptoError::DecryptionFailed => "Decryption failed".to_string(),
            CryptoError::InvalidCurvePoint => "Invalid point on curve".to_string(),
            CryptoError::SerializationError => "Serialization error".to_string(),
            CryptoError::InvalidNullifierInput => "Invalid nullifier input".to_string(),
            CryptoError::InvalidCommitmentInput => "Invalid commitment input".to_string(),
            CryptoError::ArithmeticError => "Arithmetic error".to_string(),
        }
    }
}

} // verus!
