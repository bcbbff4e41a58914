use privacy_crypto::errors::CryptoError;

#[test]
fn every_error_has_its_message() {
    assert_eq!(CryptoError::InvalidPublicKey.message(), "Invalid public key");
    assert_eq!(CryptoError::InvalidSecretKey.message(), "Invalid secret key");
    assert_eq!(CryptoError::InvalidCiphertext.message(), "Invalid ciphertext");
    assert_eq!(CryptoError::DecryptionFailed.message(), "Decryption failed");
    assert_eq!(CryptoError::InvalidCurvePoint.message(), "Invalid point on curve");
    assert_eq!(CryptoError::SerializationError.message(), "Serialization error");
    assert_eq!(CryptoError::InvalidNullifierInput.message(), "Invalid nullifier input");
    assert_eq!(CryptoError::InvalidCommitmentInput.message(), "Invalid commitment input");
    assert_eq!(CryptoError::ArithmeticError.message(), "Arithmetic error");
}

#[test]
fn errors_compare_by_variant() {
    assert_eq!(CryptoError::DecryptionFailed, CryptoError::DecryptionFailed);
    assert_ne!(CryptoError::DecryptionFailed, CryptoError::InvalidCiphertext);
    let copy = CryptoError::ArithmeticError;
    let same = copy;
    assert_eq!(copy, same);
}
