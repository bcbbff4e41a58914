use curve25519_dalek::constants::{RISTRETTO_BASEPOINT_COMPRESSED, RISTRETTO_BASEPOINT_POINT};
use curve25519_dalek::ristretto::CompressedRistretto;
use curve25519_dalek::scalar::Scalar;
use privacy_crypto::elgamal::{
    discrete_log_search, ElGamalCiphertext, ElGamalKeypair, ElGamalPublicKey, ElGamalSecretKey,
    DECRYPTION_BOUND,
};
use privacy_crypto::group::Point;
use privacy_crypto::CryptoError;
use rand::{thread_rng, RngCore};

fn random_keypair() -> ElGamalKeypair {
    let mut rng = thread_rng();
    let mut random_bytes = [0u8; 64];
    rng.fill_bytes(&mut random_bytes);
    ElGamalKeypair::generate(&random_bytes)
}

fn fixed_keypair() -> ElGamalKeypair {
    ElGamalKeypair::from_secret(ElGamalSecretKey::from_bytes([0x5au8; 32]))
}

#[test]
fn test_keygen() {
    let keypair = random_keypair();

    // Public key should be valid
    assert!(keypair.public.as_point().is_ok());
}

#[test]
fn test_encryption_decryption() {
    let mut rng = thread_rng();
    let keypair = random_keypair();

    let message = 42u64;
    let randomness = rand::Rng::gen(&mut rng);
    let ciphertext = keypair.public.encrypt_with_randomness(message, &randomness).unwrap();
    let decrypted = keypair.secret.decrypt(&ciphertext).unwrap();

    assert_eq!(message, decrypted);
}

#[test]
fn test_homomorphic_addition() {
    let mut rng = thread_rng();
    let keypair = random_keypair();

    let m1 = 10u64;
    let m2 = 32u64;

    let r1 = rand::Rng::gen(&mut rng);
    let r2 = rand::Rng::gen(&mut rng);
    let c1 = keypair.public.encrypt_with_randomness(m1, &r1).unwrap();
    let c2 = keypair.public.encrypt_with_randomness(m2, &r2).unwrap();

    let c_sum = c1.add(&c2).unwrap();
    let decrypted_sum = keypair.secret.decrypt(&c_sum).unwrap();

    assert_eq!(m1 + m2, decrypted_sum);
}

#[test]
fn test_scalar_multiplication() {
    let mut rng = thread_rng();
    let keypair = random_keypair();

    let message = 5u64;
    let scalar = 3u64;

    let randomness = rand::Rng::gen(&mut rng);
    let ciphertext = keypair.public.encrypt_with_randomness(message, &randomness).unwrap();
    let c_mul = ciphertext.mul_scalar(scalar).unwrap();
    let decrypted = keypair.secret.decrypt(&c_mul).unwrap();

    assert_eq!(message * scalar, decrypted);
}

#[test]
fn test_serialization() {
    let keypair = random_keypair();

    // Test borsh serialization
    let serialized = borsh::to_vec(&keypair.public.to_bytes()).unwrap();
    let bytes: [u8; 32] = borsh::from_slice(&serialized).unwrap();
    let deserialized = ElGamalPublicKey::from_bytes(bytes).unwrap();

    assert_eq!(keypair.public, deserialized);
}

#[test]
fn generate_reduces_the_random_bytes_to_the_secret_scalar() {
    let mut random_bytes = [0u8; 64];
    for (i, byte) in random_bytes.iter_mut().enumerate() {
        *byte = (i as u8).wrapping_mul(37).wrapping_add(11);
    }
    let keypair = ElGamalKeypair::generate(&random_bytes);
    let scalar = Scalar::from_bytes_mod_order_wide(&random_bytes);
    assert_eq!(keypair.secret.scalar, scalar.to_bytes());
    assert_eq!(keypair.public.point, (scalar * RISTRETTO_BASEPOINT_POINT).compress().to_bytes());
}

#[test]
fn from_secret_derives_the_public_point() {
    let one = {
        let mut bytes = [0u8; 32];
        bytes[0] = 1;
        bytes
    };
    let keypair = ElGamalKeypair::from_secret(ElGamalSecretKey::from_bytes(one));
    assert_eq!(keypair.public.point, RISTRETTO_BASEPOINT_COMPRESSED.to_bytes());
    assert_eq!(keypair.secret.scalar, one);

    let unreduced = [0xffu8; 32];
    let keypair = ElGamalKeypair::from_secret(ElGamalSecretKey::from_bytes(unreduced));
    let scalar = Scalar::from_bytes_mod_order(unreduced);
    assert_eq!(keypair.public.point, (scalar * RISTRETTO_BASEPOINT_POINT).compress().to_bytes());
    assert_eq!(keypair.secret.scalar, unreduced);
}

#[test]
fn secret_key_keeps_its_bytes() {
    let key = ElGamalSecretKey::from_bytes([0xabu8; 32]);
    assert_eq!(key.scalar, [0xabu8; 32]);
    assert_eq!(key.as_scalar().to_bytes(), Scalar::from_bytes_mod_order([0xabu8; 32]).to_bytes());
}

#[test]
fn public_key_from_bytes_accepts_points_only() {
    let base = RISTRETTO_BASEPOINT_COMPRESSED.to_bytes();
    assert_eq!(ElGamalPublicKey::from_bytes(base), Ok(ElGamalPublicKey { point: base }));
    assert_eq!(ElGamalPublicKey::from_bytes([0u8; 32]), Ok(ElGamalPublicKey { point: [0u8; 32] }));
    assert_eq!(ElGamalPublicKey::from_bytes([0xffu8; 32]), Err(CryptoError::InvalidPublicKey));
    let mut negative = [0u8; 32];
    negative[0] = 1;
    assert_eq!(ElGamalPublicKey::from_bytes(negative), Err(CryptoError::InvalidPublicKey));
}

#[test]
fn as_point_refuses_an_invalid_key() {
    let invalid = ElGamalPublicKey { point: [0xffu8; 32] };
    assert_eq!(invalid.as_point().err(), Some(CryptoError::InvalidPublicKey));
    let valid = fixed_keypair().public;
    assert_eq!(valid.as_point().unwrap().compress(), valid.point);
}

#[test]
fn encrypt_refuses_an_invalid_key() {
    let invalid = ElGamalPublicKey { point: [0xffu8; 32] };
    assert_eq!(
        invalid.encrypt_with_randomness(1, &[3u8; 32]),
        Err(CryptoError::InvalidPublicKey)
    );
}

#[test]
fn encrypt_computes_both_components() {
    let keypair = fixed_keypair();
    let randomness = [0xc3u8; 32];
    let message = 77u64;
    let ciphertext = keypair.public.encrypt_with_randomness(message, &randomness).unwrap();

    let r = Scalar::from_bytes_mod_order(randomness);
    let y = CompressedRistretto(keypair.public.point).decompress().unwrap();
    let c1 = r * RISTRETTO_BASEPOINT_POINT;
    let c2 = Scalar::from(message) * RISTRETTO_BASEPOINT_POINT + r * y;
    assert_eq!(ciphertext.c1, c1.compress().to_bytes());
    assert_eq!(ciphertext.c2, c2.compress().to_bytes());
}

#[test]
fn encrypt_is_deterministic_in_its_randomness() {
    let keypair = fixed_keypair();
    let a = keypair.public.encrypt_with_randomness(9, &[1u8; 32]).unwrap();
    let b = keypair.public.encrypt_with_randomness(9, &[1u8; 32]).unwrap();
    let c = keypair.public.encrypt_with_randomness(9, &[2u8; 32]).unwrap();
    assert_eq!(a, b);
    assert_ne!(a, c);
}

#[test]
fn round_trip_over_the_range() {
    let keypair = fixed_keypair();
    for message in [0u64, 1, 2, 41, 42, 255, 256, 1000, 9998, 9999] {
        let mut randomness = [0x11u8; 32];
        randomness[0] = message as u8;
        let ciphertext = keypair.public.encrypt_with_randomness(message, &randomness).unwrap();
        assert_eq!(keypair.secret.decrypt(&ciphertext), Ok(message));
    }
}

#[test]
fn decrypt_fails_at_the_bound() {
    assert_eq!(DECRYPTION_BOUND, 10000);
    let keypair = fixed_keypair();
    let at_bound = keypair.public.encrypt_with_randomness(10000, &[4u8; 32]).unwrap();
    assert_eq!(keypair.secret.decrypt(&at_bound), Err(CryptoError::DecryptionFailed));
}

#[test]
fn decrypt_fails_far_above_the_bound() {
    let keypair = fixed_keypair();
    let large = keypair.public.encrypt_with_randomness(u64::MAX, &[4u8; 32]).unwrap();
    assert_eq!(keypair.secret.decrypt(&large), Err(CryptoError::DecryptionFailed));
}

#[test]
fn decrypt_with_another_key_does_not_recover_the_message() {
    let keypair = fixed_keypair();
    let other = ElGamalKeypair::from_secret(ElGamalSecretKey::from_bytes([0x77u8; 32]));
    let ciphertext = keypair.public.encrypt_with_randomness(5, &[6u8; 32]).unwrap();
    assert_ne!(other.secret.decrypt(&ciphertext), Ok(5));
}

#[test]
fn decrypt_refuses_invalid_components() {
    let keypair = fixed_keypair();
    let good = keypair.public.encrypt_with_randomness(1, &[8u8; 32]).unwrap();
    let bad_first = ElGamalCiphertext { c1: [0xffu8; 32], c2: good.c2 };
    let bad_second = ElGamalCiphertext { c1: good.c1, c2: [0xffu8; 32] };
    assert_eq!(keypair.secret.decrypt(&bad_first), Err(CryptoError::InvalidCiphertext));
    assert_eq!(keypair.secret.decrypt(&bad_second), Err(CryptoError::InvalidCiphertext));
}

#[test]
fn sum_at_the_bound_fails_to_decrypt() {
    let keypair = fixed_keypair();
    let a = keypair.public.encrypt_with_randomness(6000, &[1u8; 32]).unwrap();
    let b = keypair.public.encrypt_with_randomness(3999, &[2u8; 32]).unwrap();
    let c = keypair.public.encrypt_with_randomness(4000, &[3u8; 32]).unwrap();
    assert_eq!(keypair.secret.decrypt(&a.add(&b).unwrap()), Ok(9999));
    assert_eq!(keypair.secret.decrypt(&a.add(&c).unwrap()), Err(CryptoError::DecryptionFailed));
}

#[test]
fn addition_is_componentwise() {
    let keypair = fixed_keypair();
    let a = keypair.public.encrypt_with_randomness(3, &[1u8; 32]).unwrap();
    let b = keypair.public.encrypt_with_randomness(4, &[2u8; 32]).unwrap();
    let sum = a.add(&b).unwrap();
    let point = |bytes: [u8; 32]| CompressedRistretto(bytes).decompress().unwrap();
    assert_eq!(sum.c1, (point(a.c1) + point(b.c1)).compress().to_bytes());
    assert_eq!(sum.c2, (point(a.c2) + point(b.c2)).compress().to_bytes());
}

#[test]
fn addition_is_commutative_and_associative() {
    let keypair = fixed_keypair();
    let a = keypair.public.encrypt_with_randomness(3, &[1u8; 32]).unwrap();
    let b = keypair.public.encrypt_with_randomness(4, &[2u8; 32]).unwrap();
    let c = keypair.public.encrypt_with_randomness(5, &[3u8; 32]).unwrap();
    assert_eq!(a.add(&b).unwrap(), b.add(&a).unwrap());
    assert_eq!(a.add(&b).unwrap().add(&c).unwrap(), a.add(&b.add(&c).unwrap()).unwrap());
}

#[test]
fn addition_refuses_invalid_components() {
    let keypair = fixed_keypair();
    let good = keypair.public.encrypt_with_randomness(1, &[8u8; 32]).unwrap();
    let invalid = [0xffu8; 32];
    let broken = [
        ElGamalCiphertext { c1: invalid, c2: good.c2 },
        ElGamalCiphertext { c1: good.c1, c2: invalid },
    ];
    for bad in broken {
        assert_eq!(bad.add(&good), Err(CryptoError::InvalidCiphertext));
        assert_eq!(good.add(&bad), Err(CryptoError::InvalidCiphertext));
    }
}

#[test]
fn scalar_multiplication_is_componentwise() {
    let keypair = fixed_keypair();
    let a = keypair.public.encrypt_with_randomness(3, &[1u8; 32]).unwrap();
    let product = a.mul_scalar(1234).unwrap();
    let point = |bytes: [u8; 32]| CompressedRistretto(bytes).decompress().unwrap();
    let factor = Scalar::from(1234u64);
    assert_eq!(product.c1, (factor * point(a.c1)).compress().to_bytes());
    assert_eq!(product.c2, (factor * point(a.c2)).compress().to_bytes());
    assert_ne!(product, a);
    assert_eq!(keypair.secret.decrypt(&product), Ok(3702));
}

#[test]
fn scalar_multiplication_by_one_and_zero() {
    let keypair = fixed_keypair();
    let a = keypair.public.encrypt_with_randomness(17, &[1u8; 32]).unwrap();
    assert_eq!(a.mul_scalar(1).unwrap(), a);
    let zero = a.mul_scalar(0).unwrap();
    assert_eq!(zero, ElGamalCiphertext { c1: [0u8; 32], c2: [0u8; 32] });
    assert_eq!(keypair.secret.decrypt(&zero), Ok(0));
}

#[test]
fn scalar_multiplication_beyond_the_bound_fails_to_decrypt() {
    let keypair = fixed_keypair();
    let a = keypair.public.encrypt_with_randomness(100, &[1u8; 32]).unwrap();
    assert_eq!(keypair.secret.decrypt(&a.mul_scalar(99).unwrap()), Ok(9900));
    assert_eq!(
        keypair.secret.decrypt(&a.mul_scalar(100).unwrap()),
        Err(CryptoError::DecryptionFailed)
    );
}

#[test]
fn scalar_multiplication_refuses_invalid_components() {
    let keypair = fixed_keypair();
    let good = keypair.public.encrypt_with_randomness(1, &[8u8; 32]).unwrap();
    let bad_first = ElGamalCiphertext { c1: [0xffu8; 32], c2: good.c2 };
    let bad_second = ElGamalCiphertext { c1: good.c1, c2: [0xffu8; 32] };
    assert_eq!(bad_first.mul_scalar(2), Err(CryptoError::InvalidCiphertext));
    assert_eq!(bad_second.mul_scalar(2), Err(CryptoError::InvalidCiphertext));
}

#[test]
fn ciphertext_bytes_round_trip() {
    let keypair = fixed_keypair();
    let ciphertext = keypair.public.encrypt_with_randomness(12, &[9u8; 32]).unwrap();
    let bytes = ciphertext.to_bytes();
    assert_eq!(&bytes[..32], &ciphertext.c1[..]);
    assert_eq!(&bytes[32..], &ciphertext.c2[..]);
    assert_eq!(ElGamalCiphertext::from_bytes(&bytes), Ok(ciphertext));
}

#[test]
fn ciphertext_from_bytes_refuses_invalid_halves() {
    let keypair = fixed_keypair();
    let ciphertext = keypair.public.encrypt_with_randomness(12, &[9u8; 32]).unwrap();
    let mut first_bad = ciphertext.to_bytes();
    first_bad[..32].copy_from_slice(&[0xffu8; 32]);
    let mut second_bad = ciphertext.to_bytes();
    second_bad[32..].copy_from_slice(&[0xffu8; 32]);
    assert_eq!(ElGamalCiphertext::from_bytes(&first_bad), Err(CryptoError::InvalidCiphertext));
    assert_eq!(ElGamalCiphertext::from_bytes(&second_bad), Err(CryptoError::InvalidCiphertext));
    assert_eq!(ElGamalCiphertext::from_bytes(&[0xffu8; 64]), Err(CryptoError::InvalidCiphertext));
}

#[test]
fn public_key_bytes_round_trip() {
    let key = fixed_keypair().public;
    assert_eq!(key.to_bytes(), key.point);
    assert_eq!(ElGamalPublicKey::from_bytes(key.to_bytes()), Ok(key));
}

#[test]
fn discrete_log_search_finds_the_first_match_below_the_bound() {
    let target = Point::decompress(&(Scalar::from(300u64) * RISTRETTO_BASEPOINT_POINT).compress().to_bytes())
        .unwrap();
    assert_eq!(discrete_log_search(&target, 301), Some(300));
    assert_eq!(discrete_log_search(&target, 300), None);
    assert_eq!(discrete_log_search(&target, 0), None);
    let identity = Point::decompress(&[0u8; 32]).unwrap();
    assert_eq!(discrete_log_search(&identity, 1), Some(0));
    assert_eq!(discrete_log_search(&identity, 0), None);
}

#[test]
fn decrypt_with_bound_searches_the_range_given() {
    let keypair = fixed_keypair();
    let ciphertext = keypair.public.encrypt_with_randomness(15_000, &[4u8; 32]).unwrap();
    assert_eq!(keypair.secret.decrypt(&ciphertext), Err(CryptoError::DecryptionFailed));
    assert_eq!(keypair.secret.decrypt_with_bound(&ciphertext, 15_000), Err(CryptoError::DecryptionFailed));
    assert_eq!(keypair.secret.decrypt_with_bound(&ciphertext, 15_001), Ok(15_000));

    let small = keypair.public.encrypt_with_randomness(3, &[5u8; 32]).unwrap();
    assert_eq!(keypair.secret.decrypt_with_bound(&small, 4), Ok(3));
    assert_eq!(keypair.secret.decrypt_with_bound(&small, 3), Err(CryptoError::DecryptionFailed));
    assert_eq!(keypair.secret.decrypt_with_bound(&small, 0), Err(CryptoError::DecryptionFailed));
    let invalid = ElGamalCiphertext { c1: [0xffu8; 32], c2: small.c2 };
    assert_eq!(keypair.secret.decrypt_with_bound(&invalid, 4), Err(CryptoError::InvalidCiphertext));
}
