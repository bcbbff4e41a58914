//! What holds of encryption, decryption and the homomorphic operations
//! together.
//!
//! Ciphertexts appear here as values that satisfy what the operations
//! promise of their results, so each statement holds of every ciphertext
//! that the operations can return.

use crate::bytes::le_value;
use crate::elgamal::{ElGamalCiphertext, ElGamalKeypair, ElGamalPublicKey, DECRYPTION_BOUND};
use crate::errors::CryptoError;
use crate::group::{discrete_log, group_order};
use crate::modular::{
    congruent, lemma_congruent_add, lemma_congruent_mul, lemma_congruent_sub,
    lemma_residue_congruent, lemma_small_residue,
};
use vstd::prelude::*;

verus! {

/// The secret key of a consistent keypair unmasks every encryption under the
/// public key: `c2 - x * c1` is the message times the base point, the message
/// taken modulo the group order.
pub proof fn lemma_unmasking_recovers_message(
    keypair: ElGamalKeypair,
    ciphertext: ElGamalCiphertext,
    message: nat,
    randomness: nat,
)
    requires
        keypair.is_consistent(),
        ciphertext.is_encryption(keypair.public, message, randomness),
    ensures
        ciphertext.is_valid(),
        ciphertext.masked_log(keypair.secret.scalar_value()) == message % group_order(),
{
    let order: int = group_order() as int;
    let x: int = keypair.secret.scalar_value() as int;
    let r: int = randomness as int;
    let m: int = message as int;
    assert(keypair.public.log() == x);
    lemma_residue_congruent(m + r * x);
    lemma_residue_congruent(r);
    lemma_congruent_mul(x, x, r % order, r);
    lemma_congruent_sub((m + r * x) % order, m + r * x, x * (r % order), x * r);
    assert((m + r * x) - x * r == m) by (nonlinear_arith);
}

/// Decryption of an encryption yields the message if it lies below the
/// bound, and fails with `DecryptionFailed` if it does not.
pub proof fn lemma_decryption_of_encryption(
    keypair: ElGamalKeypair,
    ciphertext: ElGamalCiphertext,
    message: nat,
    randomness: nat,
)
    requires
        keypair.is_consistent(),
        ciphertext.is_encryption(keypair.public, message, randomness),
        message < group_order(),
    ensures
        keypair.secret.decryption(ciphertext) == if message < DECRYPTION_BOUND {
            Ok::<u64, CryptoError>(message as u64)
        } else {
            Err::<u64, CryptoError>(CryptoError::DecryptionFailed)
        },
{
    lemma_unmasking_recovers_message(keypair, ciphertext, message, randomness);
    lemma_small_residue(message);
}

/// Round trip: decrypting the encryption of a message below the bound gives
/// the message back, whatever the randomness.
pub proof fn lemma_decrypt_inverts_encrypt(
    keypair: ElGamalKeypair,
    ciphertext: ElGamalCiphertext,
    message: u64,
    randomness: Seq<u8>,
)
    requires
        keypair.is_consistent(),
        ciphertext.is_encryption(keypair.public, message as nat, le_value(randomness)),
        message < DECRYPTION_BOUND,
    ensures
        keypair.secret.decryption(ciphertext) == Ok::<u64, CryptoError>(message),
{
    lemma_decryption_of_encryption(keypair, ciphertext, message as nat, le_value(randomness));
}

/// Boundary: decrypting the encryption of a message at or above the bound
/// fails with `DecryptionFailed`.
pub proof fn lemma_decrypt_fails_from_bound(
    keypair: ElGamalKeypair,
    ciphertext: ElGamalCiphertext,
    message: u64,
    randomness: Seq<u8>,
)
    requires
        keypair.is_consistent(),
        ciphertext.is_encryption(keypair.public, message as nat, le_value(randomness)),
        message >= DECRYPTION_BOUND,
    ensures
        keypair.secret.decryption(ciphertext) == Err::<u64, CryptoError>(
            CryptoError::DecryptionFailed,
        ),
{
    lemma_decryption_of_encryption(keypair, ciphertext, message as nat, le_value(randomness));
}

/// The sum of two encryptions under one key is an encryption of the sum of
/// the messages, with the sum of the randomness.
pub proof fn lemma_sum_encrypts_sum(
    key: ElGamalPublicKey,
    a: ElGamalCiphertext,
    b: ElGamalCiphertext,
    sum: ElGamalCiphertext,
    message_a: nat,
    randomness_a: nat,
    message_b: nat,
    randomness_b: nat,
)
    requires
        a.is_encryption(key, message_a, randomness_a),
        b.is_encryption(key, message_b, randomness_b),
        sum.is_sum_of(a, b),
    ensures
        sum.is_encryption(key, message_a + message_b, randomness_a + randomness_b),
{
    let order: int = group_order() as int;
    let y: int = key.log() as int;
    let ra: int = randomness_a as int;
    let rb: int = randomness_b as int;
    let ma: int = message_a as int;
    let mb: int = message_b as int;
    lemma_residue_congruent(ra);
    lemma_residue_congruent(rb);
    lemma_congruent_add(ra % order, ra, rb % order, rb);
    lemma_residue_congruent(ma + ra * y);
    lemma_residue_congruent(mb + rb * y);
    lemma_congruent_add((ma + ra * y) % order, ma + ra * y, (mb + rb * y) % order, mb + rb * y);
    assert((ma + ra * y) + (mb + rb * y) == (ma + mb) + (ra + rb) * y) by (nonlinear_arith);
}

/// Homomorphism: the sum of the encryptions of two messages decrypts to the
/// sum of the messages, as long as that sum lies below the bound.
pub proof fn lemma_decrypt_of_sum(
    keypair: ElGamalKeypair,
    a: ElGamalCiphertext,
    b: ElGamalCiphertext,
    sum: ElGamalCiphertext,
    message_a: u64,
    randomness_a: Seq<u8>,
    message_b: u64,
    randomness_b: Seq<u8>,
)
    requires
        keypair.is_consistent(),
        a.is_encryption(keypair.public, message_a as nat, le_value(randomness_a)),
        b.is_encryption(keypair.public, message_b as nat, le_value(randomness_b)),
        sum.is_sum_of(a, b),
        message_a + message_b < DECRYPTION_BOUND,
    ensures
        keypair.secret.decryption(sum) == Ok::<u64, CryptoError>((message_a + message_b) as u64),
{
    lemma_sum_encrypts_sum(
        keypair.public,
        a,
        b,
        sum,
        message_a as nat,
        le_value(randomness_a),
        message_b as nat,
        le_value(randomness_b),
    );
    lemma_decryption_of_encryption(
        keypair,
        sum,
        (message_a + message_b) as nat,
        le_value(randomness_a) + le_value(randomness_b),
    );
}

/// A multiple of an encryption is an encryption of the multiple of the
/// message, with the multiple of the randomness.
pub proof fn lemma_multiple_encrypts_multiple(
    key: ElGamalPublicKey,
    a: ElGamalCiphertext,
    product: ElGamalCiphertext,
    message: nat,
    randomness: nat,
    factor: nat,
)
    requires
        a.is_encryption(key, message, randomness),
        product.is_multiple_of(a, factor),
    ensures
        product.is_encryption(key, message * factor, randomness * factor),
{
    let order: int = group_order() as int;
    let y: int = key.log() as int;
    let r: int = randomness as int;
    let m: int = message as int;
    let k: int = factor as int;
    lemma_residue_congruent(r);
    lemma_congruent_mul(k, k, r % order, r);
    assert(k * r == r * k) by (nonlinear_arith);
    lemma_residue_congruent(m + r * y);
    lemma_congruent_mul(k, k, (m + r * y) % order, m + r * y);
    assert(k * (m + r * y) == m * k + (r * k) * y) by (nonlinear_arith);
}

/// Scalar multiplication: the encryption of a message, multiplied by a
/// factor, decrypts to the message times the factor, as long as that product
/// lies below the bound.
pub proof fn lemma_decrypt_of_multiple(
    keypair: ElGamalKeypair,
    a: ElGamalCiphertext,
    product: ElGamalCiphertext,
    message: u64,
    randomness: Seq<u8>,
    factor: u64,
)
    requires
        keypair.is_consistent(),
        a.is_encryption(keypair.public, message as nat, le_value(randomness)),
        product.is_multiple_of(a, factor as nat),
        message * factor < DECRYPTION_BOUND,
    ensures
        keypair.secret.decryption(product) == Ok::<u64, CryptoError>((message * factor) as u64),
{
    lemma_multiple_encrypts_multiple(
        keypair.public,
        a,
        product,
        message as nat,
        le_value(randomness),
        factor as nat,
    );
    lemma_decryption_of_encryption(
        keypair,
        product,
        (message * factor) as nat,
        le_value(randomness) * (factor as nat),
    );
}

/// Addition of ciphertexts is commutative.
pub proof fn lemma_sum_commutative(
    a: ElGamalCiphertext,
    b: ElGamalCiphertext,
    ab: ElGamalCiphertext,
    ba: ElGamalCiphertext,
)
    requires
        ab.is_sum_of(a, b),
        ba.is_sum_of(b, a),
    ensures
        ab == ba,
{
    assert(ab.c1@ =~= ba.c1@);
    assert(ab.c2@ =~= ba.c2@);
    assert(ab.c1 =~= ba.c1);
    assert(ab.c2 =~= ba.c2);
}

/// Addition of ciphertexts is associative.
pub proof fn lemma_sum_associative(
    a: ElGamalCiphertext,
    b: ElGamalCiphertext,
    c: ElGamalCiphertext,
    ab: ElGamalCiphertext,
    bc: ElGamalCiphertext,
    left: ElGamalCiphertext,
    right: ElGamalCiphertext,
)
    requires
        ab.is_sum_of(a, b),
        bc.is_sum_of(b, c),
        left.is_sum_of(ab, c),
        right.is_sum_of(a, bc),
    ensures
        left == right,
{
    lemma_sum_of_sums(a.c1@, b.c1@, c.c1@);
    lemma_sum_of_sums(a.c2@, b.c2@, c.c2@);
    assert(left.c1@ =~= right.c1@);
    assert(left.c2@ =~= right.c2@);
    assert(left.c1 =~= right.c1);
    assert(left.c2 =~= right.c2);
}

proof fn lemma_sum_of_sums(a: Seq<u8>, b: Seq<u8>, c: Seq<u8>)
    ensures
        ((discrete_log(a) + discrete_log(b)) % group_order()
            + discrete_log(c)) % group_order() == (discrete_log(a) + (
        discrete_log(b) + discrete_log(c)) % group_order())
            % group_order(),
{
    let order: int = group_order() as int;
    let x: int = discrete_log(a) as int;
    let y: int = discrete_log(b) as int;
    let z: int = discrete_log(c) as int;
    lemma_residue_congruent(x + y);
    lemma_residue_congruent(y + z);
    lemma_congruent_add((x + y) % order, x + y, z, z);
    lemma_congruent_add(x, x, (y + z) % order, y + z);
    assert(congruent((x + y) % order + z, x + (y + z) % order));
}

/// Serialization round trip of a public key: the bytes of a valid key are
/// accepted as that key.
pub proof fn lemma_public_key_round_trip(
    key: ElGamalPublicKey,
    parsed: Result<ElGamalPublicKey, CryptoError>,
)
    requires
        key.is_valid(),
        ElGamalPublicKey::is_parse_of(parsed, key.point),
    ensures
        parsed == Ok::<ElGamalPublicKey, CryptoError>(key),
{
}

/// Serialization round trip of a ciphertext: decoding the encoding of a
/// valid ciphertext gives the ciphertext back.
pub proof fn lemma_ciphertext_round_trip(
    ciphertext: ElGamalCiphertext,
    decoded: Result<ElGamalCiphertext, CryptoError>,
)
    requires
        ciphertext.is_valid(),
        ElGamalCiphertext::is_decoding_of(decoded, ciphertext.encoding()),
    ensures
        decoded == Ok::<ElGamalCiphertext, CryptoError>(ciphertext),
{
    let bytes = ciphertext.encoding();
    assert(bytes.subrange(0, 32) =~= ciphertext.c1@);
    assert(bytes.subrange(32, 64) =~= ciphertext.c2@);
    let other = decoded->Ok_0;
    assert(other.encoding().subrange(0, 32) =~= other.c1@);
    assert(other.encoding().subrange(32, 64) =~= other.c2@);
    assert(other.c1 =~= ciphertext.c1);
    assert(other.c2 =~= ciphertext.c2);
}

} // verus!
