//! Additively homomorphic ElGamal encryption over the Ristretto group.
//!
//! A message `m` is encrypted under the public key `Y = x * B` with a scalar
//! `r` as the pair `(r * B, m * B + r * Y)`. The message sits in the exponent,
//! so ciphertexts can be added and scaled without the secret key, and
//! decryption has to find `m` from `m * B` by search over a bounded range.

use crate::bytes::le_value;
use crate::errors::CryptoError;
use crate::group::{discrete_log, encodes, group_order, is_point_encoding, Point, Scalar};
use crate::modular::{
    lemma_congruent_add, lemma_congruent_mul, lemma_congruent_sub, lemma_residue_congruent,
    lemma_small_residue,
};
use vstd::prelude::*;

verus! {

/// Decryption recovers the plaintexts `0 .. DECRYPTION_BOUND` and no others.
pub const DECRYPTION_BOUND: u64 = 10000;

/// A public key: the encoding of the group element `x * B` for the secret
/// scalar `x`.
#[derive(Debug, Clone, Copy, PartialEq, Eq)]
pub struct ElGamalPublicKey {
    /// Compressed Ristretto point.
    pub point: [u8; 32],
}

/// A secret key: 32 bytes that denote the scalar once reduced modulo the
/// group order.
#[derive(Debug, Clone)]
pub struct ElGamalSecretKey {
    /// Little-endian scalar bytes, not necessarily reduced.
    pub scalar: [u8; 32],
}

/// A secret key together with its public key.
#[derive(Debug, Clone)]
pub struct ElGamalKeypair {
    pub public: ElGamalPublicKey,
    pub secret: ElGamalSecretKey,
}

/// A ciphertext: the encodings of the two group elements `(c1, c2)`.
#[derive(Debug, Clone, Copy, PartialEq, Eq)]
pub struct ElGamalCiphertext {
    /// Compressed Ristretto point `r * B`.
    pub c1: [u8; 32],
    /// Compressed Ristretto point `m * B + r * Y`.
    pub c2: [u8; 32],
}

impl ElGamalPublicKey {
    /// The key holds the encoding of a group element.
    pub open spec fn is_valid(self) -> bool {
        is_point_encoding(self.point@)
    }

    /// The multiple of the base point that the key is: the secret scalar.
    pub open spec fn log(self) -> nat {
        discrete_log(self.point@)
    }

    /// What parsing `bytes` as a public key yields: the key that holds the
    /// bytes, if they encode a group element, and `InvalidPublicKey` if they
    /// do not.
    pub open spec fn is_parse_of(parsed: Result<ElGamalPublicKey, CryptoError>, bytes: [u8; 32]) -> bool {
        match parsed {
            Ok(key) => is_point_encoding(bytes@) && key.point == bytes,
            Err(e) => !is_point_encoding(bytes@) && e == CryptoError::InvalidPublicKey,
        }
    }

    /// Accepts 32 bytes as a public key if they encode a group element.
    pub fn from_bytes(bytes: [u8; 32]) -> (parsed: Result<Self, CryptoError>)
        ensures
            Self::is_parse_of(parsed, bytes),
    {
        match Point::decompress(&bytes) {
            Ok(_) => Ok(ElGamalPublicKey { point: bytes }),
            Err(_) => Err(CryptoError::InvalidPublicKey),
        }
    }

    /// The 32 bytes of the key: what `from_bytes` accepts.
    pub fn to_bytes(&self) -> (bytes: [u8; 32])
        ensures
            bytes == self.point,
    {
        self.point
    }

    /// The group element that the key holds, if it holds one.
    pub fn as_point(&self) -> (decoded: Result<Point, CryptoError>)
        ensures
            match decoded {
                Ok(point) => self.is_valid() && point.encoding() == self.point@,
                Err(e) => !self.is_valid() && e == CryptoError::InvalidPublicKey,
            },
    {
        match Point::decompress(&self.point) {
            Ok(point) => Ok(point),
            Err(_) => Err(CryptoError::InvalidPublicKey),
        }
    }

    /// Encrypts `message` with the randomness given: `c1 = r * B` and
    /// `c2 = message * B + r * Y`, where `r` is `randomness` reduced modulo
    /// the group order and `Y` is the key.
    ///
    /// The randomness must be fresh for every encryption under one key.
    pub fn encrypt_with_randomness(&self, message: u64, randomness: &[u8; 32]) -> (encrypted:
        Result<ElGamalCiphertext, CryptoError>)
        ensures
            match encrypted {
                Ok(ciphertext) => self.is_valid() && ciphertext.is_encryption(
                    *self,
                    message as nat,
                    le_value(randomness@),
                ),
                Err(e) => !self.is_valid() && e == CryptoError::InvalidPublicKey,
            },
    {
        let public_point = match self.as_point() {
            Ok(point) => point,
            Err(e) => {
                return Err(e);
            },
        };
        let r = Scalar::from_bytes_mod_order(*randomness);
        let m_scalar = Scalar::from_u64(message);
        let c1_point = Point::mul_base(&r);
        let m_point = Point::mul_base(&m_scalar);
        let shared = public_point.mul(&r);
        let c2_point = m_point.add(&shared);
        proof {
            let order: int = group_order() as int;
            let big_r: int = le_value(randomness@) as int;
            let y: int = self.log() as int;
            lemma_residue_congruent(big_r);
            lemma_congruent_mul(big_r % order, big_r, y, y);
            lemma_residue_congruent((big_r % order) * y);
            lemma_congruent_add(
                message as int,
                message as int,
                ((big_r % order) * y) % order,
                big_r * y,
            );
        }
        Ok(ElGamalCiphertext { c1: c1_point.compress(), c2: c2_point.compress() })
    }
}

impl ElGamalCiphertext {
    /// Both components encode group elements.
    pub open spec fn is_valid(self) -> bool {
        is_point_encoding(self.c1@) && is_point_encoding(self.c2@)
    }

    /// The ciphertext is what encrypting `message` under `key` with the
    /// scalar `randomness` yields: `c1` is `r * B` and `c2` is
    /// `(message + r * y) * B`, where `y * B` is the key, all multiples taken
    /// modulo the group order.
    pub open spec fn is_encryption(self, key: ElGamalPublicKey, message: nat, randomness: nat) -> bool {
        &&& encodes(self.c1@, randomness % group_order())
        &&& encodes(self.c2@, (message + randomness * key.log()) % group_order())
    }

    /// The multiple of the base point that `c2 - secret * c1` is.
    pub open spec fn masked_log(self, secret: nat) -> nat {
        ((discrete_log(self.c2@) - secret * discrete_log(self.c1@)) % (group_order() as int)) as nat
    }
}

/// Searches `0 .. bound` for the multiple of the base point that `target` is,
/// trying the candidates in increasing order.
pub fn discrete_log_search(target: &Point, bound: u64) -> (found: Option<u64>)
    ensures
        found == if target.log() < bound {
            Some(target.log() as u64)
        } else {
            None
        },
{
    let mut i: u64 = 0;
    while i < bound
        invariant
            i <= bound,
            i <= target.log(),
        decreases bound - i,
    {
        let candidate = Point::mul_base(&Scalar::from_u64(i));
        if candidate.equals(target) {
            return Some(i);
        }
        i = i + 1;
    }
    None
}

impl ElGamalSecretKey {
    /// The scalar that the key denotes: its bytes as a little-endian number,
    /// reduced modulo the group order.
    pub open spec fn scalar_value(self) -> nat {
        le_value(self.scalar@) % group_order()
    }

    /// What decryption of `ciphertext` with this key yields when the
    /// plaintexts `0 .. bound` are searched.
    pub open spec fn decryption_within(self, ciphertext: ElGamalCiphertext, bound: u64) -> Result<
        u64,
        CryptoError,
    > {
        if !ciphertext.is_valid() {
            Err(CryptoError::InvalidCiphertext)
        } else if ciphertext.masked_log(self.scalar_value()) < bound {
            Ok(ciphertext.masked_log(self.scalar_value()) as u64)
        } else {
            Err(CryptoError::DecryptionFailed)
        }
    }

    /// What decryption of `ciphertext` with this key yields.
    pub open spec fn decryption(self, ciphertext: ElGamalCiphertext) -> Result<u64, CryptoError> {
        self.decryption_within(ciphertext, DECRYPTION_BOUND)
    }

    /// Takes 32 bytes as a secret key. Every input is accepted; the bytes are
    /// reduced modulo the group order when the key is used.
    pub fn from_bytes(bytes: [u8; 32]) -> (key: Self)
        ensures
            key.scalar == bytes,
    {
        ElGamalSecretKey { scalar: bytes }
    }

    /// The scalar that the key denotes.
    pub fn as_scalar(&self) -> (scalar: Scalar)
        ensures
            scalar.value() == self.scalar_value(),
    {
        Scalar::from_bytes_mod_order(self.scalar)
    }

    /// Decrypts a ciphertext: computes `c2 - x * c1` for the secret scalar
    /// `x` and searches `0 .. bound` for the plaintext `m` with `m * B` equal
    /// to it. The bound has to exceed every plaintext that is expected, sums
    /// of votes included; the search takes time proportional to it.
    ///
    /// A component that encodes no group element gives `InvalidCiphertext`; a
    /// plaintext outside the range gives `DecryptionFailed`.
    pub fn decrypt_with_bound(&self, ciphertext: &ElGamalCiphertext, bound: u64) -> (decrypted:
        Result<u64, CryptoError>)
        ensures
            decrypted == self.decryption_within(*ciphertext, bound),
    {
        let c1 = match Point::decompress(&ciphertext.c1) {
            Ok(point) => point,
            Err(_) => {
                return Err(CryptoError::InvalidCiphertext);
            },
        };
        let c2 = match Point::decompress(&ciphertext.c2) {
            Ok(point) => point,
            Err(_) => {
                return Err(CryptoError::InvalidCiphertext);
            },
        };
        let x = self.as_scalar();
        let shared = c1.mul(&x);
        let m_point = c2.sub(&shared);
        proof {
            let order: int = group_order() as int;
            let product: int = (x.value() * c1.log()) as int;
            lemma_residue_congruent(product);
            lemma_congruent_sub(c2.log() as int, c2.log() as int, product % order, product);
        }
        match discrete_log_search(&m_point, bound) {
            Some(message) => Ok(message),
            None => Err(CryptoError::DecryptionFailed),
        }
    }

    /// Decrypts a ciphertext, searching the plaintexts
    /// `0 .. DECRYPTION_BOUND`.
    ///
    /// A component that encodes no group element gives `InvalidCiphertext`; a
    /// plaintext outside the range gives `DecryptionFailed`.
    pub fn decrypt(&self, ciphertext: &ElGamalCiphertext) -> (decrypted: Result<u64, CryptoError>)
        ensures
            decrypted == self.decryption(*ciphertext),
    {
        self.decrypt_with_bound(ciphertext, DECRYPTION_BOUND)
    }
}

impl ElGamalKeypair {
    /// The public key is the base point multiplied by the scalar that the
    /// secret key denotes.
    pub open spec fn is_consistent(self) -> bool {
        encodes(self.public.point@, self.secret.scalar_value())
    }

    /// Derives the public key `x * B` of a secret key `x`.
    pub fn from_secret(secret: ElGamalSecretKey) -> (keypair: Self)
        ensures
            keypair.secret == secret,
            keypair.is_consistent(),
    {
        let secret_scalar = secret.as_scalar();
        let public_point = Point::mul_base(&secret_scalar);
        ElGamalKeypair { public: ElGamalPublicKey { point: public_point.compress() }, secret }
    }

    /// Makes a keypair from 64 bytes of randomness, which the caller
    /// supplies: the secret scalar is their little-endian number reduced
    /// modulo the group order, kept in canonical form.
    pub fn generate(random_bytes: &[u8; 64]) -> (keypair: Self)
        ensures
            le_value(keypair.secret.scalar@) == le_value(random_bytes@) % group_order(),
            keypair.is_consistent(),
    {
        let secret_scalar = Scalar::from_bytes_mod_order_wide(random_bytes);
        let public_point = Point::mul_base(&secret_scalar);
        let scalar = secret_scalar.to_bytes();
        proof {
            lemma_small_residue(le_value(scalar@));
        }
        ElGamalKeypair {
            public: ElGamalPublicKey { point: public_point.compress() },
            secret: ElGamalSecretKey { scalar },
        }
    }
}

impl ElGamalCiphertext {
    /// The ciphertext is the component-wise sum of `a` and `b`.
    pub open spec fn is_sum_of(self, a: ElGamalCiphertext, b: ElGamalCiphertext) -> bool {
        &&& encodes(self.c1@, (discrete_log(a.c1@) + discrete_log(b.c1@)) % group_order())
        &&& encodes(self.c2@, (discrete_log(a.c2@) + discrete_log(b.c2@)) % group_order())
    }

    /// The ciphertext is `a` with both components multiplied by `factor`.
    pub open spec fn is_multiple_of(self, a: ElGamalCiphertext, factor: nat) -> bool {
        &&& encodes(self.c1@, (factor * discrete_log(a.c1@)) % group_order())
        &&& encodes(self.c2@, (factor * discrete_log(a.c2@)) % group_order())
    }

    /// Adds two ciphertexts component by component. The sum encrypts the sum
    /// of the two plaintexts.
    pub fn add(&self, other: &ElGamalCiphertext) -> (added: Result<ElGamalCiphertext, CryptoError>)
        ensures
            match added {
                Ok(sum) => self.is_valid() && other.is_valid() && sum.is_sum_of(*self, *other),
                Err(e) => !(self.is_valid() && other.is_valid()) && e
                    == CryptoError::InvalidCiphertext,
            },
    {
        let c1_self = match Point::decompress(&self.c1) {
            Ok(point) => point,
            Err(_) => {
                return Err(CryptoError::InvalidCiphertext);
            },
        };
        let c2_self = match Point::decompress(&self.c2) {
            Ok(point) => point,
            Err(_) => {
                return Err(CryptoError::InvalidCiphertext);
            },
        };
        let c1_other = match Point::decompress(&other.c1) {
            Ok(point) => point,
            Err(_) => {
                return Err(CryptoError::InvalidCiphertext);
            },
        };
        let c2_other = match Point::decompress(&other.c2) {
            Ok(point) => point,
            Err(_) => {
                return Err(CryptoError::InvalidCiphertext);
            },
        };
        let c1_sum = c1_self.add(&c1_other);
        let c2_sum = c2_self.add(&c2_other);
        Ok(ElGamalCiphertext { c1: c1_sum.compress(), c2: c2_sum.compress() })
    }

    /// Multiplies both components by `scalar`. The product encrypts the
    /// plaintext multiplied by `scalar`.
    pub fn mul_scalar(&self, scalar: u64) -> (scaled: Result<ElGamalCiphertext, CryptoError>)
        ensures
            match scaled {
                Ok(product) => self.is_valid() && product.is_multiple_of(*self, scalar as nat),
                Err(e) => !self.is_valid() && e == CryptoError::InvalidCiphertext,
            },
    {
        let c1 = match Point::decompress(&self.c1) {
            Ok(point) => point,
            Err(_) => {
                return Err(CryptoError::InvalidCiphertext);
            },
        };
        let c2 = match Point::decompress(&self.c2) {
            Ok(point) => point,
            Err(_) => {
                return Err(CryptoError::InvalidCiphertext);
            },
        };
        let s = Scalar::from_u64(scalar);
        Ok(ElGamalCiphertext { c1: c1.mul(&s).compress(), c2: c2.mul(&s).compress() })
    }
}

impl ElGamalCiphertext {
    /// The 64 bytes of the ciphertext: `c1` followed by `c2`.
    pub open spec fn encoding(self) -> Seq<u8> {
        self.c1@ + self.c2@
    }

    /// What decoding `bytes` may yield: the ciphertext whose components are
    /// the two halves, if both halves encode group elements, and
    /// `InvalidCiphertext` if one does not.
    pub open spec fn is_decoding_of(
        decoded: Result<ElGamalCiphertext, CryptoError>,
        bytes: Seq<u8>,
    ) -> bool {
        match decoded {
            Ok(ciphertext) => ciphertext.is_valid() && ciphertext.encoding() == bytes,
            Err(e) => e == CryptoError::InvalidCiphertext && !(is_point_encoding(
                bytes.subrange(0, 32),
            ) && is_point_encoding(bytes.subrange(32, 64))),
        }
    }

    /// Encodes the ciphertext as 64 bytes: `c1` followed by `c2`.
    pub fn to_bytes(&self) -> (bytes: [u8; 64])
        ensures
            bytes@ == self.encoding(),
    {
        let mut bytes = [0u8; 64];
        let mut i: usize = 0;
        while i < 32
            invariant
                i <= 32,
                forall|j: int| 0 <= j < i ==> bytes@[j] == self.c1@[j],
                forall|j: int| 0 <= j < i ==> bytes@[32 + j] == self.c2@[j],
            decreases 32 - i,
        {
            bytes[i] = self.c1[i];
            bytes[i + 32] = self.c2[i];
            i = i + 1;
        }
        proof {
            assert(bytes@ =~= self.c1@ + self.c2@);
        }
        bytes
    }

    /// Decodes 64 bytes into a ciphertext. Both halves must encode group
    /// elements.
    pub fn from_bytes(bytes: &[u8; 64]) -> (decoded: Result<Self, CryptoError>)
        ensures
            Self::is_decoding_of(decoded, bytes@),
    {
        let mut c1 = [0u8; 32];
        let mut c2 = [0u8; 32];
        let mut i: usize = 0;
        while i < 32
            invariant
                i <= 32,
                forall|j: int| 0 <= j < i ==> c1@[j] == bytes@[j],
                forall|j: int| 0 <= j < i ==> c2@[j] == bytes@[32 + j],
            decreases 32 - i,
        {
            c1[i] = bytes[i];
            c2[i] = bytes[i + 32];
            i = i + 1;
        }
        proof {
            assert(c1@ =~= bytes@.subrange(0, 32));
            assert(c2@ =~= bytes@.subrange(32, 64));
            assert(c1@ + c2@ =~= bytes@);
        }
        match Point::decompress(&c1) {
            Ok(_) => {},
            Err(_) => {
                return Err(CryptoError::InvalidCiphertext);
            },
        }
        match Point::decompress(&c2) {
            Ok(_) => {},
            Err(_) => {
                return Err(CryptoError::InvalidCiphertext);
            },
        }
        Ok(ElGamalCiphertext { c1, c2 })
    }
}

} // verus!
