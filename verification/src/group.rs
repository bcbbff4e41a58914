//! Arithmetic in the Ristretto group and in its scalar field.
//!
//! The group has prime order, so every element is a multiple `k * B` of the
//! base point `B` for exactly one `k` below the order. The model used
//! throughout the crate identifies a group element with that `k`: adding
//! elements adds their multiples, multiplying by a scalar multiplies them,
//! always modulo the order. Elements and scalars cross the boundary of this
//! module only as their canonical 32-byte encodings.

use crate::bytes::{constant_time_eq, le_value};
use crate::errors::CryptoError;
use curve25519_dalek::constants::RISTRETTO_BASEPOINT_TABLE;
use curve25519_dalek::ristretto::CompressedRistretto;
use vstd::prelude::*;

verus! {

/// The order of the Ristretto group: `2^252 + 27742317777372353535851937790883648493`.
pub open spec fn group_order() -> nat {
    7237005577332262213973186563042994240857116359379907606001950938285454250989nat
}

/// The compressed encoding of `k * B`, where `B` is the Ristretto base point:
/// the 32 bytes that `curve25519_dalek` yields when it multiplies the base
/// point by the scalar `k` and compresses the product.
pub uninterp spec fn ristretto_encoding(k: nat) -> Seq<u8>;

/// Whether `bytes` is the canonical encoding of a group element.
pub open spec fn is_point_encoding(bytes: Seq<u8>) -> bool {
    exists|k: nat| k < group_order() && #[trigger] ristretto_encoding(k) == bytes
}

/// The multiple of the base point that `bytes` encodes. Meaningful only for
/// the encoding of a group element.
pub open spec fn discrete_log(bytes: Seq<u8>) -> nat {
    choose|k: nat| k < group_order() && #[trigger] ristretto_encoding(k) == bytes
}

/// `bytes` is the encoding of `k * B`, and `k` is the one multiple below the
/// group order with that encoding.
pub open spec fn encodes(bytes: Seq<u8>, k: nat) -> bool {
    &&& k < group_order()
    &&& bytes == ristretto_encoding(k)
    &&& discrete_log(bytes) == k
}

/// `a + b` modulo the group order.
pub open spec fn add_mod(a: nat, b: nat) -> nat {
    (a + b) % group_order()
}

/// `a - b` modulo the group order.
pub open spec fn sub_mod(a: nat, b: nat) -> nat {
    ((a - b) % (group_order() as int)) as nat
}

/// `a * b` modulo the group order.
pub open spec fn mul_mod(a: nat, b: nat) -> nat {
    (a * b) % group_order()
}

/// Every encoding of a group element encodes the multiple that
/// `discrete_log` names for it.
pub proof fn lemma_point_encodes_its_log(bytes: Seq<u8>)
    requires
        is_point_encoding(bytes),
    ensures
        encodes(bytes, discrete_log(bytes)),
{
}

/// Two encodings of group elements are equal exactly when they encode the
/// same multiple of the base point.
pub proof fn lemma_equal_logs_equal_encodings(a: Seq<u8>, b: Seq<u8>)
    requires
        is_point_encoding(a),
        is_point_encoding(b),
    ensures
        (a == b) <==> (discrete_log(a) == discrete_log(b)),
{
    lemma_point_encodes_its_log(a);
    lemma_point_encodes_its_log(b);
}

/// Tests with `CompressedRistretto::decompress` whether 32 bytes encode a
/// group element.
///
/// Trusted: decompression succeeds exactly on the canonical encodings of the
/// group's elements, and each element is a multiple `k * B` of the base point
/// with `k` below the group order.
#[verifier::external_body]
pub(crate) fn ristretto_is_valid(bytes: &[u8; 32]) -> (ok: bool)
    ensures
        ok == is_point_encoding(bytes@),
{
    CompressedRistretto(*bytes).decompress().is_some()
}

/// Multiplies the Ristretto base point by a scalar, through
/// `RISTRETTO_BASEPOINT_TABLE`, and compresses the product.
///
/// Trusted: the scalar is the little-endian number in `scalar` reduced modulo
/// the group order (`Scalar::from_bytes_mod_order`); the result is the
/// encoding of that multiple of the base point, and of no other multiple below
/// the group order.
#[verifier::external_body]
pub(crate) fn ristretto_mul_base(scalar: &[u8; 32]) -> (product: [u8; 32])
    ensures
        product@ == ristretto_encoding(le_value(scalar@) % group_order()),
        discrete_log(product@) == le_value(scalar@) % group_order(),
{
    let s = curve25519_dalek::scalar::Scalar::from_bytes_mod_order(*scalar);
    (&s * RISTRETTO_BASEPOINT_TABLE).compress().to_bytes()
}

/// Adds two group elements with `RistrettoPoint`'s `+` and compresses the sum.
///
/// Trusted: the sum of `j * B` and `k * B` is `(j + k) * B`, with `j + k`
/// taken modulo the group order.
#[verifier::external_body]
pub(crate) fn ristretto_add(a: &[u8; 32], b: &[u8; 32]) -> (sum: [u8; 32])
    requires
        is_point_encoding(a@),
        is_point_encoding(b@),
    ensures
        encodes(sum@, add_mod(discrete_log(a@), discrete_log(b@))),
{
    let p = CompressedRistretto(*a).decompress().unwrap();
    let q = CompressedRistretto(*b).decompress().unwrap();
    (p + q).compress().to_bytes()
}

/// Subtracts two group elements with `RistrettoPoint`'s `-` and compresses
/// the difference.
///
/// Trusted: the difference of `j * B` and `k * B` is `(j - k) * B`, with
/// `j - k` taken modulo the group order.
#[verifier::external_body]
pub(crate) fn ristretto_sub(a: &[u8; 32], b: &[u8; 32]) -> (difference: [u8; 32])
    requires
        is_point_encoding(a@),
        is_point_encoding(b@),
    ensures
        encodes(difference@, sub_mod(discrete_log(a@), discrete_log(b@))),
{
    let p = CompressedRistretto(*a).decompress().unwrap();
    let q = CompressedRistretto(*b).decompress().unwrap();
    (p - q).compress().to_bytes()
}

/// Multiplies a group element by a scalar with `Scalar`'s `*` on a
/// `RistrettoPoint` and compresses the product.
///
/// Trusted: the scalar is the little-endian number in `scalar` reduced modulo
/// the group order (`Scalar::from_bytes_mod_order`), and `s` times `k * B` is
/// `(s * k) * B`, with `s * k` taken modulo the group order.
#[verifier::external_body]
pub(crate) fn ristretto_mul(scalar: &[u8; 32], point: &[u8; 32]) -> (product: [u8; 32])
    requires
        is_point_encoding(point@),
    ensures
        encodes(product@, mul_mod(le_value(scalar@) % group_order(), discrete_log(point@))),
{
    let s = curve25519_dalek::scalar::Scalar::from_bytes_mod_order(*scalar);
    let p = CompressedRistretto(*point).decompress().unwrap();
    (s * p).compress().to_bytes()
}

/// Reduces a 256-bit little-endian number modulo the group order with
/// `Scalar::from_bytes_mod_order` and returns the canonical bytes of the
/// residue.
///
/// Trusted: the result denotes the residue of the number that `bytes` denotes.
#[verifier::external_body]
pub(crate) fn scalar_reduce(bytes: &[u8; 32]) -> (reduced: [u8; 32])
    ensures
        le_value(reduced@) == le_value(bytes@) % group_order(),
{
    curve25519_dalek::scalar::Scalar::from_bytes_mod_order(*bytes).to_bytes()
}

/// Reduces a 512-bit little-endian number modulo the group order with
/// `Scalar::from_bytes_mod_order_wide` and returns the canonical bytes of the
/// residue.
///
/// Trusted: the result denotes the residue of the number that `bytes` denotes.
#[verifier::external_body]
pub(crate) fn scalar_reduce_wide(bytes: &[u8; 64]) -> (reduced: [u8; 32])
    ensures
        le_value(reduced@) == le_value(bytes@) % group_order(),
{
    curve25519_dalek::scalar::Scalar::from_bytes_mod_order_wide(bytes).to_bytes()
}

/// Turns a `u64` into a scalar with `Scalar::from` and returns its canonical
/// bytes.
///
/// Trusted: the result denotes the number given.
#[verifier::external_body]
pub(crate) fn scalar_from_u64(x: u64) -> (scalar: [u8; 32])
    ensures
        le_value(scalar@) == x,
{
    curve25519_dalek::scalar::Scalar::from(x).to_bytes()
}

/// An element of the scalar field: a number below the group order, held as
/// its canonical little-endian bytes.
#[derive(Debug, Clone, Copy)]
pub struct Scalar {
    bytes: [u8; 32],
}

impl Scalar {
    #[verifier::type_invariant]
    spec fn well_formed(self) -> bool {
        le_value(self.bytes@) < group_order()
    }

    /// The canonical little-endian bytes of the scalar.
    pub closed spec fn encoding(self) -> Seq<u8> {
        self.bytes@
    }

    /// The number that the scalar stands for.
    pub open spec fn value(self) -> nat {
        le_value(self.encoding())
    }

    /// Reads 32 bytes as a little-endian number and reduces it modulo the
    /// group order. Every input is accepted.
    pub fn from_bytes_mod_order(bytes: [u8; 32]) -> (scalar: Scalar)
        ensures
            scalar.value() == le_value(bytes@) % group_order(),
    {
        Scalar { bytes: scalar_reduce(&bytes) }
    }

    /// Reads 64 bytes as a little-endian number and reduces it modulo the
    /// group order. Every input is accepted.
    pub fn from_bytes_mod_order_wide(bytes: &[u8; 64]) -> (scalar: Scalar)
        ensures
            scalar.value() == le_value(bytes@) % group_order(),
    {
        Scalar { bytes: scalar_reduce_wide(bytes) }
    }

    /// The scalar that stands for `x`.
    pub fn from_u64(x: u64) -> (scalar: Scalar)
        ensures
            scalar.value() == x,
    {
        Scalar { bytes: scalar_from_u64(x) }
    }

    /// The canonical little-endian bytes of the scalar.
    pub fn to_bytes(&self) -> (bytes: [u8; 32])
        ensures
            bytes@ == self.encoding(),
            self.value() < group_order(),
    {
        proof {
            use_type_invariant(self);
        }
        self.bytes
    }
}

/// An element of the Ristretto group, held as its canonical encoding.
#[derive(Debug, Clone, Copy)]
pub struct Point {
    bytes: [u8; 32],
}

impl Point {
    #[verifier::type_invariant]
    spec fn well_formed(self) -> bool {
        is_point_encoding(self.bytes@)
    }

    /// The canonical 32-byte encoding of the element.
    pub closed spec fn encoding(self) -> Seq<u8> {
        self.bytes@
    }

    /// The multiple of the base point that the element is.
    pub open spec fn log(self) -> nat {
        discrete_log(self.encoding())
    }

    /// Decodes 32 bytes into a group element. Bytes that are not the
    /// canonical encoding of an element are refused; no element stands in
    /// for them.
    pub fn decompress(bytes: &[u8; 32]) -> (decoded: Result<Point, CryptoError>)
        ensures
            match decoded {
                Ok(point) => is_point_encoding(bytes@) && point.encoding() == bytes@,
                Err(e) => !is_point_encoding(bytes@) && e == CryptoError::InvalidCurvePoint,
            },
    {
        if ristretto_is_valid(bytes) {
            Ok(Point { bytes: *bytes })
        } else {
            Err(CryptoError::InvalidCurvePoint)
        }
    }

    /// The canonical 32-byte encoding of the element.
    pub fn compress(&self) -> (bytes: [u8; 32])
        ensures
            bytes@ == self.encoding(),
            encodes(bytes@, self.log()),
    {
        proof {
            use_type_invariant(self);
            lemma_point_encodes_its_log(self.bytes@);
        }
        self.bytes
    }

    /// The multiple `scalar * B` of the base point `B`.
    pub fn mul_base(scalar: &Scalar) -> (product: Point)
        ensures
            encodes(product.encoding(), scalar.value()),
    {
        proof {
            use_type_invariant(scalar);
        }
        Point { bytes: ristretto_mul_base(&scalar.bytes) }
    }

    /// The sum of two elements.
    pub fn add(&self, other: &Point) -> (sum: Point)
        ensures
            encodes(sum.encoding(), add_mod(self.log(), other.log())),
    {
        proof {
            use_type_invariant(self);
            use_type_invariant(other);
        }
        Point { bytes: ristretto_add(&self.bytes, &other.bytes) }
    }

    /// The difference of two elements.
    pub fn sub(&self, other: &Point) -> (difference: Point)
        ensures
            encodes(difference.encoding(), sub_mod(self.log(), other.log())),
    {
        proof {
            use_type_invariant(self);
            use_type_invariant(other);
        }
        Point { bytes: ristretto_sub(&self.bytes, &other.bytes) }
    }

    /// The element multiplied by a scalar.
    pub fn mul(&self, scalar: &Scalar) -> (product: Point)
        ensures
            encodes(product.encoding(), mul_mod(scalar.value(), self.log())),
    {
        proof {
            use_type_invariant(self);
            use_type_invariant(scalar);
        }
        Point { bytes: ristretto_mul(&scalar.bytes, &self.bytes) }
    }

    /// Whether two elements are the same. The encoding is canonical, so the
    /// elements are compared through their encodings, in constant time.
    pub fn equals(&self, other: &Point) -> (same: bool)
        ensures
            same == (self.encoding() == other.encoding()),
            same == (self.log() == other.log()),
    {
        proof {
            use_type_invariant(self);
            use_type_invariant(other);
            lemma_equal_logs_equal_encodings(self.bytes@, other.bytes@);
        }
        constant_time_eq(&self.bytes, &other.bytes)
    }
}

} // verus!
