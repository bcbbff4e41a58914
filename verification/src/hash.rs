//! The hash primitive behind commitments and nullifiers.

use sha3::{Digest, Keccak256};
use vstd::prelude::*;

verus! {

/// The Keccak-256 digest of a byte string, as `sha3` computes it.
pub uninterp spec fn keccak256(data: Seq<u8>) -> Seq<u8>;

/// Two distinct byte strings with one digest. Such pairs exist, since
/// digests are shorter than the strings hashed, but none is known.
pub open spec fn collide(a: Seq<u8>, b: Seq<u8>) -> bool {
    a != b && keccak256(a) == keccak256(b)
}

/// Hashes `data` with `sha3::Keccak256`, through `Digest::digest`.
///
/// Trusted: the result is the Keccak-256 digest of exactly the bytes given,
/// so that equal inputs always hash to equal digests.
#[verifier::external_body]
pub(crate) fn keccak256_digest(data: &[u8]) -> (digest: [u8; 32])
    ensures
        digest@ == keccak256(data@),
{
    Keccak256::digest(data).into()
}

} // verus!
