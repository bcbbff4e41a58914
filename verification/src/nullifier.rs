//! Nullifiers: a tag that a voter's secret determines for each election, so
//! that a second vote by the same voter shows without naming the voter.

use crate::bytes::constant_time_eq;
use crate::hash::{collide, keccak256, keccak256_digest};
use vstd::bytes::{lemma_auto_spec_u64_to_from_le_bytes, spec_u64_to_le_bytes, u64_to_le_bytes};
use vstd::prelude::*;

verus! {

/// The bytes that are hashed into a nullifier: the voter's secret, then the
/// election identifier, then the nonce as 8 little-endian bytes.
pub open spec fn nullifier_preimage(voter_secret: Seq<u8>, election_id: Seq<u8>, nonce: u64) -> Seq<
    u8,
> {
    voter_secret + election_id + spec_u64_to_le_bytes(nonce)
}

/// The nullifier of a voter in an election, for a nonce.
pub open spec fn nullifier_of(voter_secret: Seq<u8>, election_id: Seq<u8>, nonce: u64) -> Seq<u8> {
    keccak256(nullifier_preimage(voter_secret, election_id, nonce))
}

/// Whether `nullifier` is the nullifier of the voter, election and nonce.
pub open spec fn nullifier_verifies(
    nullifier: Seq<u8>,
    voter_secret: Seq<u8>,
    election_id: Seq<u8>,
    nonce: u64,
) -> bool {
    nullifier == nullifier_of(voter_secret, election_id, nonce)
}

/// Computes the nullifier: the Keccak-256 digest of the voter's secret, the
/// election identifier and the nonce in little-endian byte order.
pub fn compute_nullifier(voter_secret: &[u8; 32], election_id: &[u8; 32], nonce: u64) -> (nullifier:
    [u8; 32])
    ensures
        nullifier@ == nullifier_of(voter_secret@, election_id@, nonce),
{
    let nonce_bytes = u64_to_le_bytes(nonce);
    let mut preimage: Vec<u8> = Vec::with_capacity(72);
    preimage.extend_from_slice(voter_secret);
    preimage.extend_from_slice(election_id);
    preimage.extend_from_slice(nonce_bytes.as_slice());
    proof {
        assert(preimage@ =~= nullifier_preimage(voter_secret@, election_id@, nonce));
    }
    keccak256_digest(preimage.as_slice())
}

/// Computes the nullifier with the bytes of an election's public key as the
/// election identifier.
pub fn compute_nullifier_with_pubkey(
    voter_secret: &[u8; 32],
    election_pubkey: &[u8; 32],
    nonce: u64,
) -> (nullifier: [u8; 32])
    ensures
        nullifier@ == nullifier_of(voter_secret@, election_pubkey@, nonce),
{
    compute_nullifier(voter_secret, election_pubkey, nonce)
}

/// Checks that `nullifier` belongs to the voter, election and nonce: the
/// nullifier is recomputed and all 32 bytes are compared, in constant time.
pub fn verify_nullifier(
    nullifier: &[u8; 32],
    voter_secret: &[u8; 32],
    election_id: &[u8; 32],
    nonce: u64,
) -> (valid: bool)
    ensures
        valid == nullifier_verifies(nullifier@, voter_secret@, election_id@, nonce),
{
    let computed = compute_nullifier(voter_secret, election_id, nonce);
    constant_time_eq(&computed, nullifier)
}

/// Computing a nullifier is deterministic: two nullifiers of one voter, one
/// election and one nonce are the same 32 bytes.
pub proof fn lemma_nullifier_deterministic(
    first: [u8; 32],
    second: [u8; 32],
    voter_secret: Seq<u8>,
    election_id: Seq<u8>,
    nonce: u64,
)
    requires
        first@ == nullifier_of(voter_secret, election_id, nonce),
        second@ == nullifier_of(voter_secret, election_id, nonce),
    ensures
        first == second,
{
    assert(first@ =~= second@);
    assert(first =~= second);
}

/// Verification accepts every nullifier for the voter, election and nonce
/// that it was computed from.
pub proof fn lemma_verification_accepts_computed_tuple(
    voter_secret: Seq<u8>,
    election_id: Seq<u8>,
    nonce: u64,
)
    ensures
        nullifier_verifies(
            nullifier_of(voter_secret, election_id, nonce),
            voter_secret,
            election_id,
            nonce,
        ),
{
}

/// A change of the voter's secret, of the election identifier or of the nonce
/// changes the bytes that are hashed: the framing of the hash input loses
/// nothing.
pub proof fn lemma_nullifier_preimage_injective(
    secret_a: Seq<u8>,
    election_a: Seq<u8>,
    nonce_a: u64,
    secret_b: Seq<u8>,
    election_b: Seq<u8>,
    nonce_b: u64,
)
    requires
        secret_a.len() == 32,
        secret_b.len() == 32,
        election_a.len() == 32,
        election_b.len() == 32,
        nullifier_preimage(secret_a, election_a, nonce_a) == nullifier_preimage(
            secret_b,
            election_b,
            nonce_b,
        ),
    ensures
        secret_a == secret_b,
        election_a == election_b,
        nonce_a == nonce_b,
{
    lemma_auto_spec_u64_to_from_le_bytes();
    let a = nullifier_preimage(secret_a, election_a, nonce_a);
    let b = nullifier_preimage(secret_b, election_b, nonce_b);
    assert(a.subrange(0, 32) =~= secret_a);
    assert(b.subrange(0, 32) =~= secret_b);
    assert(a.subrange(32, 64) =~= election_a);
    assert(b.subrange(32, 64) =~= election_b);
    assert(a.skip(64) =~= spec_u64_to_le_bytes(nonce_a));
    assert(b.skip(64) =~= spec_u64_to_le_bytes(nonce_b));
}

/// Unless the two hash inputs collide, a nullifier computed from one voter,
/// election and nonce verifies for another tuple only if the tuples are the
/// same: a change of any single input changes the nullifier.
pub proof fn lemma_verification_accepts_only_computed_tuple(
    secret_a: Seq<u8>,
    election_a: Seq<u8>,
    nonce_a: u64,
    secret_b: Seq<u8>,
    election_b: Seq<u8>,
    nonce_b: u64,
)
    requires
        secret_a.len() == 32,
        secret_b.len() == 32,
        election_a.len() == 32,
        election_b.len() == 32,
        !collide(
            nullifier_preimage(secret_a, election_a, nonce_a),
            nullifier_preimage(secret_b, election_b, nonce_b),
        ),
    ensures
        nullifier_verifies(
            nullifier_of(secret_a, election_a, nonce_a),
            secret_b,
            election_b,
            nonce_b,
        ) <==> (secret_a == secret_b && election_a == election_b && nonce_a == nonce_b),
{
    if nullifier_of(secret_a, election_a, nonce_a) == nullifier_of(secret_b, election_b, nonce_b) {
        lemma_nullifier_preimage_injective(
            secret_a,
            election_a,
            nonce_a,
            secret_b,
            election_b,
            nonce_b,
        );
    }
}

} // verus!
