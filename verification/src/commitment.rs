//! Hash commitments: a digest that binds to a value without revealing it.

use crate::bytes::constant_time_eq;
use crate::hash::{collide, keccak256, keccak256_digest};
use vstd::prelude::*;

verus! {

/// The bytes that are hashed to commit to a vote: the vote, then the
/// blinding factor.
pub open spec fn vote_preimage(vote: u8, blinding_factor: Seq<u8>) -> Seq<u8> {
    seq![vote] + blinding_factor
}

/// The commitment to a vote under a blinding factor.
pub open spec fn vote_commitment(vote: u8, blinding_factor: Seq<u8>) -> Seq<u8> {
    keccak256(vote_preimage(vote, blinding_factor))
}

/// The commitment to the bytes of an encrypted vote: the digest of the bytes
/// followed by the randomness.
pub open spec fn encrypted_vote_commitment(encrypted_vote: Seq<u8>, randomness: Seq<u8>) -> Seq<u8> {
    keccak256(encrypted_vote + randomness)
}

/// Whether `commitment` is the commitment to `vote` under `blinding_factor`.
pub open spec fn commitment_verifies(commitment: Seq<u8>, vote: u8, blinding_factor: Seq<u8>) -> bool {
    commitment == vote_commitment(vote, blinding_factor)
}

/// Commits to a vote: the Keccak-256 digest of the vote byte followed by the
/// blinding factor.
pub fn commit_vote(vote: u8, blinding_factor: &[u8; 32]) -> (commitment: [u8; 32])
    ensures
        commitment@ == vote_commitment(vote, blinding_factor@),
{
    let mut preimage: Vec<u8> = Vec::with_capacity(33);
    preimage.push(vote);
    preimage.extend_from_slice(blinding_factor);
    proof {
        assert(preimage@ =~= vote_preimage(vote, blinding_factor@));
    }
    keccak256_digest(preimage.as_slice())
}

/// Checks that `commitment` commits to `vote` under `blinding_factor`: the
/// commitment is recomputed and all 32 bytes are compared, in constant time.
pub fn verify_commitment(commitment: &[u8; 32], vote: u8, blinding_factor: &[u8; 32]) -> (valid:
    bool)
    ensures
        valid == commitment_verifies(commitment@, vote, blinding_factor@),
{
    let computed = commit_vote(vote, blinding_factor);
    constant_time_eq(&computed, commitment)
}

/// Commits to the serialized form of an encrypted vote: the Keccak-256
/// digest of the bytes followed by the randomness.
pub fn commit_encrypted_vote(encrypted_vote: &[u8], randomness: &[u8; 32]) -> (commitment: [u8; 32])
    ensures
        commitment@ == encrypted_vote_commitment(encrypted_vote@, randomness@),
{
    let mut preimage: Vec<u8> = Vec::new();
    preimage.extend_from_slice(encrypted_vote);
    preimage.extend_from_slice(randomness);
    proof {
        assert(preimage@ =~= encrypted_vote@ + randomness@);
    }
    keccak256_digest(preimage.as_slice())
}

/// Committing is deterministic: two commitments to one vote under one
/// blinding factor are the same 32 bytes.
pub proof fn lemma_commitment_deterministic(
    first: [u8; 32],
    second: [u8; 32],
    vote: u8,
    blinding_factor: Seq<u8>,
)
    requires
        first@ == vote_commitment(vote, blinding_factor),
        second@ == vote_commitment(vote, blinding_factor),
    ensures
        first == second,
{
    assert(first@ =~= second@);
    assert(first =~= second);
}

/// Verification accepts every commitment for the vote and blinding factor
/// that it was made from.
pub proof fn lemma_verification_accepts_committed_pair(vote: u8, blinding_factor: Seq<u8>)
    ensures
        commitment_verifies(vote_commitment(vote, blinding_factor), vote, blinding_factor),
{
}

/// Distinct votes or blinding factors are hashed from distinct bytes: the
/// framing of the hash input loses nothing.
pub proof fn lemma_vote_preimage_injective(
    vote_a: u8,
    blinding_a: Seq<u8>,
    vote_b: u8,
    blinding_b: Seq<u8>,
)
    requires
        vote_preimage(vote_a, blinding_a) == vote_preimage(vote_b, blinding_b),
    ensures
        vote_a == vote_b,
        blinding_a == blinding_b,
{
    let a = vote_preimage(vote_a, blinding_a);
    let b = vote_preimage(vote_b, blinding_b);
    assert(a[0] == vote_a);
    assert(b[0] == vote_b);
    assert(a.skip(1) =~= blinding_a);
    assert(b.skip(1) =~= blinding_b);
}

/// Unless the two hash inputs collide, a commitment made from one vote and
/// blinding factor verifies for another pair only if the pairs are the same:
/// commitments to different votes, or under different blinding factors,
/// differ.
pub proof fn lemma_verification_accepts_only_committed_pair(
    vote: u8,
    blinding_factor: Seq<u8>,
    other_vote: u8,
    other_blinding_factor: Seq<u8>,
)
    requires
        !collide(
            vote_preimage(vote, blinding_factor),
            vote_preimage(other_vote, other_blinding_factor),
        ),
    ensures
        commitment_verifies(
            vote_commitment(vote, blinding_factor),
            other_vote,
            other_blinding_factor,
        ) <==> (vote == other_vote && blinding_factor == other_blinding_factor),
{
    if vote_commitment(vote, blinding_factor) == vote_commitment(
        other_vote,
        other_blinding_factor,
    ) {
        lemma_vote_preimage_injective(vote, blinding_factor, other_vote, other_blinding_factor);
    }
}

} // verus!
