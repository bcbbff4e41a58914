//! Casting an encrypted vote.

use crate::ledger::{ElectionStatus, EncryptedVote, NullifierSet, PrivacyError, PrivateElection};
use vstd::prelude::*;

verus! {

/// Whether a vote with `nullifier` is accepted at `current_time`, and if not,
/// why: the election must be active and not yet ended, the nullifier unspent
/// and the vote counter below its maximum, in this order.
pub open spec fn vote_refusal(
    private_election: PrivateElection,
    nullifier_set: NullifierSet,
    nullifier: [u8; 32],
    current_time: i64,
) -> Option<PrivacyError> {
    if private_election.status != ElectionStatus::Active {
        Some(PrivacyError::ElectionNotActive)
    } else if current_time >= private_election.ends_at {
        Some(PrivacyError::ElectionEnded)
    } else if nullifier_set.nullifiers@.contains(nullifier) {
        Some(PrivacyError::NullifierAlreadyUsed)
    } else if private_election.total_encrypted_votes == u64::MAX {
        Some(PrivacyError::ArithmeticOverflow)
    } else {
        None
    }
}

/// What casting a vote yields and leaves behind: the stored vote, the
/// nullifier spent and the counter raised by one if the vote is accepted; the
/// reason and nothing changed if it is refused.
pub open spec fn is_outcome(
    cast: Result<EncryptedVote, PrivacyError>,
    election_before: PrivateElection,
    spent_before: NullifierSet,
    election_after: PrivateElection,
    spent_after: NullifierSet,
    vote_bump: u8,
    private_election_key: [u8; 32],
    ciphertext_c1: [u8; 32],
    ciphertext_c2: [u8; 32],
    nullifier: [u8; 32],
    commitment: [u8; 32],
    current_time: i64,
) -> bool {
    &&& spent_after.bump == spent_before.bump
    &&& spent_after.election == spent_before.election
    &&& spent_before.well_formed() ==> spent_after.well_formed()
    &&& match cast {
        Ok(vote) => {
            &&& vote_refusal(election_before, spent_before, nullifier, current_time) is None
            &&& vote == (EncryptedVote {
                bump: vote_bump,
                election: private_election_key,
                ciphertext_c1,
                ciphertext_c2,
                nullifier,
                commitment,
                timestamp: current_time,
            })
            &&& election_after == (PrivateElection {
                total_encrypted_votes: (election_before.total_encrypted_votes + 1) as u64,
                ..election_before
            })
            &&& spent_after.nullifiers@ == spent_before.nullifiers@.push(nullifier)
        },
        Err(e) => {
            &&& vote_refusal(election_before, spent_before, nullifier, current_time) == Some(e)
            &&& election_after == election_before
            &&& spent_after.nullifiers@ == spent_before.nullifiers@
        },
    }
}

/// Casts an encrypted vote. An accepted vote is returned for storage, its
/// nullifier is spent and the vote counter grows by one; a refused vote
/// changes nothing.
pub fn handler(
    private_election: &mut PrivateElection,
    nullifier_set: &mut NullifierSet,
    vote_bump: u8,
    private_election_key: [u8; 32],
    ciphertext_c1: [u8; 32],
    ciphertext_c2: [u8; 32],
    nullifier: [u8; 32],
    commitment: [u8; 32],
    current_time: i64,
) -> (cast: Result<EncryptedVote, PrivacyError>)
    ensures
        is_outcome(
            cast,
            *old(private_election),
            *old(nullifier_set),
            *final(private_election),
            *final(nullifier_set),
            vote_bump,
            private_election_key,
            ciphertext_c1,
            ciphertext_c2,
            nullifier,
            commitment,
            current_time,
        ),
{
    match private_election.status {
        ElectionStatus::Active => {},
        _ => {
            return Err(PrivacyError::ElectionNotActive);
        },
    }
    if current_time >= private_election.ends_at {
        return Err(PrivacyError::ElectionEnded);
    }
    if nullifier_set.contains(&nullifier) {
        return Err(PrivacyError::NullifierAlreadyUsed);
    }
    let total = match private_election.total_encrypted_votes.checked_add(1) {
        Some(total) => total,
        None => {
            return Err(PrivacyError::ArithmeticOverflow);
        },
    };
    let vote = EncryptedVote {
        bump: vote_bump,
        election: private_election_key,
        ciphertext_c1,
        ciphertext_c2,
        nullifier,
        commitment,
        timestamp: current_time,
    };
    match nullifier_set.insert(nullifier) {
        Ok(_) => {},
        Err(_) => {
            return Err(PrivacyError::NullifierAlreadyUsed);
        },
    }
    private_election.total_encrypted_votes = total;
    Ok(vote)
}

/// No double voting: once a vote with a nullifier was accepted, a second vote
/// with that nullifier is refused for as long as the election accepts votes.
pub proof fn lemma_second_vote_refused(
    before: PrivateElection,
    spent_before: NullifierSet,
    after: PrivateElection,
    spent_after: NullifierSet,
    nullifier: [u8; 32],
    first_time: i64,
    second_time: i64,
)
    requires
        vote_refusal(before, spent_before, nullifier, first_time) is None,
        after == (PrivateElection {
            total_encrypted_votes: (before.total_encrypted_votes + 1) as u64,
            ..before
        }),
        spent_after.nullifiers@ == spent_before.nullifiers@.push(nullifier),
        second_time < after.ends_at,
    ensures
        vote_refusal(after, spent_after, nullifier, second_time) == Some(
            PrivacyError::NullifierAlreadyUsed,
        ),
        spent_before.well_formed() ==> spent_after.well_formed(),
{
    let spent = spent_after.nullifiers@;
    assert(spent[spent.len() - 1] == nullifier);
}

} // verus!
