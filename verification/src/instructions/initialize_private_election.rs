//! Setting up a private election.

use crate::ledger::{ElectionStatus, NullifierSet, PrivateElection};
use vstd::prelude::*;

verus! {

/// Sets up a private election and its empty nullifier set. The election is
/// active at once and has no votes.
pub fn handler(
    election_bump: u8,
    nullifier_set_bump: u8,
    authority: [u8; 32],
    election: [u8; 32],
    election_id: [u8; 32],
    mpc_public_key: [u8; 32],
    voter_merkle_root: [u8; 32],
    created_at: i64,
    ends_at: i64,
    num_options: u8,
) -> (created: (PrivateElection, NullifierSet))
    ensures
        created.0 == (PrivateElection {
            bump: election_bump,
            authority,
            election,
            mpc_public_key,
            voter_merkle_root,
            election_id,
            total_encrypted_votes: 0,
            tally_requested: false,
            tally_finalized: false,
            created_at,
            ends_at,
            num_options,
            status: ElectionStatus::Active,
        }),
        created.1.bump == nullifier_set_bump,
        created.1.election == election,
        created.1.nullifiers@ == Seq::<[u8; 32]>::empty(),
{
    let private_election = PrivateElection {
        bump: election_bump,
        authority,
        election,
        mpc_public_key,
        voter_merkle_root,
        election_id,
        total_encrypted_votes: 0,
        tally_requested: false,
        tally_finalized: false,
        created_at,
        ends_at,
        num_options,
        status: ElectionStatus::Active,
    };
    let nullifier_set = NullifierSet::new(nullifier_set_bump, election);
    (private_election, nullifier_set)
}

} // verus!
