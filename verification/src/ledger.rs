//! The bookkeeping of a private election: which nullifiers were spent, how
//! many encrypted votes were cast, and when a vote is accepted.
//!
//! Everything here is a plain value. Persisting the values, reading the
//! clock and deciding who may call is left to the host.

use crate::bytes::constant_time_eq;
use crate::instructions::{cast_encrypted_vote, initialize_private_election};
use vstd::prelude::*;

verus! {

/// Why the nullifier set refused a nullifier.
#[derive(Debug, Clone, Copy, PartialEq, Eq, Structural)]
pub enum ErrorCode {
    /// This nullifier has already been used - double voting not allowed.
    NullifierAlreadyUsed,
}

/// Why the ledger refused an operation.
#[derive(Debug, Clone, Copy, PartialEq, Eq, Structural)]
pub enum PrivacyError {
    InvalidPublicKey,
    InvalidCiphertext,
    NullifierAlreadyUsed,
    InvalidZkProof,
    InvalidMerkleProof,
    ElectionNotActive,
    ElectionEnded,
    ElectionNotEnded,
    TallyAlreadyRequested,
    TallyNotRequested,
    TallyAlreadyFinalized,
    InvalidMpcSignature,
    InvalidThreshold,
    Unauthorized,
    InvalidElectionStatus,
    ArithmeticOverflow,
}

impl PrivacyError {
    /// The human readable text of each failure reason.
    pub open spec fn message_text(self) -> Seq<char> {
        match self {
            PrivacyError::InvalidPublicKey => "Invalid ElGamal public key"@,
            PrivacyError::InvalidCiphertext => "Invalid ElGamal ciphertext"@,
            PrivacyError::NullifierAlreadyUsed => "Nullifier already used - double voting not allowed"@,
            PrivacyError::InvalidZkProof => "Invalid zero-knowledge proof"@,
            PrivacyError::InvalidMerkleProof => "Invalid voter merkle proof"@,
            PrivacyError::ElectionNotActive => "Election is not active"@,
            PrivacyError::ElectionEnded => "Election has ended"@,
            PrivacyError::ElectionNotEnded => "Election has not ended yet"@,
            PrivacyError::TallyAlreadyRequested => "Tally already requested"@,
            PrivacyError::TallyNotRequested => "Tally not requested yet"@,
            PrivacyError::TallyAlreadyFinalized => "Tally already finalized"@,
            PrivacyError::InvalidMpcSignature => "Invalid MPC signature"@,
            PrivacyError::InvalidThreshold => "Invalid threshold"@,
            PrivacyError::Unauthorized => "Unauthorized"@,
            PrivacyError::InvalidElectionStatus => "Invalid election status"@,
            PrivacyError::ArithmeticOverflow => "Arithmetic overflow"@,
        }
    }

    /// Renders the failure reason as text.
    pub fn message(&self) -> (text: String)
        ensures
            text@ == self.message_text(),
    {
        match self {
            PrivacyError::InvalidPublicKey => "Invalid ElGamal public key".to_string(),
            PrivacyError::InvalidCiphertext => "Invalid ElGamal ciphertext".to_string(),
            PrivacyError::NullifierAlreadyUsed => "Nullifier already used - double voting not allowed".to_string(),
            PrivacyError::InvalidZkProof => "Invalid zero-knowledge proof".to_string(),
            PrivacyError::InvalidMerkleProof => "Invalid voter merkle proof".to_string(),
            PrivacyError::ElectionNotActive => "Election is not active".to_string(),
            PrivacyError::ElectionEnded => "Election has ended".to_string(),
            PrivacyError::ElectionNotEnded => "Election has not ended yet".to_string(),
            PrivacyError::TallyAlreadyRequested => "Tally already requested".to_string(),
            PrivacyError::TallyNotRequested => "Tally not requested yet".to_string(),
            PrivacyError::TallyAlreadyFinalized => "Tally already finalized".to_string(),
            PrivacyError::InvalidMpcSignature => "Invalid MPC signature".to_string(),
            PrivacyError::InvalidThreshold => "Invalid threshold".to_string(),
            PrivacyError::Unauthorized => "Unauthorized".to_string(),
            PrivacyError::InvalidElectionStatus => "Invalid election status".to_string(),
            PrivacyError::ArithmeticOverflow => "Arithmetic overflow".to_string(),
        }
    }
}

/// The nullifiers spent in one election, in the order in which they were
/// spent.
#[derive(Debug, Clone)]
pub struct NullifierSet {
    /// Bump seed of the account that holds the set.
    pub bump: u8,
    /// The election this set belongs to.
    pub election: [u8; 32],
    /// The spent nullifiers.
    pub nullifiers: Vec<[u8; 32]>,
}

impl NullifierSet {
    /// Bytes that an empty set takes when stored: discriminator, bump,
    /// election and the length prefix of the list.
    pub const INIT_LEN: usize = 8 + 1 + 32 + 4;

    /// No nullifier occurs twice.
    pub open spec fn well_formed(&self) -> bool {
        self.nullifiers@.no_duplicates()
    }

    /// An empty set for an election.
    pub fn new(bump: u8, election: [u8; 32]) -> (set: Self)
        ensures
            set.bump == bump,
            set.election == election,
            set.nullifiers@ == Seq::<[u8; 32]>::empty(),
            set.well_formed(),
    {
        NullifierSet { bump, election, nullifiers: Vec::new() }
    }

    /// Whether a nullifier has been spent.
    pub fn contains(&self, nullifier: &[u8; 32]) -> (found: bool)
        ensures
            found == self.nullifiers@.contains(*nullifier),
    {
        let mut i: usize = 0;
        while i < self.nullifiers.len()
            invariant
                i <= self.nullifiers@.len(),
                forall|j: int| 0 <= j < i ==> self.nullifiers@[j] != *nullifier,
            decreases self.nullifiers@.len() - i,
        {
            if constant_time_eq(&self.nullifiers[i], nullifier) {
                proof {
                    assert(self.nullifiers@[i as int] =~= *nullifier);
                }
                return true;
            }
            proof {
                assert(self.nullifiers@[i as int]@ != nullifier@);
            }
            i = i + 1;
        }
        false
    }

    /// Spends a nullifier. A nullifier that was spent before is refused and
    /// the set stays as it was.
    pub fn insert(&mut self, nullifier: [u8; 32]) -> (inserted: Result<(), ErrorCode>)
        ensures
            final(self).bump == old(self).bump,
            final(self).election == old(self).election,
            match inserted {
                Ok(_) => !old(self).nullifiers@.contains(nullifier) && final(self).nullifiers@
                    == old(self).nullifiers@.push(nullifier),
                Err(e) => old(self).nullifiers@.contains(nullifier) && e
                    == ErrorCode::NullifierAlreadyUsed && final(self).nullifiers@ == old(
                    self,
                ).nullifiers@,
            },
            old(self).well_formed() ==> final(self).well_formed(),
    {
        if self.contains(&nullifier) {
            return Err(ErrorCode::NullifierAlreadyUsed);
        }
        self.nullifiers.push(nullifier);
        Ok(())
    }

    /// The number of spent nullifiers.
    pub fn len(&self) -> (count: usize)
        ensures
            count == self.nullifiers@.len(),
    {
        self.nullifiers.len()
    }

    /// Whether no nullifier has been spent.
    pub fn is_empty(&self) -> (empty: bool)
        ensures
            empty == (self.nullifiers@.len() == 0),
    {
        self.nullifiers.len() == 0
    }
}

/// Where an election stands in its life.
#[derive(Debug, Clone, Copy, PartialEq, Eq, Structural)]
pub enum ElectionStatus {
    /// Election is being set up.
    Pending,
    /// Election is active and accepting votes.
    Active,
    /// Election has ended, awaiting tally.
    Ended,
    /// Election is finalized with results.
    Finalized,
}

/// The configuration and state of a private election.
#[derive(Debug, Clone)]
pub struct PrivateElection {
    /// Bump seed of the account that holds the election.
    pub bump: u8,
    /// Authority that can manage the election.
    pub authority: [u8; 32],
    /// The public election that this private election belongs to.
    pub election: [u8; 32],
    /// ElGamal public key under which votes are encrypted.
    pub mpc_public_key: [u8; 32],
    /// Root of the voter merkle tree.
    pub voter_merkle_root: [u8; 32],
    /// Election identifier that enters the nullifiers.
    pub election_id: [u8; 32],
    /// Total number of encrypted votes cast.
    pub total_encrypted_votes: u64,
    /// Whether the tally has been requested.
    pub tally_requested: bool,
    /// Whether the tally has been finalized.
    pub tally_finalized: bool,
    /// Time at which the election was created.
    pub created_at: i64,
    /// Time at which the election ends.
    pub ends_at: i64,
    /// Number of vote options.
    pub num_options: u8,
    /// Status of the election.
    pub status: ElectionStatus,
}

impl PrivateElection {
    /// Bytes that an election takes when stored.
    pub const LEN: usize = 8 + 1 + 32 + 32 + 32 + 32 + 32 + 8 + 1 + 1 + 8 + 8 + 1 + 1;
}

/// One encrypted vote as the ledger keeps it.
#[derive(Debug, Clone)]
pub struct EncryptedVote {
    /// Bump seed of the account that holds the vote.
    pub bump: u8,
    /// The private election this vote belongs to.
    pub election: [u8; 32],
    /// First component of the ciphertext.
    pub ciphertext_c1: [u8; 32],
    /// Second component of the ciphertext.
    pub ciphertext_c2: [u8; 32],
    /// Nullifier that prevents a second vote.
    pub nullifier: [u8; 32],
    /// Commitment to the vote.
    pub commitment: [u8; 32],
    /// Time at which the vote was cast.
    pub timestamp: i64,
}

impl EncryptedVote {
    /// Bytes that a vote takes when stored.
    pub const LEN: usize = 8 + 1 + 32 + 64 + 32 + 32 + 8;
}

/// Sets up a private election and its empty nullifier set. The election is
/// active at once and has no votes.
pub fn initialize_private_election(
    election_bump: u8,
    nullifier_set_bump: u8,
    authority: [u8; 32],
    election: [u8; 32],
    election_id: [u8; 32],
    mpc_public_key: [u8; 32],
    voter_merkle_root: [u8; 32],
    created_at: i64,
    ends_at: i64,
    num_options: u8,
) -> (created: (PrivateElection, NullifierSet))
    ensures
        created.0 == (PrivateElection {
            bump: election_bump,
            authority,
            election,
            mpc_public_key,
            voter_merkle_root,
            election_id,
            total_encrypted_votes: 0,
            tally_requested: false,
            tally_finalized: false,
            created_at,
            ends_at,
            num_options,
            status: ElectionStatus::Active,
        }),
        created.1.bump == nullifier_set_bump,
        created.1.election == election,
        created.1.nullifiers@ == Seq::<[u8; 32]>::empty(),
{
    initialize_private_election::handler(
        election_bump,
        nullifier_set_bump,
        authority,
        election,
        election_id,
        mpc_public_key,
        voter_merkle_root,
        created_at,
        ends_at,
        num_options,
    )
}

/// Casts an encrypted vote. An accepted vote is returned for storage, its
/// nullifier is spent and the vote counter grows by one; a refused vote
/// changes nothing.
pub fn cast_encrypted_vote(
    private_election: &mut PrivateElection,
    nullifier_set: &mut NullifierSet,
    vote_bump: u8,
    private_election_key: [u8; 32],
    ciphertext_c1: [u8; 32],
    ciphertext_c2: [u8; 32],
    nullifier: [u8; 32],
    commitment: [u8; 32],
    current_time: i64,
) -> (cast: Result<EncryptedVote, PrivacyError>)
    ensures
        cast_encrypted_vote::is_outcome(
            cast,
            *old(private_election),
            *old(nullifier_set),
            *final(private_election),
            *final(nullifier_set),
            vote_bump,
            private_election_key,
            ciphertext_c1,
            ciphertext_c2,
            nullifier,
            commitment,
            current_time,
        ),
{
    cast_encrypted_vote::handler(
        private_election,
        nullifier_set,
        vote_bump,
        private_election_key,
        ciphertext_c1,
        ciphertext_c2,
        nullifier,
        commitment,
        current_time,
    )
}

} // verus!
