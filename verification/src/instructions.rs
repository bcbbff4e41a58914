//! The operations on an election, one module each.

pub mod cast_encrypted_vote;
pub mod initialize_private_election;
