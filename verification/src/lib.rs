//! Cryptographic primitives for privacy-preserving voting.
//!
//! The crate offers additively homomorphic ElGamal encryption over the
//! Ristretto group, hash commitments to votes, nullifiers that expose double
//! voting without revealing the voter, and the bookkeeping of an election
//! that spends them. Every function states what it returns in terms of a
//! small mathematical model, and Verus proves the statements.

pub mod bytes;
pub mod commitment;
pub mod elgamal;
pub mod elgamal_laws;
pub mod errors;
pub mod group;
pub mod hash;
pub mod instructions;
pub mod ledger;
pub mod modular;
pub mod nullifier;

pub use commitment::commit_vote;
pub use elgamal::{ElGamalCiphertext, ElGamalKeypair, ElGamalPublicKey, ElGamalSecretKey};
pub use errors::CryptoError;
pub use nullifier::compute_nullifier;
