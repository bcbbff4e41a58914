use privacy_crypto::commitment::{commit_encrypted_vote, commit_vote, verify_commitment};
use sha3::{Digest, Keccak256};

#[test]
fn test_commitment_deterministic() {
    let vote = 1u8;
    let blinding = [42u8; 32];

    let commitment1 = commit_vote(vote, &blinding);
    let commitment2 = commit_vote(vote, &blinding);

    assert_eq!(commitment1, commitment2);
}

#[test]
fn test_commitment_different_votes() {
    let blinding = [42u8; 32];

    let commitment1 = commit_vote(0u8, &blinding);
    let commitment2 = commit_vote(1u8, &blinding);

    assert_ne!(commitment1, commitment2);
}

#[test]
fn test_commitment_different_blinding() {
    let vote = 1u8;

    let commitment1 = commit_vote(vote, &[1u8; 32]);
    let commitment2 = commit_vote(vote, &[2u8; 32]);

    assert_ne!(commitment1, commitment2);
}

#[test]
fn test_verify_commitment() {
    let vote = 3u8;
    let blinding = [123u8; 32];

    let commitment = commit_vote(vote, &blinding);

    assert!(verify_commitment(&commitment, vote, &blinding));
    assert!(!verify_commitment(&commitment, vote + 1, &blinding));
    assert!(!verify_commitment(&commitment, vote, &[124u8; 32]));
}

#[test]
fn test_encrypted_vote_commitment() {
    let encrypted_data = vec![1, 2, 3, 4, 5];
    let randomness = [99u8; 32];

    let commitment1 = commit_encrypted_vote(&encrypted_data, &randomness);
    let commitment2 = commit_encrypted_vote(&encrypted_data, &randomness);

    assert_eq!(commitment1, commitment2);
}

#[test]
fn commit_vote_is_keccak_of_vote_then_blinding() {
    let expected: [u8; 32] = [
        0xcf, 0x79, 0xd5, 0x67, 0xa2, 0xa4, 0x8a, 0x0f, 0x4b, 0x97, 0x0c, 0xe2, 0x04, 0x9c, 0x0d,
        0x10, 0x79, 0x94, 0x0f, 0x24, 0x36, 0x10, 0x88, 0xbe, 0x8b, 0x1d, 0x0a, 0x0b, 0x6c, 0x5b,
        0x3f, 0xda,
    ];
    assert_eq!(commit_vote(1, &[42u8; 32]), expected);

    let expected_zero: [u8; 32] = [
        0xff, 0x8b, 0xa2, 0x3a, 0xbc, 0x7f, 0x85, 0x62, 0xb4, 0x7c, 0x53, 0x13, 0xd6, 0xc3, 0x05,
        0x07, 0x61, 0x0f, 0xd1, 0xc4, 0x64, 0xb4, 0xe0, 0x91, 0x92, 0x6a, 0xf6, 0x4d, 0xe1, 0xbb,
        0x91, 0xce,
    ];
    assert_eq!(commit_vote(0, &[42u8; 32]), expected_zero);
}

#[test]
fn commit_vote_matches_streamed_hashing() {
    for vote in [0u8, 1, 2, 127, 255] {
        let blinding = [vote.wrapping_mul(31).wrapping_add(5); 32];
        let mut hasher = Keccak256::new();
        hasher.update([vote]);
        hasher.update(blinding);
        let streamed: [u8; 32] = hasher.finalize().into();
        assert_eq!(commit_vote(vote, &blinding), streamed);
    }
}

#[test]
fn commit_vote_is_not_its_input() {
    let blinding = [9u8; 32];
    assert_ne!(commit_vote(9, &blinding), blinding);
}

#[test]
fn commit_encrypted_vote_is_keccak_of_bytes_then_randomness() {
    let expected: [u8; 32] = [
        0x37, 0x9e, 0xfd, 0xb3, 0x9b, 0xa8, 0xfe, 0x7d, 0x17, 0x83, 0x7c, 0x3c, 0xb5, 0x2d, 0xcf,
        0x5a, 0xe3, 0x34, 0x84, 0xd3, 0xdd, 0x70, 0xf2, 0xd9, 0x9a, 0x69, 0x37, 0x41, 0x54, 0x8b,
        0x8f, 0x82,
    ];
    assert_eq!(commit_encrypted_vote(&[1, 2, 3, 4, 5], &[99u8; 32]), expected);
}

#[test]
fn commit_encrypted_vote_matches_streamed_hashing() {
    let data: Vec<u8> = (0..200u16).map(|i| (i % 251) as u8).collect();
    let randomness = [17u8; 32];
    let mut hasher = Keccak256::new();
    hasher.update(&data);
    hasher.update(randomness);
    let streamed: [u8; 32] = hasher.finalize().into();
    assert_eq!(commit_encrypted_vote(&data, &randomness), streamed);
}

#[test]
fn commit_encrypted_vote_of_empty_bytes_hashes_the_randomness() {
    let randomness = [3u8; 32];
    let direct: [u8; 32] = Keccak256::digest(randomness).into();
    assert_eq!(commit_encrypted_vote(&[], &randomness), direct);
}

#[test]
fn commit_encrypted_vote_depends_on_bytes_and_randomness() {
    let randomness = [99u8; 32];
    let base = commit_encrypted_vote(&[1, 2, 3], &randomness);
    assert_ne!(base, commit_encrypted_vote(&[1, 2, 4], &randomness));
    assert_ne!(base, commit_encrypted_vote(&[1, 2, 3], &[98u8; 32]));
}

#[test]
fn verify_commitment_compares_every_byte() {
    let blinding = [5u8; 32];
    let commitment = commit_vote(2, &blinding);
    for position in 0..32 {
        let mut altered = commitment;
        altered[position] ^= 0x80;
        assert!(!verify_commitment(&altered, 2, &blinding));
    }
    assert!(verify_commitment(&commitment, 2, &blinding));
}

#[test]
fn verify_commitment_accepts_only_the_committed_pair() {
    let blinding = [200u8; 32];
    let commitment = commit_vote(7, &blinding);
    for vote in 0..=255u8 {
        assert_eq!(verify_commitment(&commitment, vote, &blinding), vote == 7);
    }
    let mut other = blinding;
    other[31] = 201;
    assert!(!verify_commitment(&commitment, 7, &other));
}
