use chiapos::guard::{check_shape, is_valid_k, proof_len_for, screen, Failure, ShapeError};
use chiapos::quality::{clear_quality, conclude, settle};

const DIGEST: [u8; 32] = [7; 32];

#[test]
fn test_empty_proof() {
    let mut quality = [0; 32];
    assert!(!conclude(&[0; 32], 32, &[0; 32], &[], true, &DIGEST, &mut quality));
    assert_eq!(quality, [0; 32]);
}

#[test]
fn test_min_k_size() {
    let mut quality = [0; 32];
    assert!(!conclude(&[0; 32], 0, &[0; 32], &[0], true, &DIGEST, &mut quality));
    assert_eq!(quality, [0; 32]);
}

#[test]
fn test_max_k_size() {
    let mut quality = [0; 32];
    assert!(!conclude(&[0; 32], 100, &[0; 32], &[0], true, &DIGEST, &mut quality));
    assert_eq!(quality, [0; 32]);
}

#[test]
fn test_wrong_proof_length() {
    let mut quality = [0; 32];
    assert!(!conclude(&[0; 32], 32, &[0; 32], &[0; 1000], true, &DIGEST, &mut quality));
    assert_eq!(quality, [0; 32]);
}

#[test]
fn test_bad_proof() {
    // The proof has the length that k calls for, so only the verifier can
    // reject it; its negative answer must leave the quality all-zero.
    assert_eq!(screen(&[0; 32], 32, &[0; 32], &[0; 32 * 8]), Ok(256));
    let mut quality = [0; 32];
    assert!(!conclude(&[0; 32], 32, &[0; 32], &[0; 32 * 8], false, &DIGEST, &mut quality));
    assert_eq!(quality, [0; 32]);
}

#[test]
fn valid_call_copies_digest() {
    let mut quality = [0; 32];
    assert!(conclude(&[1; 32], 32, &[2; 32], &[3; 256], true, &DIGEST, &mut quality));
    assert_eq!(quality, DIGEST);
}

#[test]
fn failure_overwrites_stale_quality() {
    let mut quality = [9; 32];
    assert!(!conclude(&[0; 32], 32, &[0; 32], &[0; 256], false, &DIGEST, &mut quality));
    assert_eq!(quality, [0; 32]);
}

#[test]
fn short_seed_fails() {
    let mut quality = [5; 32];
    assert!(!conclude(&[0; 31], 32, &[0; 32], &[0; 256], true, &DIGEST, &mut quality));
    assert_eq!(quality, [0; 32]);
    assert_eq!(check_shape(&[0; 31], 32, &[0; 32], &[0; 256]), Err(ShapeError::SeedLength));
}

#[test]
fn long_challenge_fails() {
    let mut quality = [5; 32];
    assert!(!conclude(&[0; 32], 32, &[0; 33], &[0; 256], true, &DIGEST, &mut quality));
    assert_eq!(quality, [0; 32]);
    assert_eq!(
        check_shape(&[0; 32], 32, &[0; 33], &[0; 256]),
        Err(ShapeError::ChallengeLength)
    );
}

#[test]
fn k_bounds() {
    assert!(!is_valid_k(0));
    assert!(!is_valid_k(17));
    assert!(is_valid_k(18));
    assert!(is_valid_k(32));
    assert!(is_valid_k(50));
    assert!(!is_valid_k(51));
    assert!(!is_valid_k(100));
    assert_eq!(
        check_shape(&[0; 32], 100, &[0; 32], &[0]),
        Err(ShapeError::KOutOfRange)
    );
}

#[test]
fn oversized_proof_is_rejected_not_truncated() {
    let proof = vec![0u8; 65536];
    assert_eq!(check_shape(&[0; 32], 32, &[0; 32], &proof), Err(ShapeError::ProofTooLong));
    assert_eq!(screen(&[0; 32], 32, &[0; 32], &proof), Err(Failure::Shape(ShapeError::ProofTooLong)));
    let mut quality = [1; 32];
    assert!(!conclude(&[0; 32], 32, &[0; 32], &proof, true, &DIGEST, &mut quality));
    assert_eq!(quality, [0; 32]);
}

#[test]
fn largest_wire_length_passes_shape_check() {
    let proof = vec![0u8; 65535];
    assert_eq!(check_shape(&[0; 32], 32, &[0; 32], &proof), Ok(65535));
    assert_eq!(screen(&[0; 32], 32, &[0; 32], &proof), Err(Failure::ProofLength));
}

#[test]
fn proof_length_follows_k() {
    assert_eq!(proof_len_for(18), 144);
    assert_eq!(proof_len_for(32), 256);
    assert_eq!(proof_len_for(50), 400);
    assert_eq!(screen(&[0; 32], 18, &[0; 32], &[0; 144]), Ok(144));
    assert_eq!(screen(&[0; 32], 50, &[0; 32], &[0; 400]), Ok(400));
    assert_eq!(screen(&[0; 32], 32, &[0; 32], &[0; 255]), Err(Failure::ProofLength));
}

#[test]
fn empty_proof_fails_for_every_k() {
    for k in 0..=255u8 {
        assert!(screen(&[0; 32], k, &[0; 32], &[]).is_err());
    }
}

#[test]
fn repeated_calls_agree() {
    let mut first = [0; 32];
    let mut second = [0; 32];
    let a = conclude(&[4; 32], 20, &[6; 32], &[8; 160], true, &DIGEST, &mut first);
    let b = conclude(&[4; 32], 20, &[6; 32], &[8; 160], true, &DIGEST, &mut second);
    assert_eq!(a, b);
    assert_eq!(first, second);
}

#[test]
fn settle_follows_the_guard() {
    let mut quality = [0; 32];
    assert!(!settle(&Err(Failure::ProofLength), true, &DIGEST, &mut quality));
    assert_eq!(quality, [0; 32]);
    assert!(settle(&Ok(256), true, &DIGEST, &mut quality));
    assert_eq!(quality, DIGEST);
    assert!(!settle(&Ok(256), false, &DIGEST, &mut quality));
    assert_eq!(quality, [0; 32]);
}

#[test]
fn clear_quality_zeroes() {
    let mut quality = [0xff; 32];
    clear_quality(&mut quality);
    assert_eq!(quality, [0; 32]);
}
