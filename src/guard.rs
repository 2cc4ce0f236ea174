//! The input guard: shape and range checks made before the verifier is
//! ever invoked.
use vstd::prelude::*;

verus! {

/// Length in bytes of a plot seed.
pub const SEED_LEN: usize = 32;

/// Length in bytes of a challenge.
pub const CHALLENGE_LEN: usize = 32;

/// Smallest difficulty parameter the proof-of-space scheme accepts.
pub const MIN_K: u8 = 18;

/// Largest difficulty parameter the proof-of-space scheme accepts.
pub const MAX_K: u8 = 50;

/// Largest proof length that the verifier's 16-bit length field can carry.
pub const MAX_WIRE_LEN: usize = 65535;

/// Bytes of proof per unit of `k`: a proof holds 64 values of `k` bits each.
pub const PROOF_BYTES_PER_K: usize = 8;

/// A caller-supplied value of the wrong shape; the verifier is not invoked.
#[derive(Clone, Copy, Debug, PartialEq, Eq, Structural)]
pub enum ShapeError {
    /// The seed is not exactly 32 bytes long.
    SeedLength,
    /// The challenge is not exactly 32 bytes long.
    ChallengeLength,
    /// `k` lies outside the scheme's interval.
    KOutOfRange,
    /// The proof is too long for the verifier's length field.
    ProofTooLong,
}

/// Why a call is kept from the verifier. Every failure, these and the
/// verifier's own negative answer, reaches the caller as one outcome:
/// no quality.
#[derive(Clone, Copy, Debug, PartialEq, Eq, Structural)]
pub enum Failure {
    /// A value of the wrong shape.
    Shape(ShapeError),
    /// The proof's length is not the one that `k` determines, so no
    /// cryptographic check is needed to reject it.
    ProofLength,
}

/// Whether `k` lies in the scheme's interval of difficulty parameters.
pub open spec fn k_in_range(k: u8) -> bool {
    MIN_K <= k <= MAX_K
}

/// The one proof length that is accepted for difficulty `k`.
pub open spec fn expected_proof_len(k: u8) -> nat {
    (PROOF_BYTES_PER_K * k) as nat
}

/// The first shape check, in order, that the given lengths and `k` fail.
pub open spec fn shape_error_of(seed_len: nat, k: u8, challenge_len: nat, proof_len: nat) -> Option<
    ShapeError,
> {
    if seed_len != SEED_LEN {
        Some(ShapeError::SeedLength)
    } else if challenge_len != CHALLENGE_LEN {
        Some(ShapeError::ChallengeLength)
    } else if !k_in_range(k) {
        Some(ShapeError::KOutOfRange)
    } else if proof_len > MAX_WIRE_LEN {
        Some(ShapeError::ProofTooLong)
    } else {
        None
    }
}

/// What the guard decides for a call: the proof length to put on the wire,
/// or the reason the verifier must not be invoked.
pub open spec fn admission(seed_len: nat, k: u8, challenge_len: nat, proof_len: nat) -> Result<
    u16,
    Failure,
> {
    match shape_error_of(seed_len, k, challenge_len, proof_len) {
        Some(e) => Err(Failure::Shape(e)),
        None => if proof_len != expected_proof_len(k) {
            Err(Failure::ProofLength)
        } else {
            Ok(proof_len as u16)
        },
    }
}

/// Whether the guard lets a call through to the verifier.
pub open spec fn passes_guard(seed: Seq<u8>, k: u8, challenge: Seq<u8>, proof: Seq<u8>) -> bool {
    admission(seed.len(), k, challenge.len(), proof.len()) is Ok
}

/// Whether `k` lies in the scheme's interval of difficulty parameters.
pub fn is_valid_k(k: u8) -> (r: bool)
    ensures
        r == k_in_range(k),
{
    MIN_K <= k && k <= MAX_K
}

/// Checks the seed, the challenge, `k` and the proof's length, in that order.
/// On success returns the proof length as the verifier's 16-bit length field;
/// an oversized proof is rejected, never truncated.
pub fn check_shape(seed: &[u8], k: u8, challenge: &[u8], proof: &[u8]) -> (r: Result<u16, ShapeError>)
    ensures
        r == (match shape_error_of(seed@.len(), k, challenge@.len(), proof@.len()) {
            Some(e) => Err(e),
            None => Ok(proof@.len() as u16),
        }),
        r is Ok ==> r->Ok_0 as nat == proof@.len(),
{
    if seed.len() != SEED_LEN {
        Err(ShapeError::SeedLength)
    } else if challenge.len() != CHALLENGE_LEN {
        Err(ShapeError::ChallengeLength)
    } else if !is_valid_k(k) {
        Err(ShapeError::KOutOfRange)
    } else if proof.len() > MAX_WIRE_LEN {
        Err(ShapeError::ProofTooLong)
    } else {
        Ok(proof.len() as u16)
    }
}

/// The proof length that difficulty `k` calls for.
pub fn proof_len_for(k: u8) -> (r: usize)
    ensures
        r as nat == expected_proof_len(k),
{
    PROOF_BYTES_PER_K * (k as usize)
}

/// Decides whether a call may reach the verifier: the shape checks of
/// `check_shape`, then the proof length that `k` determines.
pub fn screen(seed: &[u8], k: u8, challenge: &[u8], proof: &[u8]) -> (r: Result<u16, Failure>)
    ensures
        r == admission(seed@.len(), k, challenge@.len(), proof@.len()),
        r is Ok ==> r->Ok_0 as nat == proof@.len(),
{
    match check_shape(seed, k, challenge, proof) {
        Err(e) => Err(Failure::Shape(e)),
        Ok(len) => if proof.len() != proof_len_for(k) {
            Err(Failure::ProofLength)
        } else {
            Ok(len)
        },
    }
}

} // verus!
