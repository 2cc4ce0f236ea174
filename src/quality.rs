//! The fixed-digest result: the verifier writes a 32-byte quality into a
//! caller-provided location and reports success with a flag. On any failure
//! the location is left all-zero.
use vstd::prelude::*;
use crate::guard::{k_in_range, passes_guard, Failure, CHALLENGE_LEN, MAX_WIRE_LEN, SEED_LEN};

verus! {

/// Length in bytes of a quality digest.
pub const QUALITY_LEN: usize = 32;

/// The all-zero quality, left behind by every failing call.
pub open spec fn zero_quality() -> Seq<u8> {
    Seq::new(QUALITY_LEN as nat, |i: int| 0u8)
}

/// Whether a whole call succeeds: the guard lets it through and the
/// verifier, invoked on it, reports the proof valid.
pub open spec fn call_succeeds(
    seed: Seq<u8>,
    k: u8,
    challenge: Seq<u8>,
    proof: Seq<u8>,
    verdict: bool,
) -> bool {
    passes_guard(seed, k, challenge, proof) && verdict
}

/// The quality a whole call leaves behind, given what the verifier reported.
pub open spec fn quality_after(
    seed: Seq<u8>,
    k: u8,
    challenge: Seq<u8>,
    proof: Seq<u8>,
    verdict: bool,
    digest: Seq<u8>,
) -> Seq<u8> {
    if call_succeeds(seed, k, challenge, proof, verdict) {
        digest
    } else {
        zero_quality()
    }
}

/// A call the guard rejects fails with an all-zero quality whatever the
/// verifier would have said: its answer is never consulted.
pub proof fn lemma_rejected_call_fails(
    seed: Seq<u8>,
    k: u8,
    challenge: Seq<u8>,
    proof: Seq<u8>,
    verdict: bool,
    digest: Seq<u8>,
)
    requires
        !passes_guard(seed, k, challenge, proof),
    ensures
        !call_succeeds(seed, k, challenge, proof, verdict),
        quality_after(seed, k, challenge, proof, verdict, digest) == zero_quality(),
{
}

/// A seed or a challenge that is not 32 bytes long makes the call fail,
/// with an all-zero quality.
pub proof fn lemma_wrong_seed_or_challenge_fails(
    seed: Seq<u8>,
    k: u8,
    challenge: Seq<u8>,
    proof: Seq<u8>,
    verdict: bool,
    digest: Seq<u8>,
)
    requires
        seed.len() != SEED_LEN || challenge.len() != CHALLENGE_LEN,
    ensures
        !call_succeeds(seed, k, challenge, proof, verdict),
        quality_after(seed, k, challenge, proof, verdict, digest) == zero_quality(),
{
}

/// A `k` outside the scheme's interval is rejected by the guard, so the
/// verifier is never invoked and the call fails with an all-zero quality.
pub proof fn lemma_k_out_of_range_fails(
    seed: Seq<u8>,
    k: u8,
    challenge: Seq<u8>,
    proof: Seq<u8>,
    verdict: bool,
    digest: Seq<u8>,
)
    requires
        !k_in_range(k),
    ensures
        !passes_guard(seed, k, challenge, proof),
        !call_succeeds(seed, k, challenge, proof, verdict),
        quality_after(seed, k, challenge, proof, verdict, digest) == zero_quality(),
{
}

/// A proof too long for the verifier's 16-bit length field is rejected by
/// the guard: the call fails, never with a truncated proof.
pub proof fn lemma_oversized_proof_fails(
    seed: Seq<u8>,
    k: u8,
    challenge: Seq<u8>,
    proof: Seq<u8>,
    verdict: bool,
    digest: Seq<u8>,
)
    requires
        proof.len() > MAX_WIRE_LEN,
    ensures
        !passes_guard(seed, k, challenge, proof),
        !call_succeeds(seed, k, challenge, proof, verdict),
        quality_after(seed, k, challenge, proof, verdict, digest) == zero_quality(),
{
}

/// An empty proof makes the call fail, whatever the seed, `k` and
/// challenge: no `k` of the scheme's interval calls for an empty proof.
pub proof fn lemma_empty_proof_fails(
    seed: Seq<u8>,
    k: u8,
    challenge: Seq<u8>,
    proof: Seq<u8>,
    verdict: bool,
    digest: Seq<u8>,
)
    requires
        proof.len() == 0,
    ensures
        !passes_guard(seed, k, challenge, proof),
        !call_succeeds(seed, k, challenge, proof, verdict),
        quality_after(seed, k, challenge, proof, verdict, digest) == zero_quality(),
{
}

/// A call holds no state: two calls on the same inputs, which the
/// verifier answers alike, return the same flag and leave the same quality.
pub proof fn lemma_calls_are_repeatable(
    seed: Seq<u8>,
    k: u8,
    challenge: Seq<u8>,
    proof: Seq<u8>,
    verdict: bool,
    digest: Seq<u8>,
    first: (bool, Seq<u8>),
    second: (bool, Seq<u8>),
)
    requires
        first.0 == call_succeeds(seed, k, challenge, proof, verdict),
        first.1 == quality_after(seed, k, challenge, proof, verdict, digest),
        second.0 == call_succeeds(seed, k, challenge, proof, verdict),
        second.1 == quality_after(seed, k, challenge, proof, verdict, digest),
    ensures
        first == second,
{
}

/// Sets every byte of `quality` to zero.
pub fn clear_quality(quality: &mut [u8; 32])
    ensures
        final(quality)@ == zero_quality(),
{
    let mut i: usize = 0;
    while i < QUALITY_LEN
        invariant
            0 <= i <= QUALITY_LEN,
            quality@.len() == QUALITY_LEN,
            forall|j: int| 0 <= j < i ==> quality@[j] == 0u8,
        decreases QUALITY_LEN - i,
    {
        quality[i] = 0u8;
        i = i + 1;
    }
    assert(quality@ =~= zero_quality());
}

/// Completes a call from the guard's decision and what the verifier
/// reported for it (`verdict` and `digest` are ignored when the guard
/// rejected the call, since the verifier was then never invoked).
/// Returns whether the call succeeded; `quality` then holds the digest,
/// and otherwise all zeros.
pub fn settle(
    screened: &Result<u16, Failure>,
    verdict: bool,
    digest: &[u8; 32],
    quality: &mut [u8; 32],
) -> (ok: bool)
    ensures
        ok == (*screened is Ok && verdict),
        ok ==> final(quality)@ == digest@,
        !ok ==> final(quality)@ == zero_quality(),
{
    if screened.is_ok() && verdict {
        let mut i: usize = 0;
        while i < QUALITY_LEN
            invariant
                0 <= i <= QUALITY_LEN,
                quality@.len() == QUALITY_LEN,
                digest@.len() == QUALITY_LEN,
                forall|j: int| 0 <= j < i ==> quality@[j] == digest@[j],
            decreases QUALITY_LEN - i,
        {
            quality[i] = digest[i];
            i = i + 1;
        }
        assert(quality@ =~= digest@);
        true
    } else {
        clear_quality(quality);
        false
    }
}

/// Completes a call of the fixed-digest shape from its inputs and what the
/// verifier reported. The guard's decision is taken again here, so a verdict
/// handed in for a call the guard rejects never yields success. The result
/// and the quality left behind are those of `call_succeeds` and
/// `quality_after`.
pub fn conclude(
    seed: &[u8],
    k: u8,
    challenge: &[u8],
    proof: &[u8],
    verdict: bool,
    digest: &[u8; 32],
    quality: &mut [u8; 32],
) -> (ok: bool)
    ensures
        ok == call_succeeds(seed@, k, challenge@, proof@, verdict),
        final(quality)@ == quality_after(seed@, k, challenge@, proof@, verdict, digest@),
{
    let screened = crate::guard::screen(seed, k, challenge, proof);
    settle(&screened, verdict, digest, quality)
}

} // verus!
