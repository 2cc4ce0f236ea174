//! Verification boundary for proofs of space: a guard that rejects
//! malformed inputs before the native verifier is touched, fail-closed
//! completion of a call that writes its quality into a caller's buffer,
//! and the ownership protocol for a call whose result buffer is allocated
//! by the verifier and released by the caller.
pub mod guard;
pub mod quality;
pub mod transfer;
