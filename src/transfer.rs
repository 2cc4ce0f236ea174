//! The returned-buffer result: the verifier hands back a descriptor of a
//! buffer it allocated, or a null marker. The decisions of a call are a
//! state machine; the host performs each action it asks for (invoke the
//! verifier, copy the buffer out, release it) and reports what happened.
//! The machine asks for a release only after the bytes were copied out,
//! once per successful call and never on a failed one.
use vstd::prelude::*;
use crate::guard::{admission, screen};

verus! {

/// Where a call stands.
#[derive(Clone, Copy, Debug, PartialEq, Eq, Structural)]
pub enum Phase {
    /// The verifier has been asked; its answer is awaited.
    Invoking,
    /// The verifier returned a descriptor; its bytes must be copied out.
    Holding,
    /// The bytes were copied out; the descriptor must be released.
    Releasing,
    /// The call ended with a quality.
    Succeeded,
    /// The call ended without one; no descriptor ever existed.
    Failed,
}

/// What the host must do next.
#[derive(Clone, Copy, Debug, PartialEq, Eq, Structural)]
pub enum Action {
    /// Invoke the verifier, with this proof length in its length field.
    Invoke { proof_len: u16 },
    /// Copy the descriptor's bytes into a container of the caller's.
    CopyOut,
    /// Release the descriptor, exactly once.
    Release,
    /// The call is over: take its outcome.
    Finish,
    /// The event did not fit the phase; nothing is to be done for it.
    Ignore,
}

/// What the host reports back.
pub enum Event {
    /// The verifier returned: `present` is false for the null marker.
    Returned { present: bool },
    /// The descriptor's bytes, copied out.
    Copied(Vec<u8>),
    /// The descriptor was released.
    Released,
}

/// The model of an `Event`.
pub enum Signal {
    /// The verifier returned a descriptor (`true`) or the null marker.
    Returned(bool),
    /// These bytes were copied out of the descriptor.
    Copied(Seq<u8>),
    /// The descriptor was released.
    Released,
}

impl View for Event {
    type V = Signal;

    open spec fn view(&self) -> Signal {
        match self {
            Event::Returned { present } => Signal::Returned(*present),
            Event::Copied(b) => Signal::Copied(b@),
            Event::Released => Signal::Released,
        }
    }
}

/// The model of a `Transfer`: its phase and the bytes copied out so far.
pub struct TransferModel {
    pub phase: Phase,
    pub held: Seq<u8>,
}

/// The state of one call of the returned-buffer shape.
pub struct Transfer {
    phase: Phase,
    held: Vec<u8>,
}

impl View for Transfer {
    type V = TransferModel;

    closed spec fn view(&self) -> TransferModel {
        TransferModel { phase: self.phase, held: self.held@ }
    }
}

/// The state and first action of a call: the verifier is invoked only when
/// the guard lets the call through.
pub open spec fn begin_model(seed: Seq<u8>, k: u8, challenge: Seq<u8>, proof: Seq<u8>) -> (
    TransferModel,
    Action,
) {
    match admission(seed.len(), k, challenge.len(), proof.len()) {
        Ok(n) => (TransferModel { phase: Phase::Invoking, held: Seq::empty() }, Action::Invoke { proof_len: n }),
        Err(_) => (TransferModel { phase: Phase::Failed, held: Seq::empty() }, Action::Finish),
    }
}

/// One transition: the next state and action after an event.
pub open spec fn step_model(m: TransferModel, s: Signal) -> (TransferModel, Action) {
    match (m.phase, s) {
        (Phase::Invoking, Signal::Returned(true)) => (TransferModel { phase: Phase::Holding, ..m }, Action::CopyOut),
        (Phase::Invoking, Signal::Returned(false)) => (TransferModel { phase: Phase::Failed, ..m }, Action::Finish),
        (Phase::Holding, Signal::Copied(b)) => (TransferModel { phase: Phase::Releasing, held: b }, Action::Release),
        (Phase::Releasing, Signal::Released) => (TransferModel { phase: Phase::Succeeded, ..m }, Action::Finish),
        _ => (m, Action::Ignore),
    }
}

/// The state reached and the actions asked for when events are fed in order.
pub open spec fn run(m: TransferModel, sigs: Seq<Signal>) -> (TransferModel, Seq<Action>)
    decreases sigs.len(),
{
    if sigs.len() == 0 {
        (m, Seq::empty())
    } else {
        let (m1, a) = step_model(m, sigs[0]);
        let (m2, rest) = run(m1, sigs.subrange(1, sigs.len() as int));
        (m2, seq![a] + rest)
    }
}

/// How many releases a sequence of actions asks for.
pub open spec fn releases(acts: Seq<Action>) -> nat
    decreases acts.len(),
{
    if acts.len() == 0 {
        0
    } else {
        (if acts[0] == Action::Release { 1nat } else { 0nat }) + releases(acts.subrange(1, acts.len() as int))
    }
}

/// 1 for a state reached after the release was asked for, else 0.
pub open spec fn release_issued(m: TransferModel) -> nat {
    match m.phase {
        Phase::Releasing | Phase::Succeeded => 1,
        _ => 0,
    }
}

proof fn lemma_releases_cons(a: Action, rest: Seq<Action>)
    ensures
        releases(seq![a] + rest) == (if a == Action::Release { 1nat } else { 0nat }) + releases(rest),
{
    let all = seq![a] + rest;
    assert(all.subrange(1, all.len() as int) =~= rest);
}

/// What any run of events does, from any state: one action per event; no
/// second invocation of the verifier; releases asked for exactly as the
/// state moves past the copy; each release answers the copy of the bytes
/// the run ends holding; and a failed call stays failed, asking nothing.
pub proof fn lemma_run(m: TransferModel, sigs: Seq<Signal>)
    ensures
        run(m, sigs).1.len() == sigs.len(),
        releases(run(m, sigs).1) + release_issued(m) == release_issued(run(m, sigs).0),
        release_issued(m) == 1 ==> run(m, sigs).0.held == m.held,
        forall|j: int| 0 <= j < sigs.len() ==> !(#[trigger] run(m, sigs).1[j] is Invoke),
        forall|j: int|
            0 <= j < sigs.len() && #[trigger] run(m, sigs).1[j] == Action::Release ==> sigs[j]
                == Signal::Copied(run(m, sigs).0.held),
        m.phase == Phase::Failed ==> run(m, sigs).0 == m && releases(run(m, sigs).1) == 0,
        m.phase == Phase::Failed ==> forall|j: int|
            0 <= j < sigs.len() ==> #[trigger] run(m, sigs).1[j] == Action::Ignore,
    decreases sigs.len(),
{
    if sigs.len() > 0 {
        let (m1, a) = step_model(m, sigs[0]);
        let tail = sigs.subrange(1, sigs.len() as int);
        lemma_run(m1, tail);
        let (mf, rest) = run(m1, tail);
        lemma_releases_cons(a, rest);
        assert(run(m, sigs) == (mf, seq![a] + rest));
        assert forall|j: int| 0 <= j < sigs.len() implies !(#[trigger] run(m, sigs).1[j] is Invoke) by {
            if j > 0 {
                assert(run(m, sigs).1[j] == rest[j - 1]);
            }
        }
        assert forall|j: int|
            0 <= j < sigs.len() && #[trigger] run(m, sigs).1[j] == Action::Release implies sigs[j]
                == Signal::Copied(run(m, sigs).0.held) by {
            if j > 0 {
                assert(run(m, sigs).1[j] == rest[j - 1]);
                assert(tail[j - 1] == sigs[j]);
            }
        }
        if m.phase == Phase::Failed {
            assert forall|j: int| 0 <= j < sigs.len() implies #[trigger] run(m, sigs).1[j]
                == Action::Ignore by {
                if j > 0 {
                    assert(run(m, sigs).1[j] == rest[j - 1]);
                }
            }
        }
    }
}

/// Ownership of the returned buffer, for any events reported after a call
/// begins: at most one release is ever asked for; a call that ends in
/// failure asks for none; one that ends in success asks for exactly one;
/// and every release is asked in answer to the copied bytes, which are
/// the bytes the call returns, so nothing is read after it is released.
pub proof fn lemma_release_exactly_once(
    seed: Seq<u8>,
    k: u8,
    challenge: Seq<u8>,
    proof: Seq<u8>,
    sigs: Seq<Signal>,
)
    ensures
        ({
            let (m0, a0) = begin_model(seed, k, challenge, proof);
            let (m, acts) = run(m0, sigs);
            &&& releases(seq![a0] + acts) <= 1
            &&& m.phase == Phase::Failed ==> releases(seq![a0] + acts) == 0
            &&& m.phase == Phase::Succeeded ==> releases(seq![a0] + acts) == 1
            &&& forall|j: int|
                0 <= j < sigs.len() && #[trigger] acts[j] == Action::Release ==> sigs[j]
                    == Signal::Copied(m.held)
        }),
{
    let (m0, a0) = begin_model(seed, k, challenge, proof);
    lemma_run(m0, sigs);
    lemma_releases_cons(a0, run(m0, sigs).1);
}

/// A call the guard rejects never reaches the verifier: its first action
/// is to finish, and whatever events follow, it stays failed and asks for
/// nothing, neither an invocation nor a release.
pub proof fn lemma_rejected_call_never_invokes(
    seed: Seq<u8>,
    k: u8,
    challenge: Seq<u8>,
    proof: Seq<u8>,
    sigs: Seq<Signal>,
)
    requires
        admission(seed.len(), k, challenge.len(), proof.len()) is Err,
    ensures
        ({
            let (m0, a0) = begin_model(seed, k, challenge, proof);
            let (m, acts) = run(m0, sigs);
            &&& a0 == Action::Finish
            &&& m.phase == Phase::Failed
            &&& forall|j: int| 0 <= j < sigs.len() ==> #[trigger] acts[j] == Action::Ignore
        }),
{
    let (m0, a0) = begin_model(seed, k, challenge, proof);
    lemma_run(m0, sigs);
}

impl Transfer {
    /// Starts a call: runs the guard, and asks for the verifier only if it
    /// lets the call through; otherwise the call has already failed.
    pub fn begin(seed: &[u8], k: u8, challenge: &[u8], proof: &[u8]) -> (r: (Transfer, Action))
        ensures
            (r.0@, r.1) == begin_model(seed@, k, challenge@, proof@),
    {
        match screen(seed, k, challenge, proof) {
            Ok(n) => (Transfer { phase: Phase::Invoking, held: Vec::new() }, Action::Invoke { proof_len: n }),
            Err(_) => (Transfer { phase: Phase::Failed, held: Vec::new() }, Action::Finish),
        }
    }

    /// Feeds one event; returns the next action.
    pub fn step(&mut self, e: Event) -> (a: Action)
        ensures
            (final(self)@, a) == step_model(old(self)@, e@),
    {
        match e {
            Event::Returned { present } => {
                if self.phase == Phase::Invoking {
                    if present {
                        self.phase = Phase::Holding;
                        Action::CopyOut
                    } else {
                        self.phase = Phase::Failed;
                        Action::Finish
                    }
                } else {
                    Action::Ignore
                }
            },
            Event::Copied(b) => {
                if self.phase == Phase::Holding {
                    self.phase = Phase::Releasing;
                    self.held = b;
                    Action::Release
                } else {
                    Action::Ignore
                }
            },
            Event::Released => {
                if self.phase == Phase::Releasing {
                    self.phase = Phase::Succeeded;
                    Action::Finish
                } else {
                    Action::Ignore
                }
            },
        }
    }

    /// Where the call stands.
    pub fn phase(&self) -> (r: Phase)
        ensures
            r == self@.phase,
    {
        self.phase
    }

    /// The outcome: the copied bytes if the call succeeded, else `None`.
    pub fn into_outcome(self) -> (r: Option<Vec<u8>>)
        ensures
            r is Some <==> self@.phase == Phase::Succeeded,
            r is Some ==> r->0@ == self@.held,
    {
        if self.phase == Phase::Succeeded {
            Some(self.held)
        } else {
            None
        }
    }
}

} // verus!
