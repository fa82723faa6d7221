//! The lifecycle rules of a wrapper.
//!
//! A wrapped value is a cooperative, single-step-resumable computation: an
//! external scheduler repeatedly polls it until it ends with a value or by
//! panicking. This module models one computation's observable behaviour —
//! a fixed number of suspensions, then its end — together with the counters
//! that make resource handling observable, and a wrapper whose poll and
//! destruction do nothing but forward. The laws proved here are the
//! lifecycle guarantees: forwarding is transparent, destruction releases
//! exactly once, and a panic releases the computation's resources before it
//! propagates.

use vstd::prelude::*;

verus! {

/// How a computation ends once its suspensions are exhausted.
#[derive(Clone, Copy, Debug, PartialEq, Eq, Structural)]
pub enum Outcome {
    Value(u64),
    Panics,
}

/// What one poll observes.
#[derive(Clone, Copy, Debug, PartialEq, Eq, Structural)]
pub enum Polled {
    Pending,
    Ready(u64),
    Panicked,
}

/// The phase of a computation's storage: live and resumable, finished with
/// a value, poisoned by a panic, or released by its destructor.
#[derive(Clone, Copy, Debug, PartialEq, Eq, Structural)]
pub enum Phase {
    Live,
    Finished,
    Poisoned,
    Released,
}

/// The observable behaviour of one suspendable computation: how many polls
/// return pending before the end, how it ends, and two effect counters —
/// completion effects and resource-release effects — through which the
/// lifecycle guarantees can be observed.
#[derive(Clone, Copy, Debug, PartialEq, Eq, Structural)]
pub struct Computation {
    pub pending_left: u64,
    pub outcome: Outcome,
    pub phase: Phase,
    pub completions: u64,
    pub releases: u64,
}

/// The phase invariant: each effect fires at most once, and only on the
/// transition that owes it.
pub open spec fn wf(c: Computation) -> bool {
    match c.phase {
        Phase::Live => c.releases == 0 && c.completions == 0,
        Phase::Finished => c.releases == 0 && c.completions == 1,
        Phase::Poisoned => c.releases == 1 && c.completions == 0,
        Phase::Released => c.releases + c.completions == 1,
    }
}

/// One poll of a live computation: a suspension is consumed, or the
/// computation ends. Ending with a value fires the completion effect;
/// ending by panic releases the computation's resources — its locals are
/// dropped during the unwind — before the panic leaves the poll.
pub open spec fn spec_poll(c: Computation) -> (Computation, Polled) {
    if c.pending_left > 0 {
        (
            Computation {
                pending_left: (c.pending_left - 1) as u64,
                outcome: c.outcome,
                phase: c.phase,
                completions: c.completions,
                releases: c.releases,
            },
            Polled::Pending,
        )
    } else {
        match c.outcome {
            Outcome::Value(v) => (
                Computation {
                    pending_left: 0,
                    outcome: c.outcome,
                    phase: Phase::Finished,
                    completions: (c.completions + 1) as u64,
                    releases: c.releases,
                },
                Polled::Ready(v),
            ),
            Outcome::Panics => (
                Computation {
                    pending_left: 0,
                    outcome: c.outcome,
                    phase: Phase::Poisoned,
                    completions: c.completions,
                    releases: (c.releases + 1) as u64,
                },
                Polled::Panicked,
            ),
        }
    }
}

/// Destruction of a computation that was not already released: a live one
/// has its resources released now; a finished or poisoned one holds none
/// any more, so nothing fires again.
pub open spec fn spec_release(c: Computation) -> Computation {
    Computation {
        pending_left: c.pending_left,
        outcome: c.outcome,
        phase: Phase::Released,
        completions: c.completions,
        releases: if c.phase is Live {
            (c.releases + 1) as u64
        } else {
            c.releases
        },
    }
}

/// Whether destruction may still run: once released, never again.
pub open spec fn can_release(c: Computation) -> bool {
    !(c.phase is Released)
}

impl Computation {
    /// A fresh computation: so many suspensions, then that end; no effect
    /// has fired.
    pub fn new(pending: u64, outcome: Outcome) -> (r: Computation)
        ensures
            r == (Computation {
                pending_left: pending,
                outcome,
                phase: Phase::Live,
                completions: 0,
                releases: 0,
            }),
            wf(r),
    {
        Computation { pending_left: pending, outcome, phase: Phase::Live, completions: 0, releases: 0 }
    }

    /// One poll, directly on the computation.
    pub fn poll_step(&mut self) -> (r: Polled)
        requires
            old(self).phase is Live,
            wf(*old(self)),
        ensures
            (*final(self), r) == spec_poll(*old(self)),
            wf(*final(self)),
    {
        if self.pending_left > 0 {
            self.pending_left = self.pending_left - 1;
            Polled::Pending
        } else {
            match self.outcome {
                Outcome::Value(v) => {
                    self.phase = Phase::Finished;
                    self.completions = self.completions + 1;
                    Polled::Ready(v)
                },
                Outcome::Panics => {
                    self.phase = Phase::Poisoned;
                    self.releases = self.releases + 1;
                    Polled::Panicked
                },
            }
        }
    }

    /// Destruction, directly on the computation.
    pub fn release(&mut self)
        requires
            can_release(*old(self)),
            wf(*old(self)),
        ensures
            *final(self) == spec_release(*old(self)),
            wf(*final(self)),
    {
        match self.phase {
            Phase::Live => {
                self.releases = self.releases + 1;
            },
            _ => {},
        }
        self.phase = Phase::Released;
    }
}

/// The named wrapper around one computation. The storage is exclusively
/// owned: nothing reads or writes it but the forwarded operations below.
pub struct Wrapper {
    inner: Computation,
}

impl Wrapper {
    /// The computation held in the wrapper's storage.
    pub closed spec fn inner(self) -> Computation {
        self.inner
    }

    /// Construction: the generator's computation moves into the storage
    /// unchanged, exactly once.
    pub fn new(c: Computation) -> (r: Wrapper)
        ensures
            r.inner() == c,
    {
        Wrapper { inner: c }
    }

    /// Poll forwarding: reinterpret the storage as the computation and poll
    /// it — one forwarded operation, nothing else.
    pub fn poll(&mut self) -> (r: Polled)
        requires
            old(self).inner().phase is Live,
            wf(old(self).inner()),
        ensures
            (final(self).inner(), r) == spec_poll(old(self).inner()),
            wf(final(self).inner()),
    {
        self.inner.poll_step()
    }

    /// Destruction forwarding: reinterpret the storage as the computation
    /// and run its destruction in place — once, and never after.
    pub fn dispose(&mut self)
        requires
            can_release(old(self).inner()),
            wf(old(self).inner()),
        ensures
            final(self).inner() == spec_release(old(self).inner()),
            wf(final(self).inner()),
    {
        self.inner.release()
    }

    /// How often a destruction effect has fired.
    pub fn releases(&self) -> (r: u64)
        ensures
            r == self.inner().releases,
    {
        self.inner.releases
    }

    /// How often a completion effect has fired.
    pub fn completions(&self) -> (r: u64)
        ensures
            r == self.inner().completions,
    {
        self.inner.completions
    }

    /// Whether the wrapped computation is still live and resumable.
    pub fn is_live(&self) -> (r: bool)
        ensures
            r == (self.inner().phase is Live),
    {
        match self.inner.phase {
            Phase::Live => true,
            _ => false,
        }
    }
}

/// The trace of driving a computation directly: up to `fuel` polls, stopping
/// when it is no longer live; the observations in order, and the final
/// state.
pub open spec fn spec_drive(c: Computation, fuel: nat) -> (Seq<Polled>, Computation)
    decreases fuel,
{
    if fuel == 0 || !(c.phase is Live) {
        (Seq::empty(), c)
    } else {
        let (c2, r) = spec_poll(c);
        let (rest, cf) = spec_drive(c2, (fuel - 1) as nat);
        (seq![r] + rest, cf)
    }
}

/// The trace of driving a wrapper: the same, but every poll goes through
/// the forwarding operation.
pub closed spec fn spec_drive_wrapper(w: Wrapper, fuel: nat) -> (Seq<Polled>, Wrapper)
    decreases fuel,
{
    if fuel == 0 || !(w.inner().phase is Live) {
        (Seq::empty(), w)
    } else {
        let (c2, r) = spec_poll(w.inner());
        let (rest, wf_) = spec_drive_wrapper(Wrapper { inner: c2 }, (fuel - 1) as nat);
        (seq![r] + rest, wf_)
    }
}

/// Behavioral transparency: for any computation and any number of polls,
/// driving the wrapper yields exactly the observations of driving the
/// computation directly, and leaves exactly the directly-driven state in
/// the storage.
pub proof fn lemma_behavioral_transparency(w: Wrapper, fuel: nat)
    ensures
        spec_drive_wrapper(w, fuel).0 == spec_drive(w.inner(), fuel).0,
        spec_drive_wrapper(w, fuel).1.inner() == spec_drive(w.inner(), fuel).1,
    decreases fuel,
{
    if fuel != 0 && w.inner().phase is Live {
        let (c2, _) = spec_poll(w.inner());
        lemma_behavioral_transparency(Wrapper { inner: c2 }, (fuel - 1) as nat);
    }
}

/// Drop exactly once: a wrapper discarded while its computation is still
/// live fires the destruction effect exactly once, fires no completion
/// effect, and cannot be released a second time.
pub proof fn lemma_drop_exactly_once(c: Computation)
    requires
        c.phase is Live,
        wf(c),
    ensures
        spec_release(c).releases == 1,
        spec_release(c).completions == 0,
        !can_release(spec_release(c)),
{
}

/// Panic safety: when the computation panics instead of completing, the
/// poll that observes the panic releases the computation's resources before
/// the panic propagates — and the wrapper's own destruction, run during the
/// unwind, releases nothing a second time.
pub proof fn lemma_panic_safety(c: Computation)
    requires
        c.phase is Live,
        wf(c),
        c.pending_left == 0,
        c.outcome is Panics,
    ensures
        spec_poll(c).1 is Panicked,
        spec_poll(c).0.releases == 1,
        spec_release(spec_poll(c).0).releases == 1,
        spec_release(spec_poll(c).0).completions == 0,
{
}

} // verus!
