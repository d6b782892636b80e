//! Orbit estimation orchestration.
//!
//! The orchestrator walks the trajectories of a set in insertion order and
//! hands each one to a caller-supplied solver, polling a caller-supplied
//! cancellation signal once before every trajectory. Each trajectory's
//! outcome is recorded independently: one solve's failure never disturbs
//! its siblings, and a cancelled run returns exactly the entries of the
//! already-finished prefix, in order, with the remaining trajectories
//! absent altogether. A signal that never cancels yields exactly one entry
//! per submitted trajectory, and a signal scripted to cancel after a known
//! number of polls yields exactly that many entries.
//!
//! One pseudo-random generator is created per run, seeded from the given
//! seed when one is provided (the same seed gives the same generator
//! state), otherwise from operating-system entropy.

use vstd::prelude::*;

use rand::SeedableRng;

use crate::errors::EstimationError;
use crate::iod_gauss::GaussResult;
use crate::observations::Observation;
use crate::trajectories::{ObjectNumber, TrajectorySet};

verus! {

/// The outcome recorded for one trajectory: a solved orbit with the bit
/// pattern of its residual RMS, or the estimation failure that trajectory
/// ran into.
pub type TrajectoryOutcome = Result<(GaussResult, u64), EstimationError>;

/// The external Gauss-method solver, as the orchestrator consumes it: one
/// call per trajectory, free to advance the run's generator. Implementors
/// bridge to the numerical engine; nothing about the outcome is assumed
/// here.
pub trait OrbitSolver {
    fn solve(
        &mut self,
        rng: &mut rand::rngs::StdRng,
        object: &ObjectNumber,
        observations: &crate::observations::Observations,
    ) -> TrajectoryOutcome;
}

/// A cooperative cancellation signal, polled once before each trajectory.
///
/// The two spec functions model what is statically known of a signal's
/// answers; their defaults claim nothing, so a signal decided outside (an
/// interrupt flag, a timer) implements only the poll and keeps them.
pub trait CancelSignal {
    /// Whether this signal is known never to request cancellation.
    open spec fn never_cancels(&self) -> bool {
        false
    }

    /// How many polls this signal will still answer negatively before it
    /// requests cancellation, where that count is statically known.
    open spec fn scripted_remaining(&self) -> Option<nat> {
        None
    }

    /// Poll the signal once, before one trajectory.
    fn should_cancel(&mut self) -> (r: bool)
        ensures
            old(self).never_cancels() ==> !r && final(self).never_cancels(),
            match old(self).scripted_remaining() {
                Some(c) => if c == 0 {
                    r
                } else {
                    !r && final(self).scripted_remaining() == Some((c - 1) as nat)
                },
                None => true,
            },
    ;
}

/// A signal that never requests cancellation.
pub struct NeverCancel;

impl CancelSignal for NeverCancel {
    open spec fn never_cancels(&self) -> bool {
        true
    }

    fn should_cancel(&mut self) -> (r: bool) {
        false
    }
}

/// A signal that answers negatively a fixed number of times and then
/// requests cancellation: a run polls it once per trajectory, so exactly
/// `remaining` trajectories are processed when at least that many are
/// submitted.
pub struct CancelAfter {
    pub remaining: usize,
}

impl CancelSignal for CancelAfter {
    open spec fn scripted_remaining(&self) -> Option<nat> {
        Some(self.remaining as nat)
    }

    fn should_cancel(&mut self) -> (r: bool) {
        if self.remaining == 0 {
            true
        } else {
            self.remaining = self.remaining - 1;
            false
        }
    }
}

/// The per-trajectory outcomes of one orchestrator run, one entry per
/// processed trajectory, in processing order.
pub struct FullOrbitResult {
    pub entries: Vec<(ObjectNumber, TrajectoryOutcome)>,
}

impl FullOrbitResult {
    /// Number of trajectories accounted for in this run.
    pub fn len(&self) -> (r: usize)
        ensures
            r == self.entries@.len(),
    {
        self.entries.len()
    }

    /// The identifier and outcome recorded at a position of the run.
    pub fn entry(&self, i: usize) -> (r: &(ObjectNumber, TrajectoryOutcome))
        requires
            i < self.entries@.len(),
        ensures
            r == self.entries@[i as int],
    {
        &self.entries[i]
    }
}

/// Whether `entries` is a run over the first trajectories of `trajs`: one
/// entry per processed trajectory, keyed by its identifier, in order, with
/// the unprocessed tail absent.
pub open spec fn is_prefix_run(
    entries: Seq<(ObjectNumber, TrajectoryOutcome)>,
    trajs: Seq<(u32, Seq<Observation>)>,
) -> bool {
    &&& entries.len() <= trajs.len()
    &&& forall|i: int|
        0 <= i < entries.len() ==> (#[trigger] entries[i]).0 == ObjectNumber::Int(trajs[i].0)
}

/// The entries a sequential run produces when it processes the first `k`
/// trajectories of `trajs` and the solver returns `outcomes[i]` for the
/// trajectory at position `i`: one entry per processed trajectory, keyed by
/// its identifier, in processing order.
pub open spec fn planned_entries(
    trajs: Seq<(u32, Seq<Observation>)>,
    outcomes: Seq<TrajectoryOutcome>,
    k: int,
) -> Seq<(ObjectNumber, TrajectoryOutcome)> {
    Seq::new(k as nat, |i: int| (ObjectNumber::Int(trajs[i].0), outcomes[i]))
}

/// Cancelling after `k` trajectories changes nothing about those `k`: the
/// run that stops there returns exactly the first `k` entries of the run
/// that finishes, given the same trajectory order and the same
/// per-trajectory outcomes.
pub proof fn lemma_cancellation_yields_prefix(
    trajs: Seq<(u32, Seq<Observation>)>,
    outcomes: Seq<TrajectoryOutcome>,
    k: int,
)
    requires
        0 <= k <= trajs.len(),
    ensures
        planned_entries(trajs, outcomes, k) == planned_entries(
            trajs,
            outcomes,
            trajs.len() as int,
        ).take(k),
{
    assert(planned_entries(trajs, outcomes, k) =~= planned_entries(
        trajs,
        outcomes,
        trajs.len() as int,
    ).take(k));
}

/// Relies on rand's `SeedableRng::seed_from_u64` for `StdRng`: builds the
/// generator deterministically from the seed.
#[verifier::external_body]
fn rng_from_seed(seed: u64) -> rand::rngs::StdRng {
    rand::rngs::StdRng::seed_from_u64(seed)
}

/// Relies on rand's `SeedableRng::from_os_rng` for `StdRng`: seeds the
/// generator from operating-system entropy; nothing is promised of the
/// result.
#[verifier::external_body]
fn rng_from_entropy() -> rand::rngs::StdRng {
    rand::rngs::StdRng::from_os_rng()
}

/// The generator type of the run, carried opaquely through the orchestrator
/// and advanced only by the solver.
#[verifier::external_type_specification]
#[verifier::external_body]
pub struct ExStdRng(rand::rngs::StdRng);

impl TrajectorySet {
    /// Estimate an orbit for every trajectory of the set, sequentially and
    /// cooperatively cancellable.
    ///
    /// Trajectories are processed in the set's insertion order, with the
    /// cancellation signal polled once before each one; a positive poll
    /// stops the run, and the trajectories not yet processed are then
    /// absent from the result altogether. The result is a keyed prefix of
    /// the set: one entry per processed trajectory, in order, whatever each
    /// solve returned — a failing solve yields its error entry and leaves
    /// its siblings untouched. A signal that never cancels accounts for
    /// every submitted trajectory exactly once, and a signal scripted to
    /// cancel after `k` polls yields exactly the first `k` entries, so by
    /// [`lemma_cancellation_yields_prefix`] a cancelled run is the
    /// untouched prefix of a finished one over the same outcomes.
    pub fn estimate_all_orbits<S: OrbitSolver, C: CancelSignal>(
        &self,
        solver: &mut S,
        seed: Option<u64>,
        cancel: &mut C,
    ) -> (r: FullOrbitResult)
        ensures
            is_prefix_run(r.entries@, self@),
            old(cancel).never_cancels() ==> r.entries@.len() == self@.len(),
            match old(cancel).scripted_remaining() {
                Some(k) => r.entries@.len() == (if k < self@.len() {
                    k
                } else {
                    self@.len()
                }),
                None => true,
            },
    {
        let mut rng: rand::rngs::StdRng = match seed {
            Some(s) => rng_from_seed(s),
            None => rng_from_entropy(),
        };
        let n = self.number_of_trajectories();
        let mut entries: Vec<(ObjectNumber, TrajectoryOutcome)> = Vec::new();
        let mut i: usize = 0;
        let mut cancelled: bool = false;
        while i < n && !cancelled
            invariant
                n == self@.len(),
                i <= n,
                entries@.len() == i,
                forall|m: int|
                    0 <= m < i ==> (#[trigger] entries@[m]).0 == ObjectNumber::Int(self@[m].0),
                old(cancel).never_cancels() ==> !cancelled && cancel.never_cancels(),
                match old(cancel).scripted_remaining() {
                    Some(k) => if cancelled {
                        i == k
                    } else {
                        i <= k && cancel.scripted_remaining() == Some((k - i) as nat)
                    },
                    None => true,
                },
            decreases n - i + (if cancelled {
                0int
            } else {
                1int
            }),
        {
            if cancel.should_cancel() {
                cancelled = true;
            } else {
                let t = self.trajectory(i);
                let object = t.object();
                let outcome = solver.solve(&mut rng, &object, t.observations());
                entries.push((object, outcome));
                i = i + 1;
            }
        }
        FullOrbitResult { entries }
    }
}

} // verus!
