//! Aggregation of independent trial outcomes into an empirical count.

use vstd::prelude::*;
use crate::geom::{Vec3, SCALE};
use crate::orient::{is_in_tetrahedron, origin_in_tetra_spec};

verus! {

/// A running tally of Monte Carlo trials: how many have been run, and how
/// many of them succeeded (the origin lay inside the sampled tetrahedron).
#[derive(Clone, Copy, PartialEq, Eq, Structural, Debug)]
pub struct Accumulator {
    pub hits: u64,
    pub trials: u64,
}

impl Accumulator {
    /// There can be no more successes than trials.
    pub open spec fn wf(self) -> bool {
        self.hits <= self.trials
    }

    /// A fresh tally: nothing run, nothing hit.
    pub fn new() -> (r: Accumulator)
        ensures
            r.hits == 0,
            r.trials == 0,
            r.wf(),
    {
        Accumulator { hits: 0, trials: 0 }
    }

    /// Records the outcome of one trial: the trial count always grows by
    /// one, the hit count exactly when the trial succeeded.
    pub fn record(&mut self, hit: bool)
        requires
            old(self).wf(),
            old(self).trials < u64::MAX,
        ensures
            final(self).trials == old(self).trials + 1,
            final(self).hits == old(self).hits + (if hit { 1int } else { 0int }),
            final(self).wf(),
    {
        self.trials = self.trials + 1;
        if hit {
            self.hits = self.hits + 1;
        }
    }

    /// Runs one trial on four already-sampled vertices: tests whether the
    /// tetrahedron they span contains the origin, and records the outcome.
    pub fn run_trial(&mut self, p0: Vec3, p1: Vec3, p2: Vec3, p3: Vec3)
        requires
            old(self).wf(),
            old(self).trials < u64::MAX,
            p0.in_bounds(),
            p1.in_bounds(),
            p2.in_bounds(),
            p3.in_bounds(),
        ensures
            final(self).trials == old(self).trials + 1,
            final(self).hits == old(self).hits
                + (if origin_in_tetra_spec(p0, p1, p2, p3) { 1int } else { 0int }),
            final(self).wf(),
    {
        let hit = is_in_tetrahedron(p0, p1, p2, p3);
        self.record(hit);
    }

    /// The empirical probability as a fixed-point number: the floor of
    /// `hits / trials`, scaled by `SCALE`.  For the full experiment this
    /// converges towards `SCALE / 8 = 125_000`.
    pub fn estimate_fixed(&self) -> (r: u64)
        requires
            self.wf(),
            self.trials > 0,
            self.hits * SCALE <= u64::MAX,
        ensures
            r == (self.hits * SCALE) / (self.trials as int),
    {
        (self.hits * (SCALE as u64)) / self.trials
    }
}

} // verus!
