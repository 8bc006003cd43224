//! The Metropolis / simulated-annealing Monte Carlo engine.
//!
//! The engine owns the whole state of one run: the chain's current point and
//! energy, the temperature, the recorded trajectory, the accepted step
//! indices and the best point seen.  Per step it is fed, in the fixed order
//! the random source is consumed, the drawn coordinate index, the perturbed
//! coordinate's bit pattern, the trial energy's bit pattern, and — only
//! when the trial is not unconditionally accepted — the acceptance draw and
//! the acceptance probability as bit patterns.  Everything the engine then
//! decides and records is verified: the acceptance rule compares the draw
//! against the probability in exactly that operand order, the best is
//! updated on strict improvement only, and the run invariants (trajectory
//! lengths, strictly increasing accepted indices, single-coordinate moves,
//! the best being the first-reached minimum of the recorded energies, a
//! constant temperature while annealing is inactive) hold after every step.

use rand_chacha::ChaCha8Rng;
use vstd::prelude::*;

use crate::fbits::{
    approx_eq_2ulps, f64_approx_eq_2ulps, f64_lt_bits, f_eq, f_le, f_lt, is_nan_bits,
};
use crate::params::Params;
use crate::rng::rng_range_u32;

verus! {

/// The points a vector of coordinate vectors holds, as a sequence of
/// sequences of bit patterns.
pub open spec fn points_of(v: Vec<Vec<u64>>) -> Seq<Seq<u64>> {
    Seq::new(v@.len(), |i: int| v@[i]@)
}

/// The two points agree on every coordinate but possibly `i`.
pub open spec fn agree_except(a: Seq<u64>, b: Seq<u64>, i: int) -> bool {
    forall|j: int| 0 <= j < a.len() && j != i ==> a[j] == b[j]
}

/// The two points have the same dimension and differ in at most one
/// coordinate.
pub open spec fn differ_at_most_one(a: Seq<u64>, b: Seq<u64>) -> bool {
    &&& a.len() == b.len()
    &&& exists|i: int| 0 <= i < a.len() && #[trigger] agree_except(a, b, i)
}

/// Whether the acceptance draw fell below the acceptance probability, both
/// given as bit patterns; `None` stands for a step that needed no draw.
pub open spec fn metro_accepts(metro: Option<(u64, u64)>) -> bool {
    match metro {
        Some(dp) => f_lt(dp.0, dp.1),
        None => false,
    }
}

/// The Metropolis acceptance rule: a trial no worse than the current energy
/// is accepted unconditionally; otherwise the acceptance draw decides.
pub open spec fn spec_accept(trial_e: u64, cur_e: u64, metro: Option<(u64, u64)>) -> bool {
    f_le(trial_e, cur_e) || metro_accepts(metro)
}

/// State of one run.  All `u64` fields and elements except the step counts
/// and the seed are IEEE-754 binary64 bit patterns.  Consumers read the
/// fields freely but mutate the state only through its methods, which keep
/// `wf` standing.
pub struct McState {
    /// Number of steps this run will take.
    pub n_step: u64,
    /// Scale of a trial perturbation; carried for the proposer.
    pub x_delta: u64,
    /// Seed of the random source; carried for reproducibility records.
    pub seed: u64,
    /// Temperature at step 0.
    pub ini_temp: u64,
    /// Temperature the schedule converges to.
    pub final_temp: u64,
    /// Whether annealing is active: the two temperatures differ by more
    /// than the documented tolerance.
    pub anneal: bool,
    /// Current temperature.
    pub temperature: u64,
    /// The chain's current point.
    pub x_cur: Vec<u64>,
    /// The chain's current energy.
    pub energy: u64,
    /// Best point seen so far, over all evaluated trial points.
    pub x_best: Vec<u64>,
    /// Energy of the best point.
    pub e_best: u64,
    /// Where in the recorded trajectory the best was first reached.
    pub best_idx: Ghost<int>,
    /// Indices of the accepted steps, in order.
    pub accepted_steps: Vec<u64>,
    /// The recorded trajectory: entry `i` is the current point after
    /// processing step `i - 1`; entry 0 is the starting point.
    pub x_vals: Vec<Vec<u64>>,
    /// Energies parallel to `x_vals`.
    pub e_vals: Vec<u64>,
    /// Steps processed so far.
    pub steps_done: u64,
}

impl McState {
    /// Dimension of the search space.
    pub open spec fn dim(self) -> int {
        self.x_cur@.len() as int
    }

    /// The recorded trajectory as a sequence of points.
    pub open spec fn points(self) -> Seq<Seq<u64>> {
        points_of(self.x_vals)
    }

    /// The recorded energies.
    pub open spec fn energies(self) -> Seq<u64> {
        self.e_vals@
    }

    /// The accepted step indices.
    pub open spec fn accepted(self) -> Seq<u64> {
        self.accepted_steps@
    }

    /// The run invariants, re-established by every method.
    pub open spec fn wf(self) -> bool {
        &&& 1 <= self.dim() <= u32::MAX
        &&& 1 <= self.n_step
        &&& self.steps_done <= self.n_step
        &&& self.points().len() == self.steps_done + 1
        &&& self.energies().len() == self.steps_done + 1
        &&& forall|k: int|
            0 <= k < self.points().len() ==> (#[trigger] self.points()[k]).len() == self.dim()
        &&& self.points().last() == self.x_cur@
        &&& self.energies().last() == self.energy
        &&& self.x_best@.len() == self.dim()
        &&& forall|k: int|
            0 <= k < self.accepted().len() ==> #[trigger] self.accepted()[k] < self.steps_done
        &&& forall|k1: int, k2: int|
            #![trigger self.accepted()[k1], self.accepted()[k2]]
            0 <= k1 < k2 < self.accepted().len() ==> self.accepted()[k1] < self.accepted()[k2]
        &&& forall|k: int|
            0 <= k < self.energies().len() ==> !f_lt(#[trigger] self.energies()[k], self.e_best)
        &&& 0 <= self.best_idx@ < self.energies().len()
        &&& self.energies()[self.best_idx@] == self.e_best
        &&& self.points()[self.best_idx@] == self.x_best@
        &&& forall|k: int|
            0 <= k < self.best_idx@ ==> !f_eq(#[trigger] self.energies()[k], self.e_best)
        &&& (is_nan_bits(self.energy) ==> is_nan_bits(self.e_best))
        &&& forall|k: int|
            0 <= k && k + 1 < self.points().len() ==> differ_at_most_one(
                #[trigger] self.points()[k],
                self.points()[k + 1],
            )
        &&& self.anneal == !approx_eq_2ulps(self.ini_temp, self.final_temp)
        &&& (!self.anneal ==> self.temperature == self.ini_temp)
    }

    /// Starts a run from a validated configuration and the energy of its
    /// initial point, whose bit pattern the caller evaluates.
    pub fn new(params: &Params, e0: u64) -> (s: McState)
        requires
            params.wf(),
        ensures
            s.wf(),
            s.n_step == params.n_step,
            s.x_delta == params.x_delta,
            s.seed == params.seed,
            s.ini_temp == params.ini_temp,
            s.final_temp == params.final_temp,
            s.anneal == !approx_eq_2ulps(params.ini_temp, params.final_temp),
            s.temperature == params.ini_temp,
            s.x_cur@ == params.x_ini@,
            s.energy == e0,
            s.x_best@ == params.x_ini@,
            s.e_best == e0,
            s.accepted() == Seq::<u64>::empty(),
            s.points() == seq![params.x_ini@],
            s.energies() == seq![e0],
            s.steps_done == 0,
    {
        let anneal = !f64_approx_eq_2ulps(params.ini_temp, params.final_temp);
        let mut x_vals: Vec<Vec<u64>> = Vec::new();
        x_vals.push(copy_point(&params.x_ini));
        let mut e_vals: Vec<u64> = Vec::new();
        e_vals.push(e0);
        let s = McState {
            n_step: params.n_step,
            x_delta: params.x_delta,
            seed: params.seed,
            ini_temp: params.ini_temp,
            final_temp: params.final_temp,
            anneal,
            temperature: params.ini_temp,
            x_cur: copy_point(&params.x_ini),
            energy: e0,
            x_best: copy_point(&params.x_ini),
            e_best: e0,
            best_idx: Ghost(0),
            accepted_steps: Vec::new(),
            x_vals,
            e_vals,
            steps_done: 0,
        };
        proof {
            assert(s.points() =~= seq![params.x_ini@]);
            assert(s.energies() =~= seq![e0]);
            assert(s.accepted() =~= Seq::<u64>::empty());
        }
        s
    }

    /// Draws the index of the coordinate a trial will perturb, uniformly
    /// over the dimension.  This is the first draw of a step.
    pub fn propose_index(&self, rng: &mut ChaCha8Rng) -> (i: usize)
        requires
            self.wf(),
        ensures
            i < self.dim(),
    {
        let bound = self.x_cur.len() as u32;
        let i = rng_range_u32(rng, bound);
        i as usize
    }

    /// Processes one step: the trial point is the current point with
    /// coordinate `idim` replaced by `trial_coord`; on strict improvement
    /// over the best it becomes the new best; it is accepted
    /// unconditionally when its energy is no worse than the current one,
    /// and otherwise exactly when the acceptance draw lies below the
    /// acceptance probability (`metro` carries both as bit patterns, in
    /// that order); the chain's state after the step is recorded.
    ///
    /// The caller hands `metro` exactly when the trial is not
    /// unconditionally accepted, and the probability it hands for a NaN
    /// trial energy is itself NaN — as a comparison outcome, a draw below a
    /// NaN probability is impossible.
    pub fn step(
        &mut self,
        idim: usize,
        trial_coord: u64,
        trial_energy: u64,
        metro: Option<(u64, u64)>,
    )
        requires
            old(self).wf(),
            old(self).steps_done < old(self).n_step,
            idim < old(self).dim(),
            metro is None <==> f_le(trial_energy, old(self).energy),
            is_nan_bits(trial_energy) ==> !metro_accepts(metro),
        ensures
            final(self).wf(),
            final(self).steps_done == old(self).steps_done + 1,
            final(self).e_best == if f_lt(trial_energy, old(self).e_best) {
                trial_energy
            } else {
                old(self).e_best
            },
            final(self).x_best@ == if f_lt(trial_energy, old(self).e_best) {
                old(self).x_cur@.update(idim as int, trial_coord)
            } else {
                old(self).x_best@
            },
            final(self).energy == if spec_accept(trial_energy, old(self).energy, metro) {
                trial_energy
            } else {
                old(self).energy
            },
            final(self).x_cur@ == if spec_accept(trial_energy, old(self).energy, metro) {
                old(self).x_cur@.update(idim as int, trial_coord)
            } else {
                old(self).x_cur@
            },
            final(self).accepted() == if spec_accept(trial_energy, old(self).energy, metro) {
                old(self).accepted().push(old(self).steps_done)
            } else {
                old(self).accepted()
            },
            final(self).points() == old(self).points().push(final(self).x_cur@),
            final(self).energies() == old(self).energies().push(final(self).energy),
            final(self).n_step == old(self).n_step,
            final(self).x_delta == old(self).x_delta,
            final(self).seed == old(self).seed,
            final(self).ini_temp == old(self).ini_temp,
            final(self).final_temp == old(self).final_temp,
            final(self).anneal == old(self).anneal,
            final(self).temperature == old(self).temperature,
            final(self).e_best == old(self).e_best || f_lt(final(self).e_best, old(self).e_best),
    {
        let ghost o = *old(self);
        let ghost t = o.x_cur@.update(idim as int, trial_coord);

        let mut x_trial = copy_point(&self.x_cur);
        x_trial[idim] = trial_coord;
        proof {
            assert(x_trial@ =~= t);
        }

        // Best-point tracking: strict improvement only, so an energy tie
        // keeps the earlier best.
        let improved = f64_lt_bits(trial_energy, self.e_best);
        if improved {
            self.x_best = copy_point(&x_trial);
            self.e_best = trial_energy;
            self.best_idx = Ghost(o.energies().len() as int);
        }

        // The acceptance rule.  With `metro` present the trial was worse
        // than the current energy, and the draw decides.
        let accepted = match metro {
            None => true,
            Some((draw, prob)) => f64_lt_bits(draw, prob),
        };
        proof {
            assert(accepted == spec_accept(trial_energy, o.energy, metro));
            if improved {
                // An improving trial is always unconditionally accepted:
                // the best never exceeds the current energy.
                assert(!f_lt(o.energies()[o.energies().len() - 1], o.e_best));
                assert(f_le(trial_energy, o.energy));
            }
        }

        if accepted {
            self.x_cur = x_trial;
            self.energy = trial_energy;
            self.accepted_steps.push(self.steps_done);
        }
        let snapshot = copy_point(&self.x_cur);
        self.x_vals.push(snapshot);
        self.e_vals.push(self.energy);
        self.steps_done = self.steps_done + 1;

        proof {
            let n = *self;
            assert(n.points() =~= o.points().push(n.x_cur@));
            assert(n.energies() =~= o.energies().push(n.energy));
            if accepted {
                assert(n.accepted() =~= o.accepted().push(o.steps_done));
            } else {
                assert(n.accepted() =~= o.accepted());
            }

            // Accepted indices stay strictly increasing and in range.
            assert forall|k: int|
                0 <= k < n.accepted().len() implies #[trigger] n.accepted()[k]
                < n.steps_done by {
                if k < o.accepted().len() {
                    assert(o.accepted()[k] < o.steps_done);
                }
            }
            assert forall|k1: int, k2: int|
                #![trigger n.accepted()[k1], n.accepted()[k2]]
                0 <= k1 < k2 < n.accepted().len() implies n.accepted()[k1]
                < n.accepted()[k2] by {
                if k2 < o.accepted().len() {
                    assert(o.accepted()[k1] < o.accepted()[k2]);
                } else {
                    assert(o.accepted()[k1] < o.steps_done);
                }
            }

            // Every point keeps the dimension, and consecutive points
            // differ in at most one coordinate.
            assert forall|k: int|
                0 <= k < n.points().len() implies (#[trigger] n.points()[k]).len()
                == n.dim() by {
                if k < o.points().len() {
                    assert(o.points()[k].len() == o.dim());
                }
            }
            assert forall|k: int|
                0 <= k && k + 1 < n.points().len() implies differ_at_most_one(
                #[trigger] n.points()[k],
                n.points()[k + 1],
            ) by {
                if k + 1 < o.points().len() {
                    assert(differ_at_most_one(o.points()[k], o.points()[k + 1]));
                } else {
                    assert(n.points()[k] == o.x_cur@);
                    assert(n.points()[k + 1] == n.x_cur@);
                    if accepted {
                        assert(agree_except(o.x_cur@, t, idim as int));
                    } else {
                        assert(agree_except(o.x_cur@, o.x_cur@, 0));
                    }
                }
            }

            // No recorded energy lies below the best.
            assert forall|k: int|
                0 <= k < n.energies().len() implies !f_lt(
                #[trigger] n.energies()[k],
                n.e_best,
            ) by {
                if k < o.energies().len() {
                    assert(!f_lt(o.energies()[k], o.e_best));
                }
            }

            // The best with its point is recorded where the minimum was
            // first reached.
            if improved {
                assert(n.energies()[n.best_idx@] == n.e_best);
                assert(n.points()[n.best_idx@] == n.x_best@);
                assert forall|k: int|
                    0 <= k < n.best_idx@ implies !f_eq(
                    #[trigger] n.energies()[k],
                    n.e_best,
                ) by {
                    assert(!f_lt(o.energies()[k], o.e_best));
                }
            } else {
                assert(n.energies()[n.best_idx@] == n.e_best);
                assert(n.points()[n.best_idx@] == n.x_best@);
                assert forall|k: int|
                    0 <= k < n.best_idx@ implies !f_eq(
                    #[trigger] n.energies()[k],
                    n.e_best,
                ) by {
                    assert(!f_eq(o.energies()[k], o.e_best));
                }
            }
        }
    }

    /// Applies the schedule's per-step temperature update: the
    /// factor-multiplied temperature the caller computed is adopted only
    /// while annealing is active; with annealing inactive the temperature
    /// never leaves its initial value.
    pub fn update_temperature(&mut self, new_temp: u64)
        requires
            old(self).wf(),
        ensures
            final(self).wf(),
            final(self).temperature == if old(self).anneal {
                new_temp
            } else {
                old(self).temperature
            },
            !old(self).anneal ==> final(self).temperature == old(self).ini_temp,
            *final(self) == (McState { temperature: final(self).temperature, ..*old(self) }),
    {
        if self.anneal {
            self.temperature = new_temp;
        }
        proof {
            let o = *old(self);
            let n = *self;
            assert forall|k: int|
                0 <= k < n.accepted().len() implies #[trigger] n.accepted()[k]
                < n.steps_done by {
                assert(o.accepted()[k] < o.steps_done);
            }
            assert forall|k1: int, k2: int|
                #![trigger n.accepted()[k1], n.accepted()[k2]]
                0 <= k1 < k2 < n.accepted().len() implies n.accepted()[k1]
                < n.accepted()[k2] by {
                assert(o.accepted()[k1] < o.accepted()[k2]);
            }
        }
    }

    /// Closes a finished run and hands out its accumulated record.
    pub fn into_result(self) -> (r: McResult)
        requires
            self.wf(),
            self.steps_done == self.n_step,
        ensures
            result_wf(r),
            r.n_steps == self.n_step,
            r.accepted_steps@ == self.accepted(),
            points_of(r.x_vals) == self.points(),
            r.e_vals@ == self.energies(),
            r.x_best@ == self.x_best@,
            r.e_best == self.e_best,
    {
        let r = McResult {
            n_steps: self.n_step,
            accepted_steps: self.accepted_steps,
            x_vals: self.x_vals,
            e_vals: self.e_vals,
            x_best: self.x_best,
            e_best: self.e_best,
        };
        proof {
            assert(points_of(r.x_vals) =~= self.points());
            assert forall|k: int|
                0 <= k < r.accepted_steps@.len() implies #[trigger] r.accepted_steps@[k]
                < r.n_steps by {
                assert(self.accepted()[k] < self.steps_done);
            }
            assert forall|k1: int, k2: int|
                #![trigger r.accepted_steps@[k1], r.accepted_steps@[k2]]
                0 <= k1 < k2 < r.accepted_steps@.len() implies r.accepted_steps@[k1]
                < r.accepted_steps@[k2] by {
                assert(self.accepted()[k1] < self.accepted()[k2]);
            }
            let j = self.best_idx@;
            assert(r.e_vals@[j] == r.e_best && points_of(r.x_vals)[j] == r.x_best@ && (forall|
                k: int,
            |
                0 <= k < j ==> !f_eq(r.e_vals@[k], r.e_best)));
        }
        r
    }
}

/// Accumulated output of one finished run.
#[derive(Clone, Debug, PartialEq, Eq)]
pub struct McResult {
    /// Number of steps the run took.
    pub n_steps: u64,
    /// Indices of the accepted steps, in order.
    pub accepted_steps: Vec<u64>,
    /// The recorded trajectory, one point per step plus the starting point.
    pub x_vals: Vec<Vec<u64>>,
    /// Energies parallel to `x_vals`.
    pub e_vals: Vec<u64>,
    /// Best point seen over all evaluated trial points.
    pub x_best: Vec<u64>,
    /// Energy of the best point.
    pub e_best: u64,
}

/// Both trajectories hold one entry per step, plus the starting state.
pub open spec fn trajectory_lengths_ok(r: McResult) -> bool {
    &&& r.x_vals@.len() == r.n_steps + 1
    &&& r.e_vals@.len() == r.n_steps + 1
}

/// Accepted step indices are strictly increasing and name real steps.
pub open spec fn accepted_steps_ok(r: McResult) -> bool {
    &&& forall|k: int|
        0 <= k < r.accepted_steps@.len() ==> #[trigger] r.accepted_steps@[k] < r.n_steps
    &&& forall|k1: int, k2: int|
        #![trigger r.accepted_steps@[k1], r.accepted_steps@[k2]]
        0 <= k1 < k2 < r.accepted_steps@.len() ==> r.accepted_steps@[k1] < r.accepted_steps@[k2]
}

/// No recorded energy lies below the best, and the best with its point is
/// recorded at the first index where that minimum is reached.
pub open spec fn best_is_min(r: McResult) -> bool {
    &&& forall|k: int| 0 <= k < r.e_vals@.len() ==> !f_lt(#[trigger] r.e_vals@[k], r.e_best)
    &&& exists|j: int|
        {
            &&& 0 <= j < r.e_vals@.len()
            &&& #[trigger] r.e_vals@[j] == r.e_best
            &&& points_of(r.x_vals)[j] == r.x_best@
            &&& forall|k: int| 0 <= k < j ==> !f_eq(#[trigger] r.e_vals@[k], r.e_best)
        }
}

/// Consecutive recorded points differ in at most one coordinate.
pub open spec fn single_coordinate_moves(r: McResult) -> bool {
    forall|k: int|
        0 <= k && k + 1 < points_of(r.x_vals).len() ==> differ_at_most_one(
            #[trigger] points_of(r.x_vals)[k],
            points_of(r.x_vals)[k + 1],
        )
}

/// Everything a finished run's record promises.
pub open spec fn result_wf(r: McResult) -> bool {
    &&& r.n_steps >= 1
    &&& trajectory_lengths_ok(r)
    &&& accepted_steps_ok(r)
    &&& best_is_min(r)
    &&& single_coordinate_moves(r)
}

/// Copies a point, one coordinate at a time.
pub(crate) fn copy_point(x: &Vec<u64>) -> (r: Vec<u64>)
    ensures
        r@ == x@,
{
    let mut r: Vec<u64> = Vec::new();
    let n = x.len();
    let mut k: usize = 0;
    while k < n
        invariant
            n == x@.len(),
            k <= n,
            r@.len() == k,
            forall|j: int| 0 <= j < k ==> r@[j] == x@[j],
        decreases n - k,
    {
        r.push(x[k]);
        k = k + 1;
    }
    proof {
        assert(r@ =~= x@);
    }
    r
}

} // verus!
