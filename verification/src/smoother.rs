//! Linear per-sample parameter smoothing.
//!
//! A `LinearSmoother` ramps a current value toward a target value over a
//! configured duration in milliseconds, one step per sample. Values are
//! plain integers in whatever unit the owner chooses (this crate uses
//! micro-units: one millionth of the control value's natural unit).
//! The ramp is monotone, never overshoots, and lands on the target exactly
//! when the last step of the ramp is taken.

use vstd::prelude::*;

verus! {

pub struct LinearSmoother {
    /// The value now.
    pub current: u64,
    /// The value the ramp is heading toward.
    pub target: u64,
    /// Magnitude of the change applied by one step while ramping.
    pub step: u64,
    /// Samples left in the ramp; 0 means the ramp is done.
    pub steps_left: u64,
    /// Configured ramp duration, in milliseconds.
    pub ramp_ms: u32,
}

/// How many samples a ramp of `ramp_ms` milliseconds lasts at `sample_rate`.
pub open spec fn spec_ramp_steps(ramp_ms: u32, sample_rate: u32) -> nat {
    (ramp_ms as nat * sample_rate as nat) / 1000
}

impl LinearSmoother {
    /// A smoother at rest never disagrees with its target, and a running
    /// ramp can cover at most the distance that separates it from the
    /// target, so stepping never overshoots.
    pub open spec fn wf(self) -> bool {
        &&& (self.steps_left == 0 ==> self.current == self.target)
        &&& (self.steps_left > 0 ==> (if self.current <= self.target {
            self.current + self.steps_left * self.step <= self.target
        } else {
            self.target + self.steps_left * self.step <= self.current
        }))
    }

    /// The state after `set_target(sample_rate, target)`.
    pub open spec fn spec_set_target(self, sample_rate: u32, target: u64) -> LinearSmoother {
        let steps = spec_ramp_steps(self.ramp_ms, sample_rate);
        if steps == 0 {
            LinearSmoother {
                current: target,
                target,
                step: 0,
                steps_left: 0,
                ramp_ms: self.ramp_ms,
            }
        } else {
            let delta = if self.current <= target {
                target - self.current
            } else {
                self.current - target
            };
            LinearSmoother {
                current: self.current,
                target,
                step: (delta / (steps as int)) as u64,
                steps_left: steps as u64,
                ramp_ms: self.ramp_ms,
            }
        }
    }

    /// The state after one `next()` step.
    pub open spec fn spec_next(self) -> LinearSmoother {
        if self.steps_left == 0 {
            self
        } else if self.steps_left == 1 {
            LinearSmoother {
                current: self.target,
                target: self.target,
                step: self.step,
                steps_left: 0,
                ramp_ms: self.ramp_ms,
            }
        } else {
            let c = if self.current <= self.target {
                (self.current + self.step) as u64
            } else {
                (self.current - self.step) as u64
            };
            LinearSmoother {
                current: c,
                target: self.target,
                step: self.step,
                steps_left: (self.steps_left - 1) as u64,
                ramp_ms: self.ramp_ms,
            }
        }
    }

    /// A smoother that starts at rest on `value`.
    pub fn new(ramp_ms: u32, value: u64) -> (s: LinearSmoother)
        ensures
            s.wf(),
            s.ramp_ms == ramp_ms,
            s.current == value,
            s.target == value,
            s.steps_left == 0,
            s.step == 0,
    {
        LinearSmoother { current: value, target: value, step: 0, steps_left: 0, ramp_ms }
    }

    /// Snap to `value` with no ramp, as on a stream reset.
    pub fn reset(&mut self, value: u64)
        ensures
            final(self).wf(),
            final(self).current == value,
            final(self).target == value,
            final(self).steps_left == 0,
            final(self).step == 0,
            final(self).ramp_ms == old(self).ramp_ms,
    {
        self.current = value;
        self.target = value;
        self.step = 0;
        self.steps_left = 0;
    }

    /// Begin ramping the current value toward `target`, spreading the move
    /// over the configured duration at the given sample rate. A ramp of
    /// zero samples snaps immediately.
    pub fn set_target(&mut self, sample_rate: u32, target: u64)
        requires
            old(self).wf(),
        ensures
            *final(self) == old(self).spec_set_target(sample_rate, target),
            final(self).wf(),
            final(self).target == target,
            final(self).ramp_ms == old(self).ramp_ms,
    {
        proof {
            vstd::arithmetic::mul::lemma_mul_upper_bound(
                self.ramp_ms as int,
                u32::MAX as int,
                sample_rate as int,
                u32::MAX as int,
            );
        }
        let steps: u64 = ((self.ramp_ms as u64) * (sample_rate as u64)) / 1000;
        proof {
            assert(steps == spec_ramp_steps(self.ramp_ms, sample_rate));
        }
        if steps == 0 {
            self.current = target;
            self.target = target;
            self.step = 0;
            self.steps_left = 0;
        } else {
            let delta = if self.current <= target {
                target - self.current
            } else {
                self.current - target
            };
            let step = delta / steps;
            proof {
                vstd::arithmetic::div_mod::lemma_fundamental_div_mod(delta as int, steps as int);
                assert(steps * (delta as int / steps as int) <= delta);
            }
            self.step = step;
            self.steps_left = steps;
            self.target = target;
        }
    }

    /// Advance one sample and return the updated current value. Each call
    /// moves the current value one step toward the target, never past it;
    /// the step that empties the ramp lands on the target exactly.
    pub fn next(&mut self) -> (v: u64)
        requires
            old(self).wf(),
        ensures
            *final(self) == old(self).spec_next(),
            final(self).wf(),
            v == final(self).current,
            old(self).current <= old(self).target ==> old(self).current <= v <= old(self).target,
            old(self).current >= old(self).target ==> old(self).target <= v <= old(self).current,
    {
        proof {
            lemma_next_props(*self);
        }
        if self.steps_left == 0 {
            return self.current;
        }
        self.steps_left = self.steps_left - 1;
        if self.steps_left == 0 {
            self.current = self.target;
        } else if self.current <= self.target {
            proof {
                let sl = old(self).steps_left as int;
                let st = self.step as int;
                assert(self.current + sl * st <= self.target);
                assert(sl * st == st + (sl - 1) * st) by (nonlinear_arith);
                assert((sl - 1) * st >= 0) by (nonlinear_arith)
                    requires
                        sl >= 1,
                        st >= 0,
                ;
            }
            self.current = self.current + self.step;
        } else {
            proof {
                let sl = old(self).steps_left as int;
                let st = self.step as int;
                assert(self.target + sl * st <= self.current);
                assert(sl * st == st + (sl - 1) * st) by (nonlinear_arith);
                assert((sl - 1) * st >= 0) by (nonlinear_arith)
                    requires
                        sl >= 1,
                        st >= 0,
                ;
            }
            self.current = self.current - self.step;
        }
        self.current
    }
}

/// One step of a well-formed smoother stays well formed, keeps its target,
/// and moves the current value toward the target without passing it.
pub proof fn lemma_next_props(s: LinearSmoother)
    requires
        s.wf(),
    ensures
        s.spec_next().wf(),
        s.spec_next().target == s.target,
        s.spec_next().step == s.step,
        s.spec_next().ramp_ms == s.ramp_ms,
        s.spec_next().steps_left == (if s.steps_left == 0 { 0int } else { s.steps_left - 1 }),
        s.current <= s.target ==> s.current <= s.spec_next().current <= s.target,
        s.current >= s.target ==> s.target <= s.spec_next().current <= s.current,
{
    if s.steps_left > 1 {
        if s.current <= s.target {
            assert(s.current + s.steps_left * s.step <= s.target);
        } else {
            assert(s.target + s.steps_left * s.step <= s.current);
        }
        assert(s.steps_left * s.step == s.step + (s.steps_left - 1) * s.step) by (nonlinear_arith);
        assert((s.steps_left - 1) * s.step >= 0) by (nonlinear_arith)
            requires
                s.steps_left >= 1,
                s.step >= 0,
        ;
    }
}

/// The smoother after `n` further steps.
pub open spec fn spec_next_n(s: LinearSmoother, n: nat) -> LinearSmoother
    decreases n,
{
    if n == 0 {
        s
    } else {
        spec_next_n(s.spec_next(), (n - 1) as nat)
    }
}

/// Stepping `n` times and then once more is one step past stepping `n` times.
pub proof fn lemma_next_n_unfold_back(s: LinearSmoother, n: nat)
    ensures
        spec_next_n(s, n + 1) == spec_next_n(s, n).spec_next(),
    decreases n,
{
    if n == 0 {
        assert(spec_next_n(s, 1) == spec_next_n(s.spec_next(), 0));
        assert(spec_next_n(s.spec_next(), 0) == s.spec_next());
    } else {
        lemma_next_n_unfold_back(s.spec_next(), (n - 1) as nat);
    }
}

/// A rising ramp never leaves the band between its starting value and its
/// target, no matter how many steps are taken; the target itself is stable.
pub proof fn lemma_ramp_bounded(s: LinearSmoother, n: nat)
    requires
        s.wf(),
        s.current <= s.target,
    ensures
        spec_next_n(s, n).wf(),
        spec_next_n(s, n).target == s.target,
        s.current <= spec_next_n(s, n).current <= s.target,
    decreases n,
{
    if n > 0 {
        lemma_next_props(s);
        lemma_ramp_bounded(s.spec_next(), (n - 1) as nat);
    }
}

/// A rising ramp is monotone: each step's output is at least the last one's.
pub proof fn lemma_ramp_monotone(s: LinearSmoother, n: nat)
    requires
        s.wf(),
        s.current <= s.target,
    ensures
        spec_next_n(s, n).current <= spec_next_n(s, n + 1).current,
{
    lemma_ramp_bounded(s, n);
    lemma_next_props(spec_next_n(s, n));
    lemma_next_n_unfold_back(s, n);
}

/// Once as many steps have been taken as the ramp had left, the current
/// value equals the target exactly, and it stays there afterwards.
pub proof fn lemma_ramp_reaches_target(s: LinearSmoother, n: nat)
    requires
        s.wf(),
        n >= s.steps_left,
    ensures
        spec_next_n(s, n).current == s.target,
        spec_next_n(s, n).target == s.target,
    decreases n,
{
    if n == 0 {
        assert(s.steps_left == 0);
    } else {
        lemma_next_props(s);
        lemma_ramp_reaches_target(s.spec_next(), (n - 1) as nat);
    }
}

} // verus!
