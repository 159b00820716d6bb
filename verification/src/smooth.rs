//! Per-parameter smoothing.
//!
//! A parameter write schedules a linear glide from the current value to the
//! target over a fixed number of steps; each processed sample advances the
//! glide by one step and the reached value is fed back into coefficient
//! derivation.  A step never moves the value past the target, and the final
//! step lands on the target exactly, returning the smoother to idle.

use vstd::prelude::*;
use vstd::arithmetic::div_mod::{lemma_fundamental_div_mod, lemma_remainder_lower, lemma_remainder_upper};
use crate::fixed::{abs_int, fx_valid, lemma_tdiv_bounds, tdiv};

verus! {

/// A linear interpolator for one parameter value.
#[derive(Clone, Copy)]
pub struct Smoother {
    pub current: i64,
    pub target: i64,
    pub steps_left: u32,
}

/// The state after one smoothing step: idle smoothers do not move, the last
/// step lands on the target, and earlier steps move by the remaining
/// distance divided by the remaining step count, truncated toward zero.
pub open spec fn smoother_step_spec(sm: Smoother) -> Smoother {
    if sm.steps_left == 0 {
        sm
    } else if sm.steps_left == 1 {
        Smoother { current: sm.target, target: sm.target, steps_left: 0 }
    } else {
        Smoother {
            current: (sm.current + tdiv(sm.target - sm.current, sm.steps_left as int)) as i64,
            target: sm.target,
            steps_left: (sm.steps_left - 1) as u32,
        }
    }
}

impl Smoother {
    /// Both the held value and the target are representable.
    pub open spec fn wf(self) -> bool {
        fx_valid(self.current as int) && fx_valid(self.target as int)
    }

    /// Whether a glide is in flight.
    pub open spec fn is_smoothing_spec(self) -> bool {
        self.steps_left > 0
    }

    /// An idle smoother holding a value.
    pub fn with_value(v: i64) -> (sm: Smoother)
        requires
            fx_valid(v as int),
        ensures
            sm.wf(),
            sm.current == v,
            sm.target == v,
            sm.steps_left == 0,
    {
        Smoother { current: v, target: v, steps_left: 0 }
    }

    /// Whether a glide is in flight, executable.
    pub fn is_smoothing(&self) -> (b: bool)
        ensures
            b == self.is_smoothing_spec(),
    {
        self.steps_left > 0
    }

    /// Schedule a glide toward `t` over `steps` samples.  A write of the
    /// value already held is a no-op; a write during a glide restarts it
    /// toward the new target, so no two glides ever run concurrently.
    pub fn set_target(&mut self, t: i64, steps: u32)
        requires
            old(self).wf(),
            fx_valid(t as int),
            steps >= 1,
        ensures
            final(self).wf(),
            final(self).current == old(self).current,
            final(self).target == t,
            final(self).steps_left == (if t == old(self).current { 0u32 } else { steps }),
    {
        self.target = t;
        if t == self.current {
            self.steps_left = 0;
        } else {
            self.steps_left = steps;
        }
    }

    /// Advance the glide by one step and return the value now held.
    pub fn step(&mut self) -> (v: i64)
        requires
            old(self).wf(),
        ensures
            final(self).wf(),
            (*final(self)) == smoother_step_spec(*old(self)),
            v == final(self).current,
            old(self).current <= old(self).target ==> old(self).current <= v <= old(self).target,
            old(self).target <= old(self).current ==> old(self).target <= v <= old(self).current,
    {
        proof {
            if old(self).steps_left >= 2 {
                lemma_tdiv_bounds(
                    old(self).target as int - old(self).current as int,
                    old(self).steps_left as int,
                );
            }
        }
        if self.steps_left == 0 {
            self.current
        } else if self.steps_left == 1 {
            self.current = self.target;
            self.steps_left = 0;
            self.current
        } else {
            let d: i64 = (self.target - self.current) / (self.steps_left as i64);
            self.current = self.current + d;
            self.steps_left = self.steps_left - 1;
            self.current
        }
    }
}

/// Click-freedom of one smoothing step: while a glide is in flight, the
/// value moves by at most the remaining distance divided by the remaining
/// step count (the scheduled step size), never past the target.
pub proof fn lemma_smoother_step_bounded(sm: Smoother)
    requires
        sm.wf(),
        sm.steps_left >= 1,
    ensures
        abs_int(smoother_step_spec(sm).current - sm.current) * sm.steps_left <= abs_int(
            sm.target - sm.current,
        ),
        sm.current <= sm.target ==> sm.current <= smoother_step_spec(sm).current <= sm.target,
        sm.target <= sm.current ==> sm.target <= smoother_step_spec(sm).current <= sm.current,
{
    let d = sm.target as int - sm.current as int;
    let n = sm.steps_left as int;
    if sm.steps_left == 1 {
    } else {
        lemma_tdiv_bounds(d, n);
        if d >= 0 {
            lemma_fundamental_div_mod(d, n);
            lemma_remainder_upper(d, n);
            lemma_remainder_lower(d, n);
            assert(n * (d / n) <= d);
            assert(tdiv(d, n) * n == n * (d / n)) by (nonlinear_arith)
                requires
                    d >= 0,
                    n >= 1,
                    tdiv(d, n) == d / n;
        } else {
            lemma_fundamental_div_mod(-d, n);
            lemma_remainder_upper(-d, n);
            lemma_remainder_lower(-d, n);
            assert(n * ((-d) / n) <= -d);
            assert(abs_int(tdiv(d, n)) * n == n * ((-d) / n)) by (nonlinear_arith)
                requires
                    d < 0,
                    n >= 1,
                    abs_int(tdiv(d, n)) == (-d) / n;
        }
    }
}

/// A glide terminates: stepping a smoother `steps_left` times lands the
/// value exactly on the target and returns the smoother to idle.
pub proof fn lemma_smoother_reaches_target(sm: Smoother, n: nat)
    requires
        sm.wf(),
        n == sm.steps_left,
        n >= 1,
    ensures
        smoother_run_spec(sm, n).current == sm.target,
        smoother_run_spec(sm, n).steps_left == 0,
    decreases n,
{
    let stepped = smoother_step_spec(sm);
    assert(smoother_run_spec(sm, n) == smoother_run_spec(stepped, (n - 1) as nat));
    lemma_smoother_step_bounded(sm);
    assert(stepped.wf());
    if n == 1 {
        assert(smoother_run_spec(stepped, 0) == stepped);
    } else {
        lemma_smoother_reaches_target(stepped, (n - 1) as nat);
    }
}

/// The smoother after `n` consecutive steps.
pub open spec fn smoother_run_spec(sm: Smoother, n: nat) -> Smoother
    decreases n,
{
    if n == 0 {
        sm
    } else {
        smoother_run_spec(smoother_step_spec(sm), (n - 1) as nat)
    }
}

} // verus!
