//! Per-axis velocity integrator.
//!
//! Converts a continuously varying target velocity into integer tick-sized
//! displacements without losing sub-unit movement to rounding, across
//! arbitrarily uneven call intervals. Velocity is carried in fixed point:
//! a stored velocity `v` means `v / SCALE` output units per microsecond
//! (equivalently, `v` units per second). The undelivered fraction of a
//! unit is kept as a remainder numerator in the open interval
//! `(-SCALE, SCALE)`, so the running sum of emitted displacements never
//! strays from the exact velocity integral by a whole unit.

use vstd::prelude::*;
use vstd::arithmetic::div_mod::{
    lemma_fundamental_div_mod, lemma_mod_division_less_than_divisor, lemma_div_nonincreasing,
    lemma_div_pos_is_pos,
};
use vstd::arithmetic::mul::lemma_mul_is_distributive_add;
use crate::time_util::{Time, TIME_MAX};

verus! {

/// Fixed-point denominator: sub-units per output unit.
pub const SCALE: i64 = 1_000_000;

/// Largest velocity magnitude the engine accepts, in units per second.
/// Together with `TIME_MAX` this keeps every intermediate product of the
/// integrator inside `i64`.
pub const VEL_MAX: i64 = 50_000;

/// Truncating division (round toward zero), for a positive divisor.
pub open spec fn tdiv(a: int, b: int) -> int {
    if a >= 0 {
        a / b
    } else {
        -((-a) / b)
    }
}

/// Remainder of truncating division: carries the sign of `a`.
pub open spec fn trem(a: int, b: int) -> int {
    a - b * tdiv(a, b)
}

/// The mathematical state of one axis integrator.
pub struct InterpView {
    /// Velocity, in sub-units per microsecond.
    pub v: int,
    /// Undelivered movement, as a numerator over `SCALE`.
    pub rem: int,
    /// Time of the last interpolation step, in microseconds.
    pub last_t: int,
}

impl InterpView {
    pub open spec fn wf(self) -> bool {
        &&& -(SCALE as int) < self.rem < SCALE as int
        &&& -(VEL_MAX as int) <= self.v <= VEL_MAX as int
        &&& 0 <= self.last_t <= TIME_MAX as int
    }
}

/// The exact movement (in sub-units) wanted by time `t`: the carried
/// remainder plus the velocity integral over the elapsed interval.
pub open spec fn spec_desired(iv: InterpView, t: int) -> int {
    iv.rem + iv.v * (t - iv.last_t)
}

/// The integer displacement an interpolation step at `t` emits.
pub open spec fn spec_output(iv: InterpView, t: int) -> int {
    tdiv(spec_desired(iv, t), SCALE as int)
}

/// The integrator state after an interpolation step at `t`.
pub open spec fn spec_step(iv: InterpView, t: int) -> InterpView {
    InterpView { v: iv.v, rem: trem(spec_desired(iv, t), SCALE as int), last_t: t }
}

/// Defining properties of truncating division: quotient and remainder
/// recompose exactly, the remainder is a proper fraction, and both carry
/// the sign of the dividend.
pub proof fn lemma_tdiv_trem(a: int, b: int)
    requires
        b > 0,
    ensures
        b * tdiv(a, b) + trem(a, b) == a,
        -b < trem(a, b) < b,
        a >= 0 ==> tdiv(a, b) >= 0 && trem(a, b) >= 0,
        a <= 0 ==> tdiv(a, b) <= 0 && trem(a, b) <= 0,
{
    if a >= 0 {
        lemma_fundamental_div_mod(a, b);
        lemma_mod_division_less_than_divisor(a, b);
        if a > 0 {
            lemma_div_pos_is_pos(a, b);
        }
        assert(a % b == a - b * (a / b));
    } else {
        lemma_fundamental_div_mod(-a, b);
        lemma_mod_division_less_than_divisor(-a, b);
        lemma_div_pos_is_pos(-a, b);
        assert((-a) % b == (-a) - b * ((-a) / b));
        assert(b * tdiv(a, b) == -(b * ((-a) / b))) by {
            assert(b * -((-a) / b) == -(b * ((-a) / b))) by (nonlinear_arith);
        }
    }
}

/// One interpolation step keeps the state well formed and satisfies the
/// exact accounting equation: the emitted displacement (in sub-units) plus
/// the new remainder equals the old remainder plus the velocity integral.
pub proof fn lemma_step_exact(iv: InterpView, t: int)
    requires
        iv.wf(),
        iv.last_t <= t <= TIME_MAX as int,
    ensures
        (SCALE as int) * spec_output(iv, t) + spec_step(iv, t).rem == spec_desired(iv, t),
        spec_step(iv, t).wf(),
        spec_step(iv, t).v == iv.v,
        spec_step(iv, t).last_t == t,
{
    lemma_tdiv_trem(spec_desired(iv, t), SCALE as int);
}

pub struct Interpolator {
    /// Current velocity, in sub-units per microsecond.
    v: i64,
    /// Dither error carried across ticks, a numerator over `SCALE`.
    rem: i64,
    /// Time of the last interpolation step.
    last_t: Time,
}

impl View for Interpolator {
    type V = InterpView;

    closed spec fn view(&self) -> InterpView {
        InterpView { v: self.v as int, rem: self.rem as int, last_t: self.last_t@ }
    }
}

impl Interpolator {
    /// A fresh integrator: zero velocity, no carried remainder, anchored
    /// at `now`.
    pub fn new(now: Time) -> (s: Self)
        requires
            0 <= now@ <= TIME_MAX as int,
        ensures
            s@ == (InterpView { v: 0, rem: 0, last_t: now@ }),
            s@.wf(),
    {
        Self { v: 0, rem: 0, last_t: now }
    }

    /// Replace the stored velocity. Produces no output by itself; it only
    /// changes the rate used by subsequent interpolation steps.
    pub fn update(&mut self, _time: Time, value: i64)
        requires
            old(self)@.wf(),
            -VEL_MAX <= value <= VEL_MAX,
        ensures
            final(self)@ == (InterpView { v: value as int, ..old(self)@ }),
            final(self)@.wf(),
    {
        self.v = value;
    }

    /// Emit the integer displacement accumulated since the last step and
    /// carry the fractional part forward.
    pub fn interpolate(&mut self, time: Time) -> (output: i64)
        requires
            old(self)@.wf(),
            old(self)@.last_t <= time@ <= TIME_MAX as int,
        ensures
            output as int == spec_output(old(self)@, time@),
            final(self)@ == spec_step(old(self)@, time@),
            final(self)@.wf(),
    {
        proof {
            assert((self.v as int) * ((time@ - self.last_t@) as int)
                <= (VEL_MAX as int) * (TIME_MAX as int)) by (nonlinear_arith)
                requires
                    -(VEL_MAX as int) <= self.v as int <= VEL_MAX as int,
                    0 <= (time@ - self.last_t@) as int <= TIME_MAX as int;
            assert((self.v as int) * ((time@ - self.last_t@) as int)
                >= -((VEL_MAX as int) * (TIME_MAX as int))) by (nonlinear_arith)
                requires
                    -(VEL_MAX as int) <= self.v as int <= VEL_MAX as int,
                    0 <= (time@ - self.last_t@) as int <= TIME_MAX as int;
        }
        let dt: i64 = time.micros - self.last_t.micros;
        let scaled: i64 = self.v * dt;
        let desired: i64 = self.rem + scaled;
        let ghost d_int: int = desired as int;
        let (output, new_rem): (i64, i64) = if desired >= 0 {
            let d: u64 = desired as u64;
            let q: u64 = d / (SCALE as u64);
            let r: u64 = d % (SCALE as u64);
            proof {
                lemma_fundamental_div_mod(d as int, SCALE as int);
                lemma_mod_division_less_than_divisor(d as int, SCALE as int);
                lemma_div_nonincreasing(d as int, SCALE as int);
            }
            (q as i64, r as i64)
        } else {
            let d: u64 = (-desired) as u64;
            let q: u64 = d / (SCALE as u64);
            let r: u64 = d % (SCALE as u64);
            proof {
                lemma_fundamental_div_mod(d as int, SCALE as int);
                lemma_mod_division_less_than_divisor(d as int, SCALE as int);
                lemma_div_nonincreasing(d as int, SCALE as int);
            }
            (-(q as i64), -(r as i64))
        };
        proof {
            lemma_tdiv_trem(d_int, SCALE as int);
        }
        self.rem = new_rem;
        self.last_t = time;
        output
    }
}

/// Timestamps acceptable as one run of interpolation steps starting from
/// an integrator whose last step was at `last_t`: each is no earlier than
/// its predecessor and within the clock range.
pub open spec fn times_ok(last_t: int, ts: Seq<int>) -> bool
    decreases ts.len(),
{
    if ts.len() == 0 {
        true
    } else {
        last_t <= ts[0] <= TIME_MAX as int && times_ok(ts[0], ts.drop_first())
    }
}

/// The integrator state after interpolation steps at each time in `ts`.
pub open spec fn run_view(iv: InterpView, ts: Seq<int>) -> InterpView
    decreases ts.len(),
{
    if ts.len() == 0 {
        iv
    } else {
        run_view(spec_step(iv, ts[0]), ts.drop_first())
    }
}

/// The sum of the displacements emitted by interpolation steps at each
/// time in `ts`.
pub open spec fn run_sum(iv: InterpView, ts: Seq<int>) -> int
    decreases ts.len(),
{
    if ts.len() == 0 {
        0
    } else {
        spec_output(iv, ts[0]) + run_sum(spec_step(iv, ts[0]), ts.drop_first())
    }
}

/// Law: over any run of interpolation steps, the total emitted displacement
/// (in sub-units) plus the final remainder equals the starting remainder
/// plus the exact velocity integral over the whole interval — no drift
/// accumulates, regardless of how unevenly the step times fall.
pub proof fn lemma_run_exact(iv: InterpView, ts: Seq<int>)
    requires
        iv.wf(),
        times_ok(iv.last_t, ts),
        ts.len() > 0,
    ensures
        (SCALE as int) * run_sum(iv, ts) + run_view(iv, ts).rem
            == iv.rem + iv.v * (ts.last() - iv.last_t),
        run_view(iv, ts).wf(),
        run_view(iv, ts).v == iv.v,
        run_view(iv, ts).last_t == ts.last(),
    decreases ts.len(),
{
    let stepped = spec_step(iv, ts[0]);
    lemma_step_exact(iv, ts[0]);
    assert(run_sum(iv, ts) == spec_output(iv, ts[0]) + run_sum(stepped, ts.drop_first()));
    assert(run_view(iv, ts) == run_view(stepped, ts.drop_first()));
    if ts.len() == 1 {
        assert(ts.last() == ts[0]);
        assert(ts.drop_first().len() == 0);
        assert(run_sum(stepped, ts.drop_first()) == 0);
        assert(run_view(stepped, ts.drop_first()) == stepped);
    } else {
        lemma_run_exact(stepped, ts.drop_first());
        assert(ts.drop_first().last() == ts.last());
        assert(iv.v * (ts[0] - iv.last_t) + iv.v * (ts.last() - ts[0])
            == iv.v * (ts.last() - iv.last_t)) by {
            lemma_mul_is_distributive_add(iv.v, ts[0] - iv.last_t, ts.last() - ts[0]);
        }
        assert((SCALE as int) * run_sum(iv, ts)
            == (SCALE as int) * spec_output(iv, ts[0])
                + (SCALE as int) * run_sum(stepped, ts.drop_first())) by {
            lemma_mul_is_distributive_add(
                SCALE as int,
                spec_output(iv, ts[0]),
                run_sum(stepped, ts.drop_first()),
            );
        }
    }
}

/// Law (interpolator exactness): for any fixed velocity `v` and any
/// nondecreasing sequence of step times starting at `t0`, a fresh
/// integrator's total emitted displacement differs from the exact movement
/// `v * (t_n - t0)` by strictly less than one unit (`SCALE` sub-units).
pub proof fn lemma_interpolator_exactness(v: int, t0: int, ts: Seq<int>)
    requires
        -(VEL_MAX as int) <= v <= VEL_MAX as int,
        0 <= t0 <= TIME_MAX as int,
        times_ok(t0, ts),
        ts.len() > 0,
    ensures
        ({
            let start = InterpView { v: v, rem: 0, last_t: t0 };
            let total = (SCALE as int) * run_sum(start, ts) - v * (ts.last() - t0);
            -(SCALE as int) < total < SCALE as int
        }),
{
    let start = InterpView { v: v, rem: 0, last_t: t0 };
    lemma_run_exact(start, ts);
}

/// Law (zero velocity is idle): an integrator whose velocity is zero emits
/// zero displacement at every step and its remainder never changes.
pub proof fn lemma_zero_velocity_output(iv: InterpView, t: int)
    requires
        iv.wf(),
        iv.v == 0,
        iv.last_t <= t <= TIME_MAX as int,
    ensures
        spec_output(iv, t) == 0,
        spec_step(iv, t).rem == iv.rem,
{
    assert(spec_desired(iv, t) == iv.rem) by {
        assert(0int * (t - iv.last_t) == 0) by (nonlinear_arith);
    }
    lemma_tdiv_trem(iv.rem, SCALE as int);
    if iv.rem >= 0 {
        assert(iv.rem / (SCALE as int) == 0) by {
            vstd::arithmetic::div_mod::lemma_basic_div(iv.rem, SCALE as int);
        }
    } else {
        assert((-iv.rem) / (SCALE as int) == 0) by {
            vstd::arithmetic::div_mod::lemma_basic_div(-iv.rem, SCALE as int);
        }
    }
}

} // verus!
