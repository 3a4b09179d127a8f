//! Fixed-point units and the small amount of scalar arithmetic the
//! simulation needs.
//!
//! World coordinates, sizes and corrections are `i64` subpixel units;
//! velocities and accelerations are subpixel units per second; durations are
//! milliseconds.  Advancing a position by a velocity over a time step is the
//! truncating (round-toward-zero) division `v * dt / 1000`, made exact in
//! [`scale_by_dt`].

use vstd::prelude::*;

verus! {

/// Durations are in milliseconds; rates (velocity, gravity) are per second.
pub const MILLIS_PER_SECOND: i64 = 1000;

/// Largest magnitude accepted for a character position coordinate.
pub const POS_LIMIT: i64 = 1_000_000_000_000;

/// Largest accepted half-extent of a box and largest accepted tile size.
pub const HALF_LIMIT: i64 = 1_000_000_000;

/// Largest magnitude accepted for a velocity, a speed, a force or a
/// gravity constant.
pub const RATE_LIMIT: i64 = 1_000_000_000;

/// Largest accepted fixed time step, in milliseconds.
pub const DT_LIMIT: i64 = 60_000;

/// Largest accepted jump duration or timer value, in milliseconds.
pub const TIME_LIMIT: i64 = 1_000_000_000;

/// Largest accepted tile-grid dimension, in tiles.
pub const GRID_LIMIT: usize = 1_000_000;

/// Largest accepted skin margin.
pub const SKIN_LIMIT: i64 = 1_000_000;

/// Largest magnitude a velocity scaled by a time step can reach:
/// `RATE_LIMIT / MILLIS_PER_SECOND * DT_LIMIT`.
pub const STEP_LIMIT: i64 = 60_000_000_000;

/// A two-component fixed-point vector.
#[derive(Clone, Copy, Debug, PartialEq, Eq, Structural)]
pub struct Vec2 {
    pub x: i64,
    pub y: i64,
}

/// The mathematical value of a [`Vec2`].
pub ghost struct V2 {
    pub x: int,
    pub y: int,
}

impl View for Vec2 {
    type V = V2;

    open spec fn view(&self) -> V2 {
        V2 { x: self.x as int, y: self.y as int }
    }
}

impl Vec2 {
    pub fn new(x: i64, y: i64) -> (r: Vec2)
        ensures
            r.x == x,
            r.y == y,
    {
        Vec2 { x, y }
    }

    pub fn zero() -> (r: Vec2)
        ensures
            r.x == 0,
            r.y == 0,
    {
        Vec2 { x: 0, y: 0 }
    }
}

/// `v * dt / 1000` rounded toward zero: the displacement that a rate `v`
/// (per second) produces over `dt` milliseconds.
pub open spec fn scale_by_dt(v: int, dt: int) -> int {
    if v >= 0 {
        (v * dt) / (MILLIS_PER_SECOND as int)
    } else {
        -((-v * dt) / (MILLIS_PER_SECOND as int))
    }
}

/// Truncating division of a signed value by a positive divisor.
pub open spec fn div_trunc(a: int, b: int) -> int {
    if a >= 0 {
        a / b
    } else {
        -((-a) / b)
    }
}

/// A value clamped to the symmetric range `[-bound, bound]`, sign preserved.
pub open spec fn clamp_mag(v: int, bound: int) -> int {
    if v > bound {
        bound
    } else if v < -bound {
        -bound
    } else {
        v
    }
}

/// Computes [`scale_by_dt`] on machine integers.
pub fn mul_dt(v: i64, dt: i64) -> (r: i64)
    requires
        -RATE_LIMIT <= v <= RATE_LIMIT,
        0 <= dt <= DT_LIMIT,
    ensures
        r == scale_by_dt(v as int, dt as int),
        -STEP_LIMIT <= r <= STEP_LIMIT,
        v >= 0 ==> r >= 0,
        v <= 0 ==> r <= 0,
{
    proof {
        lemma_scale_by_dt_bound(v as int, dt as int);
    }
    if v >= 0 {
        let p: u64 = (v as u64) * (dt as u64);
        (p / 1000) as i64
    } else {
        let p: u64 = ((-v) as u64) * (dt as u64);
        -((p / 1000) as i64)
    }
}

/// The magnitude of a displacement is at most `RATE_LIMIT * DT_LIMIT`
/// scaled, and its sign follows the rate's.
pub proof fn lemma_scale_by_dt_bound(v: int, dt: int)
    requires
        -RATE_LIMIT <= v <= RATE_LIMIT,
        0 <= dt <= DT_LIMIT,
    ensures
        -STEP_LIMIT <= scale_by_dt(v, dt) <= STEP_LIMIT,
        v >= 0 ==> scale_by_dt(v, dt) >= 0,
        v <= 0 ==> scale_by_dt(v, dt) <= 0,
{
    if v >= 0 {
        assert(0 <= v * dt <= RATE_LIMIT * DT_LIMIT) by (nonlinear_arith)
            requires
                0 <= v <= RATE_LIMIT,
                0 <= dt <= DT_LIMIT,
        ;
        assert(0 <= (v * dt) / 1000 <= STEP_LIMIT) by (nonlinear_arith)
            requires
                0 <= v * dt <= RATE_LIMIT * DT_LIMIT,
        ;
    } else {
        assert(0 <= -v * dt <= RATE_LIMIT * DT_LIMIT) by (nonlinear_arith)
            requires
                0 <= -v <= RATE_LIMIT,
                0 <= dt <= DT_LIMIT,
        ;
        assert(0 <= (-v * dt) / 1000 <= STEP_LIMIT) by (nonlinear_arith)
            requires
                0 <= -v * dt <= RATE_LIMIT * DT_LIMIT,
        ;
    }
}

/// Computes [`div_trunc`] on machine integers.
pub fn div_trunc_i64(a: i64, b: i64) -> (r: i64)
    requires
        b > 0,
        a > i64::MIN,
    ensures
        r == div_trunc(a as int, b as int),
        vstd::math::abs(r as int) <= vstd::math::abs(a as int),
{
    proof {
        lemma_div_trunc_bound(a as int, b as int);
    }
    if a >= 0 {
        ((a as u64) / (b as u64)) as i64
    } else {
        -((((-a) as u64) / (b as u64)) as i64)
    }
}

/// Truncating division never grows a value's magnitude.
pub proof fn lemma_div_trunc_bound(a: int, b: int)
    requires
        b > 0,
    ensures
        vstd::math::abs(div_trunc(a, b)) <= vstd::math::abs(a),
        a >= 0 ==> div_trunc(a, b) >= 0,
        a < 0 ==> div_trunc(a, b) <= 0,
{
    if a >= 0 {
        assert(0 <= a / b <= a) by (nonlinear_arith)
            requires
                a >= 0,
                b > 0,
        ;
    } else {
        assert(0 <= (-a) / b <= -a) by (nonlinear_arith)
            requires
                -a > 0,
                b > 0,
        ;
    }
}

/// A truncating mean stays within the bound of the summands: a sum of `n`
/// values of magnitude at most `c`, divided by `n`, has magnitude at most
/// `c`.
pub proof fn lemma_div_trunc_mean_bound(a: int, n: int, c: int)
    requires
        n > 0,
        c >= 0,
        -(n * c) <= a <= n * c,
    ensures
        -c <= div_trunc(a, n) <= c,
{
    if a >= 0 {
        vstd::arithmetic::div_mod::lemma_div_pos_is_pos(a, n);
        vstd::arithmetic::div_mod::lemma_div_is_ordered(a, n * c, n);
        vstd::arithmetic::div_mod::lemma_div_multiples_vanish(c, n);
    } else {
        vstd::arithmetic::div_mod::lemma_div_pos_is_pos(-a, n);
        vstd::arithmetic::div_mod::lemma_div_is_ordered(-a, n * c, n);
        vstd::arithmetic::div_mod::lemma_div_multiples_vanish(c, n);
    }
}

/// Clamps `v` to `[-bound, bound]`, computing [`clamp_mag`].
pub fn clamp_abs(v: i64, bound: i64) -> (r: i64)
    requires
        0 <= bound,
    ensures
        r == clamp_mag(v as int, bound as int),
        -bound <= r <= bound,
{
    if v > bound {
        bound
    } else if v < -bound {
        -bound
    } else {
        v
    }
}

} // verus!
