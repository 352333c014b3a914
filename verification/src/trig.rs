//! Fixed-point trigonometry for the animation.
//!
//! Angles are measured in milli-degrees (360000 to the turn) and sines are
//! scaled by 1000, so a sine value always lies in [-1000, 1000]. On the half
//! turn the sine is a rational approximation (a quadratic over a quadratic,
//! exact at 0, 90 and 180 degrees); the other half is its mirror image.

use vstd::prelude::*;
use vstd::arithmetic::div_mod::lemma_div_is_ordered;
use vstd::arithmetic::div_mod::lemma_div_multiples_vanish;
use vstd::arithmetic::div_mod::lemma_div_pos_is_pos;

verus! {

/// One full turn of angle, in milli-degrees.
pub const TURN_MDEG: u64 = 360000;

/// Half a turn, in milli-degrees.
pub const HALF_TURN_MDEG: u64 = 180000;

/// The scaled value of a sine of one: sines lie in [-SIN_ONE, SIN_ONE].
pub const SIN_ONE: i64 = 1000;

/// The scaled sine over the first half turn: `t` in milli-degrees within
/// [0, 180000], the result within [0, 1000].
pub open spec fn sin_poly(t: int) -> int
    recommends
        0 <= t <= 180000,
{
    let p = t * (180000 - t);
    4000 * p / (40500000000 - p)
}

/// The scaled sine of any nonnegative angle in milli-degrees.
pub open spec fn sin_milli_spec(a: int) -> int
    recommends
        a >= 0,
{
    let m = a % 360000;
    if m <= 180000 {
        sin_poly(m)
    } else {
        -sin_poly(m - 180000)
    }
}

/// The scaled cosine: the sine a quarter turn ahead.
pub open spec fn cos_milli_spec(a: int) -> int
    recommends
        a >= 0,
{
    sin_milli_spec(a + 90000)
}

/// Over the first half turn the scaled sine stays within [0, 1000].
pub proof fn lemma_sin_poly_bounds(t: int)
    requires
        0 <= t <= 180000,
    ensures
        0 <= sin_poly(t) <= 1000,
{
    let p = t * (180000 - t);
    assert(0 <= p <= 8100000000) by (nonlinear_arith)
        requires
            0 <= t <= 180000,
            p == t * (180000 - t),
    ;
    let den = 40500000000 - p;
    let num = 4000 * p;
    assert(num >= 0) by (nonlinear_arith)
        requires
            p >= 0,
            num == 4000 * p,
    ;
    lemma_div_pos_is_pos(num, den);
    assert(num <= 1000 * den) by (nonlinear_arith)
        requires
            p <= 8100000000,
            den == 40500000000 - p,
            num == 4000 * p,
    ;
    assert(num / den <= (1000 * den) / den) by {
        lemma_div_is_ordered(num, 1000 * den, den);
    }
    assert(1000 * den == den * 1000) by (nonlinear_arith);
    assert((den * 1000) / den == 1000) by {
        lemma_div_multiples_vanish(1000, den);
    }
}

/// The scaled sine over the first half turn, executably.
fn sin_poly_exec(t: u64) -> (r: i64)
    requires
        t <= 180000,
    ensures
        r == sin_poly(t as int),
        0 <= r <= 1000,
{
    proof {
        lemma_sin_poly_bounds(t as int);
        assert(0 <= (t as int) * (180000 - t as int) <= 8100000000) by (nonlinear_arith)
            requires
                0 <= t as int <= 180000,
        ;
    }
    let p = t * (180000 - t);
    let num = 4000 * p;
    let den = 40500000000 - p;
    let q = num / den;
    q as i64
}

/// The scaled sine of an angle in milli-degrees, executably.
pub fn sin_milli(a: u64) -> (r: i64)
    ensures
        r == sin_milli_spec(a as int),
        -1000 <= r <= 1000,
{
    let m = a % 360000;
    if m <= 180000 {
        sin_poly_exec(m)
    } else {
        let v = sin_poly_exec(m - 180000);
        -v
    }
}

/// The scaled cosine of an angle in milli-degrees, executably.
pub fn cos_milli(a: u64) -> (r: i64)
    requires
        a <= 0xffff_ffff_fff0_0000,
    ensures
        r == cos_milli_spec(a as int),
        -1000 <= r <= 1000,
{
    sin_milli(a + 90000)
}

} // verus!
