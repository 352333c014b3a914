//! Integer arithmetic helpers for the fixed-point animation: a square root,
//! and divisions with chosen rounding. All quantities are sub-pixel units.

use vstd::prelude::*;

verus! {

/// The greatest `r` with `r * r <= n`.
pub open spec fn sqrt_floor(n: nat) -> nat
    decreases n,
{
    if n == 0 {
        0
    } else {
        let p = sqrt_floor((n - 1) as nat);
        if (p + 1) * (p + 1) <= n {
            p + 1
        } else {
            p
        }
    }
}

/// `sqrt_floor(n)` is the floor of the square root of `n`.
pub proof fn lemma_sqrt_floor(n: nat)
    ensures
        sqrt_floor(n) * sqrt_floor(n) <= n,
        n < (sqrt_floor(n) + 1) * (sqrt_floor(n) + 1),
    decreases n,
{
    if n > 0 {
        lemma_sqrt_floor((n - 1) as nat);
        let p = sqrt_floor((n - 1) as nat);
        assert(p * p <= n - 1);
        assert(n - 1 < (p + 1) * (p + 1));
        if (p + 1) * (p + 1) <= n {
            assert(sqrt_floor(n) == p + 1);
            assert(n <= (p + 1) * (p + 1));
            assert(n < (p + 2) * (p + 2)) by (nonlinear_arith)
                requires
                    n <= (p + 1) * (p + 1),
                    p >= 0,
            ;
        } else {
            assert(sqrt_floor(n) == p);
        }
    } else {
        assert(n == 0);
        assert(sqrt_floor(n) == 0);
        assert((0 + 1) * (0 + 1) == 1) by (nonlinear_arith);
    }
}

/// Any `r` whose square brackets `n` is `sqrt_floor(n)`.
pub proof fn lemma_sqrt_floor_is(n: nat, r: nat)
    requires
        r * r <= n,
        n < (r + 1) * (r + 1),
    ensures
        r == sqrt_floor(n),
{
    lemma_sqrt_floor(n);
    let s = sqrt_floor(n);
    assert(r == s) by (nonlinear_arith)
        requires
            r * r <= n,
            n < (r + 1) * (r + 1),
            s * s <= n,
            n < (s + 1) * (s + 1),
    ;
}

/// The floor of the square root, executably: binary search on the answer.
pub fn isqrt(n: u64) -> (r: u64)
    ensures
        r == sqrt_floor(n as nat),
{
    let n_wide = n as u128;
    let mut lo: u128 = 0;
    let mut hi: u128 = 4294967296;
    proof {
        assert((4294967296u128 as int) * (4294967296u128 as int) > n as int) by (nonlinear_arith)
            requires
                n < 18446744073709551616,
        ;
    }
    while lo + 1 < hi
        invariant
            0 <= lo < hi <= 4294967296,
            n_wide == n,
            (lo as int) * (lo as int) <= n as int,
            (n as int) < (hi as int) * (hi as int),
        decreases hi - lo,
    {
        let mid = lo + (hi - lo) / 2;
        proof {
            assert((mid as int) * (mid as int) <= (4294967296int) * (4294967296int))
                by (nonlinear_arith)
                requires
                    0 <= mid as int <= 4294967296,
            ;
        }
        if mid * mid <= n_wide {
            lo = mid;
        } else {
            hi = mid;
        }
    }
    proof {
        lemma_sqrt_floor_is(n as nat, lo as nat);
    }
    lo as u64
}

/// Division of nonnegative `a` by positive `b`, rounded up.
pub open spec fn ceil_div_spec(a: int, b: int) -> int
    recommends
        a >= 0,
        b > 0,
{
    (a + b - 1) / b
}

/// Rounded-up division, executably.
pub fn ceil_div(a: u64, b: u64) -> (r: u64)
    requires
        0 < b,
        a <= 0xffff_ffff_ffff_0000,
        b <= 0xffff,
    ensures
        r == ceil_div_spec(a as int, b as int),
{
    (a + b - 1) / b
}

/// Division of `a` by positive `b`, rounded away from zero.
pub open spec fn div_away_spec(a: int, b: int) -> int
    recommends
        b > 0,
{
    if a >= 0 {
        (a + b - 1) / b
    } else {
        -((-a + b - 1) / b)
    }
}

/// Division of `a` by positive `b`, rounded toward zero.
pub open spec fn div_trunc_spec(a: int, b: int) -> int
    recommends
        b > 0,
{
    if a >= 0 {
        a / b
    } else {
        -((-a) / b)
    }
}

/// A quotient lies within `[-k, k]` when the dividend lies within
/// `[-(k * b), k * b]`.
pub proof fn lemma_div_trunc_in(a: int, b: int, k: int)
    requires
        0 < b,
        0 <= k,
        -(k * b) <= a <= k * b,
    ensures
        -k <= div_trunc_spec(a, b) <= k,
{
    assert(k * b == b * k) by (nonlinear_arith);
    vstd::arithmetic::div_mod::lemma_div_multiples_vanish(k, b);
    if a >= 0 {
        vstd::arithmetic::div_mod::lemma_div_is_ordered(a, k * b, b);
        vstd::arithmetic::div_mod::lemma_div_pos_is_pos(a, b);
    } else {
        vstd::arithmetic::div_mod::lemma_div_is_ordered(-a, k * b, b);
        vstd::arithmetic::div_mod::lemma_div_pos_is_pos(-a, b);
    }
}

/// Rounded-away-from-zero division, executably.
pub fn div_away(a: i64, b: i64) -> (r: i64)
    requires
        0 < b <= 1_000_000_000,
        -1_000_000_000_000_000 <= a <= 1_000_000_000_000_000,
    ensures
        r == div_away_spec(a as int, b as int),
        a >= 0 ==> 0 <= r <= a,
        a < 0 ==> a <= r <= 0,
{
    let bu = b as u64;
    if a >= 0 {
        let q = ((a as u64) + bu - 1) / bu;
        proof {
            assert(q <= a as u64) by (nonlinear_arith)
                requires
                    q == ((a as u64) as int + bu as int - 1) / (bu as int),
                    bu >= 1,
                    a >= 0,
                    bu == b,
            ;
        }
        q as i64
    } else {
        let m = (-a) as u64;
        let q = (m + bu - 1) / bu;
        proof {
            assert(q <= m) by (nonlinear_arith)
                requires
                    q == (m as int + bu as int - 1) / (bu as int),
                    bu >= 1,
                    m >= 1,
            ;
        }
        -(q as i64)
    }
}

/// Rounded-toward-zero division, executably.
pub fn div_trunc(a: i64, b: i64) -> (r: i64)
    requires
        0 < b <= 1_000_000_000,
        -1_000_000_000_000_000 <= a <= 1_000_000_000_000_000,
    ensures
        r == div_trunc_spec(a as int, b as int),
        a >= 0 ==> 0 <= r <= a,
        a < 0 ==> a <= r <= 0,
{
    let bu = b as u64;
    if a >= 0 {
        let q = (a as u64) / bu;
        proof {
            assert(q <= a as u64) by (nonlinear_arith)
                requires
                    q == ((a as u64) as int) / (bu as int),
                    bu >= 1,
            ;
        }
        q as i64
    } else {
        let q = ((-a) as u64) / bu;
        proof {
            assert(q <= (-a) as u64) by (nonlinear_arith)
                requires
                    q == (((-a) as u64) as int) / (bu as int),
                    bu >= 1,
            ;
        }
        -(q as i64)
    }
}

} // verus!
