//! Fixed-point arithmetic helpers: truncating and rounding division,
//! clamping, and an integer square root.
//!
//! All continuous quantities in this library are carried as scaled
//! integers, so every division is given an explicit rounding policy here:
//! `div_trunc` rounds toward zero and `div_round` rounds to the nearest
//! integer with ties away from zero.

use vstd::prelude::*;
use vstd::arithmetic::div_mod::{lemma_div_is_ordered, lemma_div_by_multiple};

verus! {

/// Division rounded toward zero (the sign-symmetric quotient).
pub open spec fn div_trunc_spec(x: int, d: int) -> int {
    if x >= 0 {
        x / d
    } else {
        -((-x) / d)
    }
}

/// Division rounded to the nearest integer, ties away from zero.
pub open spec fn div_round_spec(x: int, d: int) -> int {
    if x >= 0 {
        (x + d / 2) / d
    } else {
        -((-x + d / 2) / d)
    }
}

/// Truncating division with a divisor of either sign.
pub open spec fn div_trunc_any_spec(x: int, d: int) -> int {
    if d >= 0 {
        div_trunc_spec(x, d)
    } else {
        -div_trunc_spec(x, -d)
    }
}

/// Clamping into a closed interval.
pub open spec fn clamp_spec(x: int, lo: int, hi: int) -> int {
    if x < lo {
        lo
    } else if x > hi {
        hi
    } else {
        x
    }
}

pub fn div_trunc(x: i64, d: i64) -> (r: i64)
    requires
        0 < d,
        i64::MIN < x,
    ensures
        r == div_trunc_spec(x as int, d as int),
{
    if x >= 0 {
        let q = (x as u64) / (d as u64);
        proof {
            lemma_div_is_ordered(q as int, x as int, 1);
        }
        q as i64
    } else {
        let m = -x;
        let q = (m as u64) / (d as u64);
        proof {
            lemma_div_is_ordered(q as int, m as int, 1);
        }
        -(q as i64)
    }
}

pub fn div_trunc_any(x: i64, d: i64) -> (r: i64)
    requires
        d != 0,
        i64::MIN < d,
        i64::MIN < x,
    ensures
        r == div_trunc_any_spec(x as int, d as int),
{
    if d > 0 {
        div_trunc(x, d)
    } else {
        -div_trunc(x, -d)
    }
}

pub fn div_round(x: i64, d: i64) -> (r: i64)
    requires
        0 < d <= i64::MAX / 2,
        i64::MIN / 2 < x < i64::MAX / 2,
    ensures
        r == div_round_spec(x as int, d as int),
{
    if x >= 0 {
        div_trunc(x + d / 2, d)
    } else {
        let h = d / 2;
        -div_trunc(-x + h, d)
    }
}

pub fn clamp_i64(x: i64, lo: i64, hi: i64) -> (r: i64)
    requires
        lo <= hi,
    ensures
        r == clamp_spec(x as int, lo as int, hi as int),
{
    if x < lo {
        lo
    } else if x > hi {
        hi
    } else {
        x
    }
}

/// There is exactly one integer whose square bounds `n` from below with the
/// next square above `n`; `sqrt_floor` denotes it.
pub open spec fn is_sqrt_floor(n: int, r: int) -> bool {
    0 <= r && r * r <= n && n < (r + 1) * (r + 1)
}

pub open spec fn sqrt_floor(n: int) -> int {
    choose|r: int| is_sqrt_floor(n, r)
}

pub proof fn lemma_sqrt_floor_unique(n: int, r: int)
    requires
        is_sqrt_floor(n, r),
    ensures
        sqrt_floor(n) == r,
{
    let s = choose|q: int| is_sqrt_floor(n, q);
    assert(is_sqrt_floor(n, s));
    if s < r {
        assert((s + 1) * (s + 1) <= r * r) by (nonlinear_arith)
            requires 0 <= s, s < r;
    }
    if r < s {
        assert((r + 1) * (r + 1) <= s * s) by (nonlinear_arith)
            requires 0 <= r, r < s;
    }
    assert(s == r);
}

/// Floor of the square root, by binary search.
pub fn isqrt(n: u64) -> (r: u64)
    requires
        n < 0x8000_0000_0000_0000,
    ensures
        r * r <= n < (r + 1) * (r + 1),
        r == sqrt_floor(n as int),
{
    let mut lo: u64 = 0;
    let mut hi: u64 = 3_037_000_499;
    proof {
        assert((hi + 1) * (hi + 1) > n);
    }
    while lo < hi
        invariant
            lo <= hi <= 3_037_000_499,
            lo * lo <= n,
            n < (hi + 1) * (hi + 1),
        decreases hi - lo,
    {
        let mid = lo + (hi - lo + 1) / 2;
        proof {
            assert(mid <= hi);
            assert(mid * mid <= 3_037_000_499 * 3_037_000_499) by (nonlinear_arith)
                requires 0 <= mid <= 3_037_000_499;
        }
        if mid * mid <= n {
            lo = mid;
        } else {
            hi = mid - 1;
        }
    }
    proof {
        lemma_sqrt_floor_unique(n as int, lo as int);
    }
    lo
}

/// Remainder of a division by 360 with a nonnegative result, as spec-level
/// `%` has it.
pub fn mod_euclid_360(x: i64) -> (r: i64)
    requires
        i64::MIN < x,
    ensures
        r == x as int % 360,
        0 <= r < 360,
{
    if x >= 0 {
        ((x as u64) % 360) as i64
    } else {
        let m = ((-x) as u64 % 360) as i64;
        if m == 0 {
            proof {
                assert(x % 360 == 0) by {
                    assert((-x) % 360 == 0);
                }
            }
            0
        } else {
            proof {
                assert(x % 360 == 360 - ((-x) % 360));
            }
            360 - m
        }
    }
}

/// A nonnegative quotient is bounded by any `b` with `a <= b * d`.
pub proof fn lemma_div_le(a: int, b: int, d: int)
    requires
        0 <= a,
        0 <= b,
        0 < d,
        a <= b * d,
    ensures
        a / d <= b,
{
    lemma_div_is_ordered(a, b * d, d);
    lemma_div_by_multiple(b, d);
}

} // verus!
