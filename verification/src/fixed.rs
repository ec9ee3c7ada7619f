//! Fixed-point scalars and the integer square root.
//!
//! A scalar of type `i64` stands for the real number `value / FX_ONE`.
//! Division helpers round toward zero, like Rust's `/` on signed integers,
//! and their contracts say so exactly through `div_trunc`.

use vstd::prelude::*;

verus! {

/// Number of fixed-point subunits in one world unit.
pub const FX_ONE: i64 = 1024;

/// Largest magnitude a position coordinate may take.
pub const POS_LIMIT: i64 = 0x10_0000_0000;

/// Largest magnitude a velocity component, speed, radius or extent may take.
pub const MAG_LIMIT: i64 = 0x100_0000;

/// Largest magnitude an acceleration stat may take; small enough that one
/// steering step stays within the normalizer's working range.
pub const ACCEL_LIMIT: i64 = 0x10_0000;

/// Largest speed a projectile stat may carry; rotating a velocity of this
/// speed stays within `MAG_LIMIT` per coordinate.
pub const SPEED_CAP: i64 = 0x80_0000;

/// Truncating (round-toward-zero) division, the semantics of `/` on `i64`.
/// Unspecified for `d <= 0`; every use divides by a positive number.
pub open spec fn div_trunc(n: int, d: int) -> int {
    if n >= 0 {
        n / d
    } else {
        -((-n) / d)
    }
}

/// Quotient of `n / d` rounding toward zero, for a positive divisor.
pub fn div_fx(n: i64, d: i64) -> (q: i64)
    requires
        d > 0,
        n > i64::MIN,
    ensures
        q == div_trunc(n as int, d as int),
        n >= 0 ==> 0 <= q <= n,
        n < 0 ==> n <= q <= 0,
{
    if n >= 0 {
        let un: u64 = n as u64;
        let ud: u64 = d as u64;
        let uq: u64 = un / ud;
        assert(uq == n as int / d as int) by (nonlinear_arith)
            requires un == n, ud == d, n >= 0, d > 0, uq == un / ud;
        assert(n as int / d as int <= n as int) by (nonlinear_arith)
            requires n >= 0, d > 0;
        assert(n as int / d as int >= 0) by (nonlinear_arith)
            requires n >= 0, d > 0;
        uq as i64
    } else {
        let un: u64 = (-n) as u64;
        let ud: u64 = d as u64;
        let uq: u64 = un / ud;
        assert(uq == (-n) as int / d as int) by (nonlinear_arith)
            requires un == -n, ud == d, n < 0, n > i64::MIN, d > 0, uq == un / ud;
        assert(0 <= (-n) as int / d as int <= (-n) as int) by (nonlinear_arith)
            requires n < 0, n > i64::MIN, d > 0;
        -(uq as i64)
    }
}

/// Truncating division by a positive divisor negates with its numerator.
pub proof fn lemma_div_trunc_neg(n: int, d: int)
    requires
        d >= 1,
    ensures
        div_trunc(-n, d) == -div_trunc(n, d),
{
    if n == 0 {
        assert(0int / d == 0) by (nonlinear_arith)
            requires d >= 1;
    }
}

/// Truncating division by a positive divisor keeps the numerator's sign.
pub proof fn lemma_div_trunc_sign(n: int, d: int)
    requires
        d >= 1,
    ensures
        n >= 0 ==> div_trunc(n, d) >= 0,
        n <= 0 ==> div_trunc(n, d) <= 0,
{
    if n >= 0 {
        assert(n / d >= 0) by (nonlinear_arith)
            requires d >= 1, n >= 0;
    } else {
        assert((-n) / d >= 0) by (nonlinear_arith)
            requires d >= 1, -n >= 0;
    }
}

/// Clamp `x` into `[lo, hi]`.
pub fn clamp_fx(x: i64, lo: i64, hi: i64) -> (r: i64)
    requires
        lo <= hi,
    ensures
        r == clamp_spec(x as int, lo as int, hi as int),
{
    if x < lo {
        lo
    } else if x > hi {
        hi
    } else {
        x
    }
}

pub open spec fn clamp_spec(x: int, lo: int, hi: int) -> int {
    if x < lo {
        lo
    } else if x > hi {
        hi
    } else {
        x
    }
}

/// Floor of the square root of `n`, defined by counting up from zero.
pub open spec fn sqrt_floor(n: int) -> int
    decreases n,
{
    if n <= 0 {
        0
    } else {
        let r = sqrt_floor(n - 1);
        if (r + 1) * (r + 1) <= n {
            r + 1
        } else {
            r
        }
    }
}

/// `sqrt_floor(n)` is the unique `r >= 0` with `r * r <= n < (r + 1) * (r + 1)`.
pub proof fn lemma_sqrt_floor_bounds(n: int)
    requires
        n >= 0,
    ensures
        sqrt_floor(n) >= 0,
        sqrt_floor(n) * sqrt_floor(n) <= n,
        n < (sqrt_floor(n) + 1) * (sqrt_floor(n) + 1),
    decreases n,
{
    if n == 0 {
    } else {
        lemma_sqrt_floor_bounds(n - 1);
        let r = sqrt_floor(n - 1);
        if (r + 1) * (r + 1) <= n {
            assert(n <= (r + 1) * (r + 1)) by (nonlinear_arith)
                requires n - 1 < (r + 1) * (r + 1);
            assert((r + 1) * (r + 1) < (r + 2) * (r + 2)) by (nonlinear_arith)
                requires r >= 0;
        }
    }
}

pub proof fn lemma_sqrt_floor_unique(n: int, r: int)
    requires
        n >= 0,
        r >= 0,
        r * r <= n,
        n < (r + 1) * (r + 1),
    ensures
        r == sqrt_floor(n),
{
    lemma_sqrt_floor_bounds(n);
    let s = sqrt_floor(n);
    if r < s {
        assert((r + 1) * (r + 1) <= s * s) by (nonlinear_arith)
            requires 0 <= r, r + 1 <= s;
        assert(false);
    }
    if s < r {
        assert((s + 1) * (s + 1) <= r * r) by (nonlinear_arith)
            requires 0 <= s, s + 1 <= r;
        assert(false);
    }
}

/// Upper bound (exclusive) on arguments to `isqrt`.
pub const SQRT_ARG_LIMIT: u128 = 0x1000000000000000000000;

/// Upper bound (exclusive) on results of `isqrt`; its square is `SQRT_ARG_LIMIT`.
pub const SQRT_RES_LIMIT: u128 = 0x40000000000;

/// Integer square root by binary search on the answer.
pub fn isqrt(n: u128) -> (r: u128)
    requires
        n < SQRT_ARG_LIMIT,
    ensures
        r == sqrt_floor(n as int),
        r * r <= n < (r + 1) * (r + 1),
        r < SQRT_RES_LIMIT,
{
    let mut lo: u128 = 0;
    let mut hi: u128 = SQRT_RES_LIMIT;
    assert(0x40000000000u128 * 0x40000000000u128 == 0x1000000000000000000000u128)
        by (nonlinear_arith);
    while hi - lo > 1
        invariant
            0 <= lo < hi <= SQRT_RES_LIMIT,
            lo * lo <= n,
            n < hi * hi,
        decreases hi - lo,
    {
        let mid: u128 = lo + (hi - lo) / 2;
        assert(lo < mid < hi);
        assert(mid * mid < 0x1000000000000000000000) by (nonlinear_arith)
            requires mid < 0x40000000000u128;
        if mid * mid <= n {
            lo = mid;
        } else {
            hi = mid;
        }
    }
    proof {
        lemma_sqrt_floor_unique(n as int, lo as int);
    }
    lo
}

} // verus!
