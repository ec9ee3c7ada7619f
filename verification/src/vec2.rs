//! Two-dimensional fixed-point vectors.
//!
//! Every operation has an exact contract: the result is the stated integer
//! formula, with division rounding toward zero. Magnitude preconditions keep
//! all intermediate products inside `i64` (squared lengths are computed in
//! `i128` and need no precondition at all).

use vstd::prelude::*;

use crate::fixed::{div_fx, div_trunc, isqrt, sqrt_floor, lemma_sqrt_floor_unique,
    lemma_sqrt_floor_bounds, clamp_fx, clamp_spec};

verus! {

/// Largest coordinate magnitude accepted by `length`.
pub const LEN_COORD_LIMIT: i64 = 0x20000000000;

/// Largest coordinate magnitude accepted by `normalize_to`.
pub const NORM_COORD_LIMIT: i64 = 0x2000000000;

/// Largest target length accepted by `normalize_to`.
pub const NORM_TARGET_LIMIT: i64 = 0x1000000;

#[derive(Clone, Copy, PartialEq, Eq, Structural, Debug)]
pub struct Vec2Fx {
    pub x: i64,
    pub y: i64,
}

/// Both coordinates of `v` lie in `[-lim, lim]`.
pub open spec fn v2_in(v: Vec2Fx, lim: int) -> bool {
    -lim <= v.x <= lim && -lim <= v.y <= lim
}

/// Squared length of `v`, in exact integer arithmetic.
pub open spec fn len2_spec(v: Vec2Fx) -> int {
    v.x * v.x + v.y * v.y
}

/// Length of `v`: the floor of the square root of the squared length.
pub open spec fn length_spec(v: Vec2Fx) -> int {
    sqrt_floor(len2_spec(v))
}

/// The vector `v` scaled so that its length is close to `m`:
/// each coordinate is `v * m / |v|` with truncating division.
pub open spec fn normalize_to_spec(v: Vec2Fx, m: int) -> Vec2Fx {
    Vec2Fx {
        x: div_trunc(v.x * m, length_spec(v)) as i64,
        y: div_trunc(v.y * m, length_spec(v)) as i64,
    }
}

impl Vec2Fx {
    pub fn new(x: i64, y: i64) -> (r: Vec2Fx)
        ensures
            r.x == x && r.y == y,
    {
        Vec2Fx { x, y }
    }

    pub fn zero() -> (r: Vec2Fx)
        ensures
            r.x == 0 && r.y == 0,
    {
        Vec2Fx { x: 0, y: 0 }
    }

    pub fn plus(self, o: Vec2Fx) -> (r: Vec2Fx)
        requires
            i64::MIN <= self.x + o.x <= i64::MAX,
            i64::MIN <= self.y + o.y <= i64::MAX,
        ensures
            r.x == self.x + o.x && r.y == self.y + o.y,
    {
        Vec2Fx { x: self.x + o.x, y: self.y + o.y }
    }

    pub fn minus(self, o: Vec2Fx) -> (r: Vec2Fx)
        requires
            i64::MIN <= self.x - o.x <= i64::MAX,
            i64::MIN <= self.y - o.y <= i64::MAX,
        ensures
            r.x == self.x - o.x && r.y == self.y - o.y,
    {
        Vec2Fx { x: self.x - o.x, y: self.y - o.y }
    }

    pub fn neg_v(self) -> (r: Vec2Fx)
        requires
            self.x > i64::MIN,
            self.y > i64::MIN,
        ensures
            r.x == -self.x && r.y == -self.y,
    {
        Vec2Fx { x: -self.x, y: -self.y }
    }

    /// Add `o` coordinate-wise, clamping each coordinate into `[-lim, lim]`.
    pub fn plus_clamped(self, o: Vec2Fx, lim: i64) -> (r: Vec2Fx)
        requires
            0 <= lim,
            v2_in(self, lim as int),
            -0x4000_0000_0000_0000 <= o.x <= 0x4000_0000_0000_0000,
            -0x4000_0000_0000_0000 <= o.y <= 0x4000_0000_0000_0000,
            lim < 0x4000_0000_0000_0000,
        ensures
            r.x == clamp_spec(self.x + o.x, -lim as int, lim as int),
            r.y == clamp_spec(self.y + o.y, -lim as int, lim as int),
            v2_in(r, lim as int),
    {
        Vec2Fx {
            x: clamp_fx(self.x + o.x, -lim, lim),
            y: clamp_fx(self.y + o.y, -lim, lim),
        }
    }

    /// Dot product, in `i128` so that it never overflows.
    pub fn dot_wide(self, o: Vec2Fx) -> (r: i128)
        requires
            v2_in(self, 0x4000000000000000),
            v2_in(o, 0x4000000000000000),
        ensures
            r == self.x * o.x + self.y * o.y,
    {
        let ax: i128 = self.x as i128;
        let ay: i128 = self.y as i128;
        let bx: i128 = o.x as i128;
        let by: i128 = o.y as i128;
        proof {
            assert(ax * bx == self.x * o.x) by (nonlinear_arith)
                requires ax == self.x, bx == o.x;
            assert(ay * by == self.y * o.y) by (nonlinear_arith)
                requires ay == self.y, by == o.y;
            assert(-0x10000000000000000000000000000000 <= ax * bx
                <= 0x10000000000000000000000000000000) by (nonlinear_arith)
                requires -0x4000000000000000 <= ax <= 0x4000000000000000,
                    -0x4000000000000000 <= bx <= 0x4000000000000000;
            assert(-0x10000000000000000000000000000000 <= ay * by
                <= 0x10000000000000000000000000000000) by (nonlinear_arith)
                requires -0x4000000000000000 <= ay <= 0x4000000000000000,
                    -0x4000000000000000 <= by <= 0x4000000000000000;
        }
        ax * bx + ay * by
    }

    /// Z component of the cross product, in `i128`.
    pub fn cross_wide(self, o: Vec2Fx) -> (r: i128)
        requires
            v2_in(self, 0x4000000000000000),
            v2_in(o, 0x4000000000000000),
        ensures
            r == self.x * o.y - self.y * o.x,
    {
        let ax: i128 = self.x as i128;
        let ay: i128 = self.y as i128;
        let bx: i128 = o.x as i128;
        let by: i128 = o.y as i128;
        proof {
            assert(ax * by == self.x * o.y) by (nonlinear_arith)
                requires ax == self.x, by == o.y;
            assert(ay * bx == self.y * o.x) by (nonlinear_arith)
                requires ay == self.y, bx == o.x;
            assert(-0x10000000000000000000000000000000 <= ax * by
                <= 0x10000000000000000000000000000000) by (nonlinear_arith)
                requires -0x4000000000000000 <= ax <= 0x4000000000000000,
                    -0x4000000000000000 <= by <= 0x4000000000000000;
            assert(-0x10000000000000000000000000000000 <= ay * bx
                <= 0x10000000000000000000000000000000) by (nonlinear_arith)
                requires -0x4000000000000000 <= ay <= 0x4000000000000000,
                    -0x4000000000000000 <= bx <= 0x4000000000000000;
        }
        ax * by - ay * bx
    }

    /// Squared length, in `i128` so that it never overflows.
    pub fn len2_wide(self) -> (r: i128)
        requires
            v2_in(self, 0x4000000000000000),
        ensures
            r == len2_spec(self),
            r >= 0,
    {
        let ax: i128 = self.x as i128;
        let ay: i128 = self.y as i128;
        proof {
            assert(ax * ax == self.x * self.x && ax * ax >= 0
                && ax * ax <= 0x10000000000000000000000000000000) by (nonlinear_arith)
                requires ax == self.x, -0x4000000000000000 <= ax <= 0x4000000000000000;
            assert(ay * ay == self.y * self.y && ay * ay >= 0
                && ay * ay <= 0x10000000000000000000000000000000) by (nonlinear_arith)
                requires ay == self.y, -0x4000000000000000 <= ay <= 0x4000000000000000;
        }
        ax * ax + ay * ay
    }

    /// Length of the vector.
    pub fn length(self) -> (r: i64)
        requires
            v2_in(self, LEN_COORD_LIMIT as int),
        ensures
            r == length_spec(self),
            0 <= r < 0x40000000000,
            len2_spec(self) > 0 ==> r >= 1,
    {
        let l2: i128 = self.len2_wide();
        proof {
            assert(self.x * self.x <= 0x20000000000i64 * 0x20000000000i64
                && self.y * self.y <= 0x20000000000i64 * 0x20000000000i64) by (nonlinear_arith)
                requires -0x20000000000 <= self.x <= 0x20000000000,
                    -0x20000000000 <= self.y <= 0x20000000000;
            assert(l2 < 0x1000000000000000000000);
            if len2_spec(self) > 0 {
                lemma_sqrt_floor_bounds(l2 as int);
                let s = sqrt_floor(l2 as int);
                if s == 0 {
                    assert((s + 1) * (s + 1) == 1) by (nonlinear_arith)
                        requires s == 0;
                    assert(false);
                }
            }
        }
        let r: u128 = isqrt(l2 as u128);
        r as i64
    }

    /// Scale this vector so that its length becomes (nearly) `m`.
    /// Each result coordinate is exactly `self * m / |self|`, rounded toward
    /// zero, which keeps its magnitude at most `m`.
    pub fn normalize_to(self, m: i64) -> (r: Vec2Fx)
        requires
            v2_in(self, NORM_COORD_LIMIT as int),
            0 <= m <= NORM_TARGET_LIMIT,
            len2_spec(self) > 0,
        ensures
            r == normalize_to_spec(self, m as int),
            v2_in(r, m as int),
    {
        let len: i64 = self.length();
        proof {
            lemma_sqrt_floor_bounds(len2_spec(self));
            lemma_coord_le_length(self);
            assert(self.x * m <= 0x2000000000i64 * 0x1000000i64
                && self.x * m >= -(0x2000000000i64 * 0x1000000i64)
                && self.y * m <= 0x2000000000i64 * 0x1000000i64
                && self.y * m >= -(0x2000000000i64 * 0x1000000i64)) by (nonlinear_arith)
                requires -0x2000000000 <= self.x <= 0x2000000000,
                    -0x2000000000 <= self.y <= 0x2000000000, 0 <= m <= 0x1000000;
        }
        let nx: i64 = self.x * m;
        let ny: i64 = self.y * m;
        let rx: i64 = div_fx(nx, len);
        let ry: i64 = div_fx(ny, len);
        proof {
            lemma_div_trunc_scaled_bound(self.x as int, m as int, len as int);
            lemma_div_trunc_scaled_bound(self.y as int, m as int, len as int);
        }
        Vec2Fx { x: rx, y: ry }
    }
}

/// Normalizing a nonzero vector to a target length of at least two gives
/// a nonzero vector.
pub proof fn lemma_normalize_nonzero(v: Vec2Fx, m: int)
    requires
        len2_spec(v) > 0,
        2 <= m <= NORM_TARGET_LIMIT,
        v2_in(v, NORM_COORD_LIMIT as int),
    ensures
        !(normalize_to_spec(v, m).x == 0 && normalize_to_spec(v, m).y == 0),
{
    lemma_sqrt_floor_bounds(len2_spec(v));
    let len = length_spec(v);
    if len == 0 {
        assert((len + 1) * (len + 1) == 1) by (nonlinear_arith)
            requires len == 0;
        assert(false);
    }
    lemma_coord_le_length(v);
    lemma_div_trunc_scaled_bound(v.x as int, m, len);
    lemma_div_trunc_scaled_bound(v.y as int, m, len);
    let r = normalize_to_spec(v, m);
    if r.x == 0 && r.y == 0 {
        assert(div_trunc(v.x * m, len) == 0 && div_trunc(v.y * m, len) == 0);
        lemma_small_quotient(v.x * m, len);
        lemma_small_quotient(v.y * m, len);
        assert((v.x * m) * (v.x * m) <= (len - 1) * (len - 1)) by (nonlinear_arith)
            requires -(len - 1) <= v.x * m <= len - 1;
        assert((v.y * m) * (v.y * m) <= (len - 1) * (len - 1)) by (nonlinear_arith)
            requires -(len - 1) <= v.y * m <= len - 1;
        assert((v.x * m) * (v.x * m) + (v.y * m) * (v.y * m) == (m * m) * len2_spec(v))
            by (nonlinear_arith);
        assert((m * m) * len2_spec(v) >= 4 * len2_spec(v)) by (nonlinear_arith)
            requires m >= 2, len2_spec(v) > 0;
        assert(len * len <= len2_spec(v));
        assert(2 * ((len - 1) * (len - 1)) < 4 * (len * len)) by (nonlinear_arith)
            requires len >= 1;
        assert(false);
    }
}

/// A zero truncated quotient with a positive divisor bounds the numerator
/// strictly below the divisor in magnitude.
proof fn lemma_small_quotient(a: int, d: int)
    requires
        d >= 1,
        div_trunc(a, d) == 0,
    ensures
        -(d - 1) <= a <= d - 1,
{
    if a >= 0 {
        assert(a / d == 0 ==> a < d) by (nonlinear_arith)
            requires d >= 1, a >= 0;
    } else {
        assert((-a) / d == 0 ==> -a < d) by (nonlinear_arith)
            requires d >= 1, -a >= 0;
    }
}

/// A bound on the squared length bounds each coordinate.
pub proof fn lemma_coord_from_len2(v: Vec2Fx, b: int)
    requires
        b > 0,
        len2_spec(v) < b * b,
    ensures
        v2_in(v, b),
{
    assert(v.x * v.x >= 0 && v.y * v.y >= 0) by (nonlinear_arith);
    if v.x > b || v.x < -b {
        assert(v.x * v.x >= b * b) by (nonlinear_arith)
            requires b > 0, v.x > b || v.x < -b;
        assert(false);
    }
    if v.y > b || v.y < -b {
        assert(v.y * v.y >= b * b) by (nonlinear_arith)
            requires b > 0, v.y > b || v.y < -b;
        assert(false);
    }
}

/// A squared length is never negative, and vanishes only on the zero vector.
pub proof fn lemma_len2_nonneg(v: Vec2Fx)
    ensures
        len2_spec(v) >= 0,
        len2_spec(v) == 0 <==> v.x == 0 && v.y == 0,
{
    assert(v.x * v.x >= 0 && v.y * v.y >= 0) by (nonlinear_arith);
    assert(v.x != 0 ==> v.x * v.x > 0) by (nonlinear_arith);
    assert(v.y != 0 ==> v.y * v.y > 0) by (nonlinear_arith);
}

/// Normalizing the negated vector negates the normalized vector.
pub proof fn lemma_normalize_neg(v: Vec2Fx, n: Vec2Fx, m: int)
    requires
        n.x == -v.x && n.y == -v.y,
        len2_spec(v) > 0,
        -0x2000000000 <= v.x <= 0x2000000000,
        -0x2000000000 <= v.y <= 0x2000000000,
        0 <= m <= NORM_TARGET_LIMIT,
    ensures
        normalize_to_spec(n, m).x == -normalize_to_spec(v, m).x,
        normalize_to_spec(n, m).y == -normalize_to_spec(v, m).y,
{
    assert(n.x * n.x == v.x * v.x && n.y * n.y == v.y * v.y) by (nonlinear_arith)
        requires n.x == -v.x, n.y == -v.y;
    assert(len2_spec(n) == len2_spec(v));
    let len = length_spec(v);
    lemma_sqrt_floor_bounds(len2_spec(v));
    let s = sqrt_floor(len2_spec(v));
    if s == 0 {
        assert((s + 1) * (s + 1) == 1) by (nonlinear_arith)
            requires s == 0;
        assert(false);
    }
    assert(n.x * m == -(v.x * m) && n.y * m == -(v.y * m)) by (nonlinear_arith)
        requires n.x == -v.x, n.y == -v.y;
    crate::fixed::lemma_div_trunc_neg(v.x * m, len);
    crate::fixed::lemma_div_trunc_neg(v.y * m, len);
    lemma_coord_le_length(v);
    lemma_div_trunc_scaled_bound(v.x as int, m, len);
    lemma_div_trunc_scaled_bound(v.y as int, m, len);
}

/// Each coordinate is bounded in magnitude by the length of the vector.
pub proof fn lemma_coord_le_length(v: Vec2Fx)
    ensures
        -length_spec(v) <= v.x <= length_spec(v),
        -length_spec(v) <= v.y <= length_spec(v),
{
    assert(len2_spec(v) == v.x * v.x + v.y * v.y);
    assert(v.x * v.x >= 0 && v.y * v.y >= 0) by (nonlinear_arith);
    lemma_sqrt_floor_bounds(len2_spec(v));
    let l = length_spec(v);
    assert(v.x * v.x <= len2_spec(v) && v.y * v.y <= len2_spec(v));
    if v.x > l {
        assert(v.x * v.x > (l + 1) * (l + 1) - 1) by (nonlinear_arith)
            requires v.x >= l + 1, l >= 0;
        assert(false);
    }
    if v.x < -l {
        assert(v.x * v.x > (l + 1) * (l + 1) - 1) by (nonlinear_arith)
            requires v.x <= -(l + 1), l >= 0;
        assert(false);
    }
    if v.y > l {
        assert(v.y * v.y > (l + 1) * (l + 1) - 1) by (nonlinear_arith)
            requires v.y >= l + 1, l >= 0;
        assert(false);
    }
    if v.y < -l {
        assert(v.y * v.y > (l + 1) * (l + 1) - 1) by (nonlinear_arith)
            requires v.y <= -(l + 1), l >= 0;
        assert(false);
    }
}

/// If `|a| <= len` then `|a * m / len| <= m` for truncating division.
pub proof fn lemma_div_trunc_scaled_bound(a: int, m: int, len: int)
    requires
        len >= 1,
        -len <= a <= len,
        m >= 0,
    ensures
        -m <= div_trunc(a * m, len) <= m,
{
    if a >= 0 {
        assert(0 <= a * m <= len * m) by (nonlinear_arith)
            requires 0 <= a <= len, m >= 0;
        assert(a * m / len <= len * m / len) by (nonlinear_arith)
            requires len >= 1, a * m <= len * m;
        assert(len * m / len == m) by (nonlinear_arith)
            requires len >= 1, m >= 0;
        assert(a * m / len >= 0) by (nonlinear_arith)
            requires len >= 1, a * m >= 0;
    } else {
        assert(0 <= (-a) * m <= len * m) by (nonlinear_arith)
            requires 0 <= -a <= len, m >= 0;
        assert((-a) * m / len <= len * m / len) by (nonlinear_arith)
            requires len >= 1, (-a) * m <= len * m;
        assert(len * m / len == m) by (nonlinear_arith)
            requires len >= 1, m >= 0;
        assert((-a) * m / len >= 0) by (nonlinear_arith)
            requires len >= 1, (-a) * m >= 0;
        assert(-(a * m) == (-a) * m) by (nonlinear_arith);
    }
}

} // verus!
