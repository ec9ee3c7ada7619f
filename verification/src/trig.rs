//! Fixed-point trigonometry on whole degrees.
//!
//! `sin_q(d)` is the sine of `d` degrees scaled by `FX_ONE` and rounded to
//! the nearest integer, tabulated for the first quadrant; the other
//! quadrants come from the usual symmetries. `rotate_pair` applies a
//! rotation given as a fixed-point cosine/sine pair.

use vstd::prelude::*;

use crate::fixed::div_trunc;
use crate::vec2::{Vec2Fx, v2_in};

verus! {

/// Largest coordinate magnitude accepted by the rotation helpers.
pub const ROT_COORD_LIMIT: i64 = 0x1000000;

/// Sine of `d` degrees for `0 <= d <= 90`, scaled by `FX_ONE`,
/// rounded to nearest.
pub open spec fn sin_q(d: int) -> int {
    if d <= 0 { 0 }
    else if d <= 1 { 18 }
    else if d <= 2 { 36 }
    else if d <= 3 { 54 }
    else if d <= 4 { 71 }
    else if d <= 5 { 89 }
    else if d <= 6 { 107 }
    else if d <= 7 { 125 }
    else if d <= 8 { 143 }
    else if d <= 9 { 160 }
    else if d <= 10 { 178 }
    else if d <= 11 { 195 }
    else if d <= 12 { 213 }
    else if d <= 13 { 230 }
    else if d <= 14 { 248 }
    else if d <= 15 { 265 }
    else if d <= 16 { 282 }
    else if d <= 17 { 299 }
    else if d <= 18 { 316 }
    else if d <= 19 { 333 }
    else if d <= 20 { 350 }
    else if d <= 21 { 367 }
    else if d <= 22 { 384 }
    else if d <= 23 { 400 }
    else if d <= 24 { 416 }
    else if d <= 25 { 433 }
    else if d <= 26 { 449 }
    else if d <= 27 { 465 }
    else if d <= 28 { 481 }
    else if d <= 29 { 496 }
    else if d <= 30 { 512 }
    else if d <= 31 { 527 }
    else if d <= 32 { 543 }
    else if d <= 33 { 558 }
    else if d <= 34 { 573 }
    else if d <= 35 { 587 }
    else if d <= 36 { 602 }
    else if d <= 37 { 616 }
    else if d <= 38 { 630 }
    else if d <= 39 { 644 }
    else if d <= 40 { 658 }
    else if d <= 41 { 672 }
    else if d <= 42 { 685 }
    else if d <= 43 { 698 }
    else if d <= 44 { 711 }
    else if d <= 45 { 724 }
    else if d <= 46 { 737 }
    else if d <= 47 { 749 }
    else if d <= 48 { 761 }
    else if d <= 49 { 773 }
    else if d <= 50 { 784 }
    else if d <= 51 { 796 }
    else if d <= 52 { 807 }
    else if d <= 53 { 818 }
    else if d <= 54 { 828 }
    else if d <= 55 { 839 }
    else if d <= 56 { 849 }
    else if d <= 57 { 859 }
    else if d <= 58 { 868 }
    else if d <= 59 { 878 }
    else if d <= 60 { 887 }
    else if d <= 61 { 896 }
    else if d <= 62 { 904 }
    else if d <= 63 { 912 }
    else if d <= 64 { 920 }
    else if d <= 65 { 928 }
    else if d <= 66 { 935 }
    else if d <= 67 { 943 }
    else if d <= 68 { 949 }
    else if d <= 69 { 956 }
    else if d <= 70 { 962 }
    else if d <= 71 { 968 }
    else if d <= 72 { 974 }
    else if d <= 73 { 979 }
    else if d <= 74 { 984 }
    else if d <= 75 { 989 }
    else if d <= 76 { 994 }
    else if d <= 77 { 998 }
    else if d <= 78 { 1002 }
    else if d <= 79 { 1005 }
    else if d <= 80 { 1008 }
    else if d <= 81 { 1011 }
    else if d <= 82 { 1014 }
    else if d <= 83 { 1016 }
    else if d <= 84 { 1018 }
    else if d <= 85 { 1020 }
    else if d <= 86 { 1022 }
    else if d <= 87 { 1023 }
    else if d <= 88 { 1023 }
    else if d <= 89 { 1024 }
    else { 1024 }
}

/// First-quadrant sine table, the executable twin of `sin_q`.
pub fn sin_q_x(d: i64) -> (r: i64)
    requires
        0 <= d <= 90,
    ensures
        r == sin_q(d as int),
{
    if d <= 0 { 0 }
    else if d <= 1 { 18 }
    else if d <= 2 { 36 }
    else if d <= 3 { 54 }
    else if d <= 4 { 71 }
    else if d <= 5 { 89 }
    else if d <= 6 { 107 }
    else if d <= 7 { 125 }
    else if d <= 8 { 143 }
    else if d <= 9 { 160 }
    else if d <= 10 { 178 }
    else if d <= 11 { 195 }
    else if d <= 12 { 213 }
    else if d <= 13 { 230 }
    else if d <= 14 { 248 }
    else if d <= 15 { 265 }
    else if d <= 16 { 282 }
    else if d <= 17 { 299 }
    else if d <= 18 { 316 }
    else if d <= 19 { 333 }
    else if d <= 20 { 350 }
    else if d <= 21 { 367 }
    else if d <= 22 { 384 }
    else if d <= 23 { 400 }
    else if d <= 24 { 416 }
    else if d <= 25 { 433 }
    else if d <= 26 { 449 }
    else if d <= 27 { 465 }
    else if d <= 28 { 481 }
    else if d <= 29 { 496 }
    else if d <= 30 { 512 }
    else if d <= 31 { 527 }
    else if d <= 32 { 543 }
    else if d <= 33 { 558 }
    else if d <= 34 { 573 }
    else if d <= 35 { 587 }
    else if d <= 36 { 602 }
    else if d <= 37 { 616 }
    else if d <= 38 { 630 }
    else if d <= 39 { 644 }
    else if d <= 40 { 658 }
    else if d <= 41 { 672 }
    else if d <= 42 { 685 }
    else if d <= 43 { 698 }
    else if d <= 44 { 711 }
    else if d <= 45 { 724 }
    else if d <= 46 { 737 }
    else if d <= 47 { 749 }
    else if d <= 48 { 761 }
    else if d <= 49 { 773 }
    else if d <= 50 { 784 }
    else if d <= 51 { 796 }
    else if d <= 52 { 807 }
    else if d <= 53 { 818 }
    else if d <= 54 { 828 }
    else if d <= 55 { 839 }
    else if d <= 56 { 849 }
    else if d <= 57 { 859 }
    else if d <= 58 { 868 }
    else if d <= 59 { 878 }
    else if d <= 60 { 887 }
    else if d <= 61 { 896 }
    else if d <= 62 { 904 }
    else if d <= 63 { 912 }
    else if d <= 64 { 920 }
    else if d <= 65 { 928 }
    else if d <= 66 { 935 }
    else if d <= 67 { 943 }
    else if d <= 68 { 949 }
    else if d <= 69 { 956 }
    else if d <= 70 { 962 }
    else if d <= 71 { 968 }
    else if d <= 72 { 974 }
    else if d <= 73 { 979 }
    else if d <= 74 { 984 }
    else if d <= 75 { 989 }
    else if d <= 76 { 994 }
    else if d <= 77 { 998 }
    else if d <= 78 { 1002 }
    else if d <= 79 { 1005 }
    else if d <= 80 { 1008 }
    else if d <= 81 { 1011 }
    else if d <= 82 { 1014 }
    else if d <= 83 { 1016 }
    else if d <= 84 { 1018 }
    else if d <= 85 { 1020 }
    else if d <= 86 { 1022 }
    else if d <= 87 { 1023 }
    else if d <= 88 { 1023 }
    else if d <= 89 { 1024 }
    else { 1024 }
}

/// The tabulated sine stays within one fixed-point unit.
pub proof fn lemma_sin_q_range(d: int)
    ensures
        0 <= sin_q(d) <= 1024,
{
}

/// Sine of `d` degrees for `-180 <= d <= 180`, scaled by `FX_ONE`.
pub open spec fn sin_deg_spec(d: int) -> int {
    if d >= 0 {
        if d <= 90 { sin_q(d) } else { sin_q(180 - d) }
    } else {
        if d >= -90 { -sin_q(-d) } else { -sin_q(180 + d) }
    }
}

/// Cosine of `d` degrees for `-180 <= d <= 180`, scaled by `FX_ONE`.
pub open spec fn cos_deg_spec(d: int) -> int {
    if 0 <= d {
        if d <= 90 { sin_q(90 - d) } else { -sin_q(d - 90) }
    } else {
        if d >= -90 { sin_q(90 + d) } else { -sin_q(-d - 90) }
    }
}

pub fn sin_deg(d: i64) -> (r: i64)
    requires
        -180 <= d <= 180,
    ensures
        r == sin_deg_spec(d as int),
        -1024 <= r <= 1024,
{
    proof {
        lemma_sin_q_range(d as int);
        lemma_sin_q_range(180 - d);
        lemma_sin_q_range(-d as int);
        lemma_sin_q_range(180 + d);
    }
    if d >= 0 {
        if d <= 90 { sin_q_x(d) } else { sin_q_x(180 - d) }
    } else {
        if d >= -90 { -sin_q_x(-d) } else { -sin_q_x(180 + d) }
    }
}

pub fn cos_deg(d: i64) -> (r: i64)
    requires
        -180 <= d <= 180,
    ensures
        r == cos_deg_spec(d as int),
        -1024 <= r <= 1024,
{
    proof {
        lemma_sin_q_range(90 - d);
        lemma_sin_q_range(d - 90);
        lemma_sin_q_range(90 + d);
        lemma_sin_q_range(-d - 90);
    }
    if d >= 0 {
        if d <= 90 { sin_q_x(90 - d) } else { -sin_q_x(d - 90) }
    } else {
        if d >= -90 { sin_q_x(90 + d) } else { -sin_q_x(-d - 90) }
    }
}

/// Rotation of `v` by the fixed-point cosine/sine pair `(c, s)`:
/// the exact matrix product, each coordinate rounded toward zero.
pub open spec fn rotate_pair_spec(v: Vec2Fx, c: int, s: int) -> Vec2Fx {
    Vec2Fx {
        x: div_trunc(v.x * c - v.y * s, 1024) as i64,
        y: div_trunc(v.x * s + v.y * c, 1024) as i64,
    }
}

pub fn rotate_pair(v: Vec2Fx, c: i64, s: i64) -> (r: Vec2Fx)
    requires
        v2_in(v, ROT_COORD_LIMIT as int),
        -1024 <= c <= 1024,
        -1024 <= s <= 1024,
    ensures
        r == rotate_pair_spec(v, c as int, s as int),
        v2_in(r, 2 * ROT_COORD_LIMIT as int),
{
    proof {
        assert(-0x400000000i64 <= v.x * c <= 0x400000000i64
            && -0x400000000i64 <= v.y * s <= 0x400000000i64
            && -0x400000000i64 <= v.x * s <= 0x400000000i64
            && -0x400000000i64 <= v.y * c <= 0x400000000i64) by (nonlinear_arith)
            requires -0x1000000 <= v.x <= 0x1000000, -0x1000000 <= v.y <= 0x1000000,
                -1024 <= c <= 1024, -1024 <= s <= 1024;
        lemma_div_trunc_abs(v.x * c - v.y * s, 0x2000000int, 1024);
        lemma_div_trunc_abs(v.x * s + v.y * c, 0x2000000int, 1024);
    }
    let nx: i64 = crate::fixed::div_fx(v.x * c - v.y * s, 1024);
    let ny: i64 = crate::fixed::div_fx(v.x * s + v.y * c, 1024);
    Vec2Fx { x: nx, y: ny }
}

/// If `|a| <= b * d` then the truncated quotient `a / d` stays within `b`.
pub proof fn lemma_div_trunc_abs(a: int, b: int, d: int)
    requires
        d >= 1,
        b >= 0,
        -(b * d) <= a <= b * d,
    ensures
        -b <= div_trunc(a, d) <= b,
{
    if a >= 0 {
        assert(a / d <= (b * d) / d) by (nonlinear_arith)
            requires d >= 1, a <= b * d;
        assert((b * d) / d == b) by (nonlinear_arith)
            requires d >= 1, b >= 0;
        assert(a / d >= 0) by (nonlinear_arith)
            requires d >= 1, a >= 0;
    } else {
        assert((-a) / d <= (b * d) / d) by (nonlinear_arith)
            requires d >= 1, -a <= b * d;
        assert((b * d) / d == b) by (nonlinear_arith)
            requires d >= 1, b >= 0;
        assert((-a) / d >= 0) by (nonlinear_arith)
            requires d >= 1, -a >= 0;
    }
}



/// Rotation of `v` by `d` whole degrees, counterclockwise in a y-up frame.
pub open spec fn rotate_deg_spec(v: Vec2Fx, d: int) -> Vec2Fx {
    rotate_pair_spec(v, cos_deg_spec(d), sin_deg_spec(d))
}

pub fn rotate_deg(v: Vec2Fx, d: i64) -> (r: Vec2Fx)
    requires
        -180 <= d <= 180,
        v2_in(v, ROT_COORD_LIMIT as int),
    ensures
        r == rotate_deg_spec(v, d as int),
        v2_in(r, 2 * ROT_COORD_LIMIT as int),
{
    let c = cos_deg(d);
    let s = sin_deg(d);
    rotate_pair(v, c, s)
}

/// A rotation pair taken from the unit circle does not lengthen a vector:
/// if `c * c + s * s <= FX_ONE * FX_ONE`, the rotated vector's squared
/// length is at most the original's.
#[verifier::rlimit(60)]
pub proof fn lemma_rotate_pair_len2(v: Vec2Fx, c: int, s: int)
    requires
        -1024 <= c <= 1024,
        -1024 <= s <= 1024,
        c * c + s * s <= 1024 * 1024,
        v2_in(v, ROT_COORD_LIMIT as int),
    ensures
        crate::vec2::len2_spec(rotate_pair_spec(v, c, s)) <= crate::vec2::len2_spec(v),
{
    let a = v.x * c - v.y * s;
    let b = v.x * s + v.y * c;
    let wx = div_trunc(a, 1024);
    let wy = div_trunc(b, 1024);
    lemma_trunc_sq(a, wx);
    lemma_trunc_sq(b, wy);
    let x = v.x as int;
    let y = v.y as int;
    assert(x * x + y * y >= 0) by (nonlinear_arith);
    lemma_rotation_identity(x, y, c, s);
    assert(a == x * c - y * s && b == x * s + y * c);
    assert((x * x + y * y) * (c * c + s * s) <= (x * x + y * y) * (1024 * 1024))
        by (nonlinear_arith)
        requires c * c + s * s <= 1024 * 1024, x * x + y * y >= 0;
    assert(wx * wx + wy * wy <= x * x + y * y) by (nonlinear_arith)
        requires (1024 * 1024) * (wx * wx) <= a * a, (1024 * 1024) * (wy * wy) <= b * b,
            a * a + b * b <= (x * x + y * y) * (1024 * 1024);
    assert(-(0x1000000int * 1024) - 0x1000000int * 1024 <= a
        <= 0x1000000int * 1024 + 0x1000000int * 1024) by (nonlinear_arith)
        requires -0x1000000 <= v.x <= 0x1000000, -0x1000000 <= v.y <= 0x1000000,
            -1024 <= c <= 1024, -1024 <= s <= 1024, a == v.x * c - v.y * s;
    assert(-(0x1000000int * 1024) - 0x1000000int * 1024 <= b
        <= 0x1000000int * 1024 + 0x1000000int * 1024) by (nonlinear_arith)
        requires -0x1000000 <= v.x <= 0x1000000, -0x1000000 <= v.y <= 0x1000000,
            -1024 <= c <= 1024, -1024 <= s <= 1024, b == v.x * s + v.y * c;
    assert((2 * ROT_COORD_LIMIT as int) * 1024 == 0x1000000int * 1024 + 0x1000000int * 1024)
        by (nonlinear_arith);
    lemma_div_trunc_abs(a, 2 * ROT_COORD_LIMIT as int, 1024);
    lemma_div_trunc_abs(b, 2 * ROT_COORD_LIMIT as int, 1024);
    assert(rotate_pair_spec(v, c, s).x == wx && rotate_pair_spec(v, c, s).y == wy);
}

/// The squared norm of a rotated pair of coordinates factors exactly.
proof fn lemma_rotation_identity(x: int, y: int, c: int, s: int)
    ensures
        (x * c - y * s) * (x * c - y * s) + (x * s + y * c) * (x * s + y * c) == (x * x + y * y) * (
        c * c + s * s),
{
    lemma_sq_sub(x * c, y * s);
    lemma_sq_add(x * s, y * c);
    lemma_sq_mul(x, c);
    lemma_sq_mul(y, s);
    lemma_sq_mul(x, s);
    lemma_sq_mul(y, c);
    lemma_mul_swap(x, y, c, s);
    lemma_expand4(x * x, y * y, c * c, s * s);
}

proof fn lemma_sq_sub(p: int, q: int)
    by (nonlinear_arith)
    ensures
        (p - q) * (p - q) == p * p - 2 * (p * q) + q * q,
{
}

proof fn lemma_sq_add(p: int, q: int)
    by (nonlinear_arith)
    ensures
        (p + q) * (p + q) == p * p + 2 * (p * q) + q * q,
{
}

proof fn lemma_sq_mul(a: int, b: int)
    by (nonlinear_arith)
    ensures
        (a * b) * (a * b) == (a * a) * (b * b),
{
}

proof fn lemma_mul_swap(x: int, y: int, c: int, s: int)
    by (nonlinear_arith)
    ensures
        (x * c) * (y * s) == (x * s) * (y * c),
{
}

proof fn lemma_expand4(a: int, b: int, c: int, d: int)
    by (nonlinear_arith)
    ensures
        (a + b) * (c + d) == a * c + a * d + b * c + b * d,
{
}

/// Squaring a truncated quotient by 1024 stays below the squared numerator
/// scaled back.
proof fn lemma_trunc_sq(a: int, q: int)
    requires
        q == div_trunc(a, 1024),
    ensures
        (1024 * 1024) * (q * q) <= a * a,
{
    if a >= 0 {
        assert(0 <= 1024 * (a / 1024) <= a) by (nonlinear_arith)
            requires a >= 0;
        assert((1024 * (a / 1024)) * (1024 * (a / 1024)) <= a * a) by (nonlinear_arith)
            requires 0 <= 1024 * (a / 1024) <= a;
        assert((1024 * q) * (1024 * q) == (1024 * 1024) * (q * q)) by (nonlinear_arith);
    } else {
        assert(0 <= 1024 * ((-a) / 1024) <= -a) by (nonlinear_arith)
            requires -a >= 0;
        assert((1024 * ((-a) / 1024)) * (1024 * ((-a) / 1024)) <= (-a) * (-a)) by (nonlinear_arith)
            requires 0 <= 1024 * ((-a) / 1024) <= -a;
        assert((-a) * (-a) == a * a) by (nonlinear_arith);
        assert(q == -((-a) / 1024));
        assert((1024 * ((-a) / 1024)) * (1024 * ((-a) / 1024)) == (1024 * 1024) * (q * q))
            by (nonlinear_arith)
            requires q == -((-a) / 1024);
    }
}

} // verus!
