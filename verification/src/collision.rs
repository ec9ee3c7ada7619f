//! Intersection tests between circles and centered axis-aligned boxes.
//!
//! Every function mirrors an exact spec-level definition: the collision
//! flag, the penetration depth (in fixed-point units, using the integer
//! square root) and the contact normal (a fixed-point vector of length
//! close to `FX_ONE`, pointing from the second shape toward the first).

use vstd::prelude::*;

use crate::fixed::{FX_ONE, MAG_LIMIT, POS_LIMIT, div_fx, div_trunc, sqrt_floor,
    lemma_sqrt_floor_bounds, clamp_fx, clamp_spec};
use crate::vec2::{Vec2Fx, v2_in, len2_spec, normalize_to_spec};

verus! {

/// Shape of a collidable entity, centered on its owner's position.
#[derive(Debug, Clone, Copy, PartialEq, Eq, Structural)]
pub enum Collider {
    Circle { radius: i64 },
    Rect { width: i64, height: i64 },
}

/// Radii and extents are positive and bounded.
pub open spec fn collider_wf(c: Collider) -> bool {
    match c {
        Collider::Circle { radius } => 0 < radius <= MAG_LIMIT,
        Collider::Rect { width, height } => 0 < width <= MAG_LIMIT && 0 < height <= MAG_LIMIT,
    }
}


/// An entity that takes part in collision detection. Each implementation
/// fixes what shape and position it exposes through the two spec
/// functions, and the executable methods return exactly those.
pub trait Collidable {
    spec fn spec_collider(&self) -> Collider;

    spec fn spec_position(&self) -> Vec2Fx;

    fn collider(&self) -> (c: Collider)
        ensures
            c == self.spec_collider(),
    ;

    fn position(&self) -> (p: Vec2Fx)
        ensures
            p == self.spec_position(),
    ;
}

/// Outcome of a collision test. The normal points from the second shape
/// toward the first.
#[derive(Debug, Clone, Copy, PartialEq, Eq, Structural)]
pub struct CollisionData {
    pub collided: bool,
    pub penetration_depth: i64,
    pub normal: Vec2Fx,
}

impl CollisionData {
    pub fn none() -> (r: CollisionData)
        ensures
            r == no_collision(),
    {
        CollisionData { collided: false, penetration_depth: 0, normal: Vec2Fx { x: 0, y: 0 } }
    }

    pub fn new(penetration_depth: i64, normal: Vec2Fx) -> (r: CollisionData)
        ensures
            r.collided == true,
            r.penetration_depth == penetration_depth,
            r.normal == normal,
    {
        CollisionData { collided: true, penetration_depth, normal }
    }
}

pub open spec fn no_collision() -> CollisionData {
    CollisionData { collided: false, penetration_depth: 0, normal: Vec2Fx { x: 0, y: 0 } }
}

/// Magnitude of an integer.
pub open spec fn abs_s(x: int) -> int {
    if x >= 0 {
        x
    } else {
        -x
    }
}

/// Collision between two circles: they touch iff the squared center
/// distance is below the squared radius sum; the penetration is the radius
/// sum minus the (floor) distance; the normal is the normalized center
/// delta, or points along the positive x axis when the centers coincide.
pub open spec fn center_delta(pos1: Vec2Fx, pos2: Vec2Fx) -> Vec2Fx {
    Vec2Fx { x: (pos1.x - pos2.x) as i64, y: (pos1.y - pos2.y) as i64 }
}

pub open spec fn circle_circle_spec(pos1: Vec2Fx, r1: int, pos2: Vec2Fx, r2: int) -> CollisionData {
    let delta = center_delta(pos1, pos2);
    let d2 = len2_spec(delta);
    let rs = r1 + r2;
    if d2 < rs * rs {
        let dist = sqrt_floor(d2);
        let normal = if dist >= 1 {
            normalize_to_spec(delta, FX_ONE as int)
        } else {
            Vec2Fx { x: FX_ONE, y: 0 }
        };
        CollisionData { collided: true, penetration_depth: (rs - dist) as i64, normal }
    } else {
        no_collision()
    }
}

/// Normal for a circle center strictly inside the box: out of the nearest
/// edge, ties resolved left, right, top, then bottom.
pub open spec fn inside_rect_normal(cpos: Vec2Fx, rpos: Vec2Fx, half_w: int, half_h: int) -> Vec2Fx {
    let dx_left = cpos.x - (rpos.x - half_w);
    let dx_right = (rpos.x + half_w) - cpos.x;
    let dy_top = cpos.y - (rpos.y - half_h);
    let dy_bottom = (rpos.y + half_h) - cpos.y;
    let m1 = if dx_left <= dx_right { dx_left } else { dx_right };
    let m2 = if dy_top <= dy_bottom { dy_top } else { dy_bottom };
    let min_dist = if m1 <= m2 { m1 } else { m2 };
    if min_dist == dx_left {
        Vec2Fx { x: (-FX_ONE) as i64, y: 0 }
    } else if min_dist == dx_right {
        Vec2Fx { x: FX_ONE, y: 0 }
    } else if min_dist == dy_top {
        Vec2Fx { x: 0, y: (-FX_ONE) as i64 }
    } else {
        Vec2Fx { x: 0, y: FX_ONE }
    }
}

/// Collision between a circle and a centered box: clamp the circle center
/// onto the box, then compare the distance to that closest point with the
/// radius. The normal points from the box toward the circle.
pub open spec fn circle_rect_spec(cpos: Vec2Fx, radius: int, rpos: Vec2Fx, width: int, height: int)
    -> CollisionData {
    let half_w = div_trunc(width, 2);
    let half_h = div_trunc(height, 2);
    let closest = Vec2Fx {
        x: clamp_spec(cpos.x as int, rpos.x - half_w, rpos.x + half_w) as i64,
        y: clamp_spec(cpos.y as int, rpos.y - half_h, rpos.y + half_h) as i64,
    };
    let delta = Vec2Fx { x: (cpos.x - closest.x) as i64, y: (cpos.y - closest.y) as i64 };
    let d2 = len2_spec(delta);
    if d2 < radius * radius {
        let dist = sqrt_floor(d2);
        let normal = if dist >= 1 {
            normalize_to_spec(delta, FX_ONE as int)
        } else {
            inside_rect_normal(cpos, rpos, half_w, half_h)
        };
        CollisionData { collided: true, penetration_depth: (radius - dist) as i64, normal }
    } else {
        no_collision()
    }
}

/// Collision between two centered boxes: both per-axis overlaps must be
/// positive; the shallower axis (ties favor x) carries the whole
/// penetration, and the normal takes the sign of the center delta there.
pub open spec fn rect_rect_spec(pos1: Vec2Fx, w1: int, h1: int, pos2: Vec2Fx, w2: int, h2: int)
    -> CollisionData {
    let dx = pos1.x - pos2.x;
    let dy = pos1.y - pos2.y;
    let overlap_x = div_trunc(w1, 2) + div_trunc(w2, 2) - abs_s(dx);
    let overlap_y = div_trunc(h1, 2) + div_trunc(h2, 2) - abs_s(dy);
    if overlap_x > 0 && overlap_y > 0 {
        if overlap_x <= overlap_y {
            let sx: i64 = if dx > 0 { FX_ONE } else { (-FX_ONE) as i64 };
            CollisionData {
                collided: true,
                penetration_depth: overlap_x as i64,
                normal: Vec2Fx { x: sx, y: 0 },
            }
        } else {
            let sy: i64 = if dy > 0 { FX_ONE } else { (-FX_ONE) as i64 };
            CollisionData {
                collided: true,
                penetration_depth: overlap_y as i64,
                normal: Vec2Fx { x: 0, y: sy },
            }
        }
    } else {
        no_collision()
    }
}

/// Collision between two shapes at two positions. A box against a circle
/// is the mirrored circle test with the normal flipped.
pub open spec fn check_collision_spec(c1: Collider, pos1: Vec2Fx, c2: Collider, pos2: Vec2Fx)
    -> CollisionData {
    match (c1, c2) {
        (Collider::Circle { radius: r1 }, Collider::Circle { radius: r2 }) => circle_circle_spec(
            pos1,
            r1 as int,
            pos2,
            r2 as int,
        ),
        (Collider::Circle { radius }, Collider::Rect { width, height }) => circle_rect_spec(
            pos1,
            radius as int,
            pos2,
            width as int,
            height as int,
        ),
        (Collider::Rect { width, height }, Collider::Circle { radius }) => {
            let r = circle_rect_spec(pos2, radius as int, pos1, width as int, height as int);
            CollisionData {
                collided: r.collided,
                penetration_depth: r.penetration_depth,
                normal: Vec2Fx { x: (-r.normal.x) as i64, y: (-r.normal.y) as i64 },
            }
        },
        (
            Collider::Rect { width: w1, height: h1 },
            Collider::Rect { width: w2, height: h2 },
        ) => rect_rect_spec(pos1, w1 as int, h1 as int, pos2, w2 as int, h2 as int),
    }
}

/// The result of a collision test is well formed: the penetration depth is
/// nonnegative, zero exactly when nothing collided, and the normal stays
/// within one fixed-point unit per coordinate.
pub open spec fn collision_data_wf(r: CollisionData) -> bool {
    &&& 0 <= r.penetration_depth <= 2 * MAG_LIMIT
    &&& (!r.collided ==> r.penetration_depth == 0 && r.normal == (Vec2Fx { x: 0, y: 0 }))
    &&& v2_in(r.normal, FX_ONE as int)
}

/// Check collision between two circles.
pub fn circle_circle(pos1: Vec2Fx, r1: i64, pos2: Vec2Fx, r2: i64) -> (r: CollisionData)
    requires
        v2_in(pos1, POS_LIMIT as int),
        v2_in(pos2, POS_LIMIT as int),
        0 < r1 <= MAG_LIMIT,
        0 < r2 <= MAG_LIMIT,
    ensures
        r == circle_circle_spec(pos1, r1 as int, pos2, r2 as int),
        collision_data_wf(r),
{
    let delta = pos1.minus(pos2);
    let d2: i128 = delta.len2_wide();
    let rs: i64 = r1 + r2;
    proof {
        assert((rs as i128) * (rs as i128) == rs * rs
            && 0 < (rs as i128) * (rs as i128) <= 0x4000000000000i128) by (nonlinear_arith)
            requires 0 < rs <= 0x2000000;
    }
    let rs2: i128 = (rs as i128) * (rs as i128);
    if d2 < rs2 {
        proof {
            lemma_sqrt_floor_bounds(d2 as int);
            let dist = sqrt_floor(d2 as int);
            assert(dist < rs) by (nonlinear_arith)
                requires dist >= 0, rs > 0, dist * dist <= d2, d2 < rs * rs;
        }
        let dist64: i64 = delta.length();
        let pen: i64 = rs - dist64;
        let normal: Vec2Fx = if dist64 >= 1 {
            proof {
                if len2_spec(delta) == 0 {
                    assert(sqrt_floor(0) == 0);
                }
            }
            delta.normalize_to(FX_ONE)
        } else {
            Vec2Fx::new(FX_ONE, 0)
        };
        CollisionData::new(pen, normal)
    } else {
        CollisionData::none()
    }
}

/// Check collision between a circle and a centered axis-aligned box.
pub fn circle_rect(circle_pos: Vec2Fx, radius: i64, rect_pos: Vec2Fx, width: i64, height: i64)
    -> (r: CollisionData)
    requires
        v2_in(circle_pos, POS_LIMIT as int),
        v2_in(rect_pos, POS_LIMIT as int),
        0 < radius <= MAG_LIMIT,
        0 < width <= MAG_LIMIT,
        0 < height <= MAG_LIMIT,
    ensures
        r == circle_rect_spec(circle_pos, radius as int, rect_pos, width as int, height as int),
        collision_data_wf(r),
{
    let half_w: i64 = div_fx(width, 2);
    let half_h: i64 = div_fx(height, 2);
    let closest_x: i64 = clamp_fx(circle_pos.x, rect_pos.x - half_w, rect_pos.x + half_w);
    let closest_y: i64 = clamp_fx(circle_pos.y, rect_pos.y - half_h, rect_pos.y + half_h);
    let closest = Vec2Fx::new(closest_x, closest_y);
    let delta = circle_pos.minus(closest);
    let d2: i128 = delta.len2_wide();
    proof {
        assert((radius as i128) * (radius as i128) == radius * radius
            && 0 < (radius as i128) * (radius as i128) <= 0x1000000000000i128) by (nonlinear_arith)
            requires 0 < radius <= 0x1000000;
    }
    let r2: i128 = (radius as i128) * (radius as i128);
    if d2 < r2 {
        proof {
            lemma_sqrt_floor_bounds(d2 as int);
            let dist = sqrt_floor(d2 as int);
            assert(dist < radius) by (nonlinear_arith)
                requires dist >= 0, radius > 0, dist * dist <= d2, d2 < radius * radius;
        }
        let dist64: i64 = delta.length();
        let pen: i64 = radius - dist64;
        let normal: Vec2Fx = if dist64 >= 1 {
            proof {
                if len2_spec(delta) == 0 {
                    assert(sqrt_floor(0) == 0);
                }
            }
            delta.normalize_to(FX_ONE)
        } else {
            let dx_left: i64 = circle_pos.x - (rect_pos.x - half_w);
            let dx_right: i64 = (rect_pos.x + half_w) - circle_pos.x;
            let dy_top: i64 = circle_pos.y - (rect_pos.y - half_h);
            let dy_bottom: i64 = (rect_pos.y + half_h) - circle_pos.y;
            let m1: i64 = if dx_left <= dx_right { dx_left } else { dx_right };
            let m2: i64 = if dy_top <= dy_bottom { dy_top } else { dy_bottom };
            let min_dist: i64 = if m1 <= m2 { m1 } else { m2 };
            if min_dist == dx_left {
                Vec2Fx::new(-FX_ONE, 0)
            } else if min_dist == dx_right {
                Vec2Fx::new(FX_ONE, 0)
            } else if min_dist == dy_top {
                Vec2Fx::new(0, -FX_ONE)
            } else {
                Vec2Fx::new(0, FX_ONE)
            }
        };
        CollisionData::new(pen, normal)
    } else {
        CollisionData::none()
    }
}

/// Check collision between two centered axis-aligned boxes.
pub fn rect_rect(pos1: Vec2Fx, w1: i64, h1: i64, pos2: Vec2Fx, w2: i64, h2: i64)
    -> (r: CollisionData)
    requires
        v2_in(pos1, POS_LIMIT as int),
        v2_in(pos2, POS_LIMIT as int),
        0 < w1 <= MAG_LIMIT,
        0 < h1 <= MAG_LIMIT,
        0 < w2 <= MAG_LIMIT,
        0 < h2 <= MAG_LIMIT,
    ensures
        r == rect_rect_spec(pos1, w1 as int, h1 as int, pos2, w2 as int, h2 as int),
        collision_data_wf(r),
{
    let dx: i64 = pos1.x - pos2.x;
    let dy: i64 = pos1.y - pos2.y;
    let adx: i64 = if dx >= 0 { dx } else { -dx };
    let ady: i64 = if dy >= 0 { dy } else { -dy };
    let overlap_x: i64 = div_fx(w1, 2) + div_fx(w2, 2) - adx;
    let overlap_y: i64 = div_fx(h1, 2) + div_fx(h2, 2) - ady;
    if overlap_x > 0 && overlap_y > 0 {
        if overlap_x <= overlap_y {
            let sx: i64 = if dx > 0 { FX_ONE } else { -FX_ONE };
            CollisionData::new(overlap_x, Vec2Fx::new(sx, 0))
        } else {
            let sy: i64 = if dy > 0 { FX_ONE } else { -FX_ONE };
            CollisionData::new(overlap_y, Vec2Fx::new(0, sy))
        }
    } else {
        CollisionData::none()
    }
}

/// Check collision between two collidable shapes.
pub fn check_collision(collider1: &Collider, pos1: Vec2Fx, collider2: &Collider, pos2: Vec2Fx)
    -> (r: CollisionData)
    requires
        collider_wf(*collider1),
        collider_wf(*collider2),
        v2_in(pos1, POS_LIMIT as int),
        v2_in(pos2, POS_LIMIT as int),
    ensures
        r == check_collision_spec(*collider1, pos1, *collider2, pos2),
        collision_data_wf(r),
{
    match (collider1, collider2) {
        (Collider::Circle { radius: r1 }, Collider::Circle { radius: r2 }) => {
            circle_circle(pos1, *r1, pos2, *r2)
        },
        (Collider::Circle { radius }, Collider::Rect { width, height }) => {
            circle_rect(pos1, *radius, pos2, *width, *height)
        },
        (Collider::Rect { width, height }, Collider::Circle { radius }) => {
            let inner = circle_rect(pos2, *radius, pos1, *width, *height);
            CollisionData {
                collided: inner.collided,
                penetration_depth: inner.penetration_depth,
                normal: inner.normal.neg_v(),
            }
        },
        (
            Collider::Rect { width: w1, height: h1 },
            Collider::Rect { width: w2, height: h2 },
        ) => {
            rect_rect(pos1, *w1, *h1, pos2, *w2, *h2)
        },
    }
}


/// Two circles whose centers are closer than the sum of their radii always
/// collide: the penetration depth is exactly the radius sum minus the
/// integer center distance (so it is at least one subunit), and when the
/// centers differ by at least one subunit the normal is the normalized
/// center delta, pointing from the second circle toward the first (each
/// coordinate carries the sign of the corresponding delta coordinate).
pub proof fn lemma_circle_circle_hit(pos1: Vec2Fx, r1: int, pos2: Vec2Fx, r2: int)
    requires
        v2_in(pos1, POS_LIMIT as int),
        v2_in(pos2, POS_LIMIT as int),
        0 < r1 <= MAG_LIMIT,
        0 < r2 <= MAG_LIMIT,
        len2_spec(center_delta(pos1, pos2)) < (r1 + r2) * (r1 + r2),
    ensures
        circle_circle_spec(pos1, r1, pos2, r2).collided,
        circle_circle_spec(pos1, r1, pos2, r2).penetration_depth == r1 + r2 - sqrt_floor(
            len2_spec(center_delta(pos1, pos2)),
        ),
        circle_circle_spec(pos1, r1, pos2, r2).penetration_depth >= 1,
        sqrt_floor(len2_spec(center_delta(pos1, pos2))) >= 1
            ==> circle_circle_spec(pos1, r1, pos2, r2).normal == normalize_to_spec(
            center_delta(pos1, pos2),
            FX_ONE as int,
        ),
        sqrt_floor(len2_spec(center_delta(pos1, pos2))) >= 1 ==> ({
            let delta = center_delta(pos1, pos2);
            let n = circle_circle_spec(pos1, r1, pos2, r2).normal;
            &&& (delta.x > 0 ==> n.x >= 0)
            &&& (delta.x < 0 ==> n.x <= 0)
            &&& (delta.y > 0 ==> n.y >= 0)
            &&& (delta.y < 0 ==> n.y <= 0)
        }),
{
    let delta = center_delta(pos1, pos2);
    let d2 = len2_spec(delta);
    crate::vec2::lemma_len2_nonneg(delta);
    lemma_sqrt_floor_bounds(d2);
    let dist = sqrt_floor(d2);
    let rs = r1 + r2;
    assert(dist < rs) by (nonlinear_arith)
        requires dist >= 0, rs > 0, dist * dist <= d2, d2 < rs * rs;
    if dist >= 1 {
        assert(delta.x > 0 ==> delta.x * FX_ONE >= 0) by (nonlinear_arith);
        assert(delta.x < 0 ==> delta.x * FX_ONE <= 0) by (nonlinear_arith);
        assert(delta.y > 0 ==> delta.y * FX_ONE >= 0) by (nonlinear_arith);
        assert(delta.y < 0 ==> delta.y * FX_ONE <= 0) by (nonlinear_arith);
        crate::fixed::lemma_div_trunc_sign(delta.x * FX_ONE, dist);
        crate::fixed::lemma_div_trunc_sign(delta.y * FX_ONE, dist);
        crate::vec2::lemma_coord_le_length(delta);
        crate::vec2::lemma_div_trunc_scaled_bound(delta.x as int, FX_ONE as int, dist);
        crate::vec2::lemma_div_trunc_scaled_bound(delta.y as int, FX_ONE as int, dist);
    }
}

/// Two circles whose centers are at least the sum of their radii apart do
/// not collide: the penetration depth is zero and the normal is the zero
/// vector.
pub proof fn lemma_circle_circle_miss(pos1: Vec2Fx, r1: int, pos2: Vec2Fx, r2: int)
    requires
        len2_spec(center_delta(pos1, pos2)) >= (r1 + r2) * (r1 + r2),
    ensures
        !circle_circle_spec(pos1, r1, pos2, r2).collided,
        circle_circle_spec(pos1, r1, pos2, r2).penetration_depth == 0,
        circle_circle_spec(pos1, r1, pos2, r2).normal == (Vec2Fx { x: 0, y: 0 }),
{
}

/// Inputs on which swapping the two shapes negates the normal exactly.
/// Coinciding circle centers fall back to a fixed normal in both orders,
/// and a box pair whose centers agree on the separating axis picks the
/// same normal sign in both orders; everything else is covered.
pub open spec fn swap_nondegenerate(c1: Collider, pos1: Vec2Fx, c2: Collider, pos2: Vec2Fx)
    -> bool {
    match (c1, c2) {
        (Collider::Circle { .. }, Collider::Circle { .. }) => pos1 != pos2,
        (Collider::Rect { width: w1, height: h1 }, Collider::Rect { width: w2, height: h2 }) => {
            let r = rect_rect_spec(pos1, w1 as int, h1 as int, pos2, w2 as int, h2 as int);
            r.collided ==> (if r.normal.x != 0 {
                pos1.x != pos2.x
            } else {
                pos1.y != pos2.y
            })
        },
        _ => true,
    }
}

/// Swapping the two shapes handed to the collision test preserves the
/// collision flag and the penetration depth, and on nondegenerate inputs
/// negates the normal.
pub proof fn lemma_check_collision_swap(c1: Collider, pos1: Vec2Fx, c2: Collider, pos2: Vec2Fx)
    requires
        collider_wf(c1),
        collider_wf(c2),
        v2_in(pos1, POS_LIMIT as int),
        v2_in(pos2, POS_LIMIT as int),
    ensures
        check_collision_spec(c2, pos2, c1, pos1).collided == check_collision_spec(
            c1,
            pos1,
            c2,
            pos2,
        ).collided,
        check_collision_spec(c2, pos2, c1, pos1).penetration_depth == check_collision_spec(
            c1,
            pos1,
            c2,
            pos2,
        ).penetration_depth,
        swap_nondegenerate(c1, pos1, c2, pos2) ==> ({
            let a = check_collision_spec(c1, pos1, c2, pos2).normal;
            let b = check_collision_spec(c2, pos2, c1, pos1).normal;
            b.x == -a.x && b.y == -a.y
        }),
{
    lemma_check_collision_spec_wf(c1, pos1, c2, pos2);
    lemma_check_collision_spec_wf(c2, pos2, c1, pos1);
    match (c1, c2) {
        (Collider::Circle { radius: r1 }, Collider::Circle { radius: r2 }) => {
            let d12 = center_delta(pos1, pos2);
            let d21 = center_delta(pos2, pos1);
            assert(d21.x == -d12.x && d21.y == -d12.y);
            assert(d21.x * d21.x == d12.x * d12.x && d21.y * d21.y == d12.y * d12.y)
                by (nonlinear_arith)
                requires d21.x == -d12.x, d21.y == -d12.y;
            assert(len2_spec(d21) == len2_spec(d12));
            crate::vec2::lemma_len2_nonneg(d12);
            lemma_sqrt_floor_bounds(len2_spec(d12));
            let dist = sqrt_floor(len2_spec(d12));
            if len2_spec(d12) < (r1 + r2) * (r1 + r2) && pos1 != pos2 {
                assert(len2_spec(d12) > 0);
                if dist == 0 {
                    assert((dist + 1) * (dist + 1) == 1) by (nonlinear_arith)
                        requires dist == 0;
                    assert(false);
                }
                crate::vec2::lemma_normalize_neg(d12, d21, FX_ONE as int);
            }
        },
        (Collider::Circle { .. }, Collider::Rect { .. }) => {
        },
        (Collider::Rect { .. }, Collider::Circle { .. }) => {
        },
        (Collider::Rect { width: w1, height: h1 }, Collider::Rect { width: w2, height: h2 }) => {
            assert(abs_s(pos2.x - pos1.x) == abs_s(pos1.x - pos2.x));
            assert(abs_s(pos2.y - pos1.y) == abs_s(pos1.y - pos2.y));
        },
    }
}

/// Every collision result is well formed: nonnegative bounded penetration,
/// the no-collision outcome is all zero, and the normal stays within one
/// fixed-point unit per coordinate.
pub proof fn lemma_check_collision_spec_wf(c1: Collider, pos1: Vec2Fx, c2: Collider, pos2: Vec2Fx)
    requires
        collider_wf(c1),
        collider_wf(c2),
        v2_in(pos1, POS_LIMIT as int),
        v2_in(pos2, POS_LIMIT as int),
    ensures
        collision_data_wf(check_collision_spec(c1, pos1, c2, pos2)),
{
    match (c1, c2) {
        (Collider::Circle { radius: r1 }, Collider::Circle { radius: r2 }) => {
            lemma_circle_spec_parts(pos1, r1 as int, pos2, r2 as int);
        },
        (Collider::Circle { radius }, Collider::Rect { width, height }) => {
            lemma_circle_rect_spec_wf(pos1, radius as int, pos2, width as int, height as int);
        },
        (Collider::Rect { width, height }, Collider::Circle { radius }) => {
            lemma_circle_rect_spec_wf(pos2, radius as int, pos1, width as int, height as int);
        },
        (Collider::Rect { width: w1, height: h1 }, Collider::Rect { width: w2, height: h2 }) => {
            lemma_rect_rect_spec_wf(pos1, w1 as int, h1 as int, pos2, w2 as int, h2 as int);
        },
    }
}

proof fn lemma_circle_spec_parts(pos1: Vec2Fx, r1: int, pos2: Vec2Fx, r2: int)
    requires
        v2_in(pos1, POS_LIMIT as int),
        v2_in(pos2, POS_LIMIT as int),
        0 < r1 <= MAG_LIMIT,
        0 < r2 <= MAG_LIMIT,
    ensures
        collision_data_wf(circle_circle_spec(pos1, r1, pos2, r2)),
{
    let delta = center_delta(pos1, pos2);
    let d2 = len2_spec(delta);
    crate::vec2::lemma_len2_nonneg(delta);
    lemma_sqrt_floor_bounds(d2);
    let dist = sqrt_floor(d2);
    let rs = r1 + r2;
    if d2 < rs * rs {
        assert(dist < rs) by (nonlinear_arith)
            requires dist >= 0, rs > 0, dist * dist <= d2, d2 < rs * rs;
        if dist >= 1 {
            crate::vec2::lemma_coord_le_length(delta);
            crate::vec2::lemma_div_trunc_scaled_bound(delta.x as int, FX_ONE as int, dist);
            crate::vec2::lemma_div_trunc_scaled_bound(delta.y as int, FX_ONE as int, dist);
        }
    }
}

proof fn lemma_circle_rect_spec_wf(cpos: Vec2Fx, radius: int, rpos: Vec2Fx, width: int, height: int)
    requires
        v2_in(cpos, POS_LIMIT as int),
        v2_in(rpos, POS_LIMIT as int),
        0 < radius <= MAG_LIMIT,
        0 < width <= MAG_LIMIT,
        0 < height <= MAG_LIMIT,
    ensures
        collision_data_wf(circle_rect_spec(cpos, radius, rpos, width, height)),
{
    let half_w = crate::fixed::div_trunc(width, 2);
    let half_h = crate::fixed::div_trunc(height, 2);
    assert(0 <= half_w <= width && 0 <= half_h <= height) by (nonlinear_arith)
        requires half_w == width / 2, half_h == height / 2, width > 0, height > 0;
    let closest = Vec2Fx {
        x: clamp_spec(cpos.x as int, rpos.x - half_w, rpos.x + half_w) as i64,
        y: clamp_spec(cpos.y as int, rpos.y - half_h, rpos.y + half_h) as i64,
    };
    let delta = Vec2Fx { x: (cpos.x - closest.x) as i64, y: (cpos.y - closest.y) as i64 };
    let d2 = len2_spec(delta);
    crate::vec2::lemma_len2_nonneg(delta);
    lemma_sqrt_floor_bounds(d2);
    let dist = sqrt_floor(d2);
    if d2 < radius * radius {
        assert(dist < radius) by (nonlinear_arith)
            requires dist >= 0, radius > 0, dist * dist <= d2, d2 < radius * radius;
        if dist >= 1 {
            crate::vec2::lemma_coord_le_length(delta);
            crate::vec2::lemma_div_trunc_scaled_bound(delta.x as int, FX_ONE as int, dist);
            crate::vec2::lemma_div_trunc_scaled_bound(delta.y as int, FX_ONE as int, dist);
        }
    }
}

proof fn lemma_rect_rect_spec_wf(pos1: Vec2Fx, w1: int, h1: int, pos2: Vec2Fx, w2: int, h2: int)
    requires
        v2_in(pos1, POS_LIMIT as int),
        v2_in(pos2, POS_LIMIT as int),
        0 < w1 <= MAG_LIMIT,
        0 < h1 <= MAG_LIMIT,
        0 < w2 <= MAG_LIMIT,
        0 < h2 <= MAG_LIMIT,
    ensures
        collision_data_wf(rect_rect_spec(pos1, w1, h1, pos2, w2, h2)),
{
    assert(0 <= w1 / 2 <= w1 && 0 <= w2 / 2 <= w2 && 0 <= h1 / 2 <= h1 && 0 <= h2 / 2 <= h2)
        by (nonlinear_arith)
        requires w1 > 0, w2 > 0, h1 > 0, h2 > 0;
}

} // verus!
