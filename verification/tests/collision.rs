use arena_survivor::collision::{check_collision, circle_circle, circle_rect, rect_rect, Collider};
use arena_survivor::vec2::Vec2Fx;

const FX: i64 = 1024;

fn v(x: i64, y: i64) -> Vec2Fx {
    Vec2Fx { x: x * FX, y: y * FX }
}

#[test]
fn test_circle_circle_collision() {
    let pos1 = v(0, 0);
    let pos2 = v(5, 0);
    let result = circle_circle(pos1, 3 * FX, pos2, 3 * FX);
    assert!(result.collided);
    assert_eq!(result.penetration_depth, FX);
}

#[test]
fn test_circle_circle_no_collision() {
    let pos1 = v(0, 0);
    let pos2 = v(10, 0);
    let result = circle_circle(pos1, 3 * FX, pos2, 3 * FX);
    assert!(!result.collided);
}

#[test]
fn test_rect_rect_collision() {
    let pos1 = v(0, 0);
    let pos2 = v(5, 0);
    let result = rect_rect(pos1, 6 * FX, 6 * FX, pos2, 6 * FX, 6 * FX);
    assert!(result.collided);
    assert_eq!(result.penetration_depth, FX);
}

#[test]
fn test_circle_rect_collision() {
    let circle_pos = v(0, 0);
    let rect_pos = v(3, 0);
    let result = circle_rect(circle_pos, 3 * FX, rect_pos, 4 * FX, 4 * FX);
    assert!(result.collided);
}

#[test]
fn overlapping_circles_report_exact_penetration_and_unit_normal() {
    // Centers 5 units apart along a 3-4-5 triangle; radii sum to 6.
    let result = circle_circle(v(3, 4), 3 * FX, v(0, 0), 3 * FX);
    assert!(result.collided);
    assert_eq!(result.penetration_depth, FX);
    // The normal points from the second circle toward the first, scaled
    // onto the fixed-point unit circle: (3/5, 4/5).
    assert_eq!(result.normal.x, 614);
    assert_eq!(result.normal.y, 819);
}

#[test]
fn separated_circles_report_nothing() {
    let result = circle_circle(v(0, 0), 3 * FX, v(6, 0), 3 * FX);
    assert!(!result.collided);
    assert_eq!(result.penetration_depth, 0);
    assert_eq!(result.normal, Vec2Fx { x: 0, y: 0 });
}

#[test]
fn coincident_circles_use_fixed_normal() {
    let result = circle_circle(v(2, 2), 2 * FX, v(2, 2), 2 * FX);
    assert!(result.collided);
    assert_eq!(result.penetration_depth, 4 * FX);
    assert_eq!(result.normal, Vec2Fx { x: FX, y: 0 });
}

#[test]
fn swapping_circle_pair_negates_normal_and_keeps_penetration() {
    let a = Collider::Circle { radius: 4 * FX };
    let b = Collider::Circle { radius: 2 * FX };
    let r1 = check_collision(&a, v(3, 4), &b, v(0, 0));
    let r2 = check_collision(&b, v(0, 0), &a, v(3, 4));
    assert!(r1.collided && r2.collided);
    assert_eq!(r1.penetration_depth, r2.penetration_depth);
    assert_eq!(r1.normal.x, -r2.normal.x);
    assert_eq!(r1.normal.y, -r2.normal.y);
}

#[test]
fn swapping_circle_rect_pair_negates_normal_and_keeps_penetration() {
    let c = Collider::Circle { radius: 3 * FX };
    let r = Collider::Rect { width: 4 * FX, height: 4 * FX };
    let r1 = check_collision(&c, v(0, 0), &r, v(3, 0));
    let r2 = check_collision(&r, v(3, 0), &c, v(0, 0));
    assert!(r1.collided && r2.collided);
    assert_eq!(r1.penetration_depth, r2.penetration_depth);
    assert_eq!(r1.normal.x, -r2.normal.x);
    assert_eq!(r1.normal.y, -r2.normal.y);
}

#[test]
fn swapping_rect_pair_negates_normal_and_keeps_penetration() {
    let a = Collider::Rect { width: 6 * FX, height: 6 * FX };
    let b = Collider::Rect { width: 6 * FX, height: 6 * FX };
    let r1 = check_collision(&a, v(0, 1), &b, v(5, 0));
    let r2 = check_collision(&b, v(5, 0), &a, v(0, 1));
    assert!(r1.collided && r2.collided);
    assert_eq!(r1.penetration_depth, r2.penetration_depth);
    assert_eq!(r1.normal.x, -r2.normal.x);
    assert_eq!(r1.normal.y, -r2.normal.y);
}

#[test]
fn rect_rect_resolves_along_shallower_axis() {
    // Deep x overlap, shallow y overlap: the normal leaves along y.
    let r = rect_rect(v(0, 5), 6 * FX, 6 * FX, v(1, 0), 6 * FX, 6 * FX);
    assert!(r.collided);
    assert_eq!(r.penetration_depth, FX);
    assert_eq!(r.normal, Vec2Fx { x: 0, y: FX });
}

#[test]
fn circle_center_inside_rect_picks_nearest_edge_normal() {
    // Circle center just left of the box center: the left edge is nearest.
    let r = circle_rect(v(-1, 0), FX, v(0, 0), 10 * FX, 10 * FX);
    assert!(r.collided);
    assert_eq!(r.normal, Vec2Fx { x: -FX, y: 0 });
}
