use game_core::aabb::AABB;
use game_core::units::Vec2;

fn boxed(cx: i64, cy: i64, hx: i64, hy: i64) -> AABB {
    AABB::new(Vec2::new(cx, cy), Vec2::new(hx, hy))
}

#[test]
fn depth_sign_against_tile_on_the_right() {
    // Unit boxes (one pixel = 1000 subpixel units): centers (0,0) and
    // (1.5,0), half extents (1,1).  The x depth pushes the first box
    // further left by half a pixel; y fully overlaps.
    let a = boxed(0, 0, 1000, 1000);
    let b = boxed(1500, 0, 1000, 1000);
    let d = a.get_intersection_depth(&b);
    assert_eq!(d.x, -500);
    assert_eq!(d.y, -2000);
}

#[test]
fn depth_positive_when_pushing_right_and_up() {
    let a = boxed(2000, 1800, 1000, 1000);
    let b = boxed(1000, 500, 1000, 1000);
    let d = a.get_intersection_depth(&b);
    assert_eq!(d.x, 1000);
    assert_eq!(d.y, 700);
}

#[test]
fn no_overlap_returns_zero() {
    let a = boxed(0, 0, 1000, 1000);
    let b = boxed(5000, 0, 1000, 1000);
    let d = a.get_intersection_depth(&b);
    assert_eq!(d.x, 0);
    assert_eq!(d.y, 0);
}

#[test]
fn separation_on_one_axis_is_enough_for_zero() {
    // x overlaps, y is separated: the whole depth is zero.
    let a = boxed(0, 0, 1000, 1000);
    let b = boxed(500, 9000, 1000, 1000);
    let d = a.get_intersection_depth(&b);
    assert_eq!(d.x, 0);
    assert_eq!(d.y, 0);
}

#[test]
fn exact_edge_contact_is_no_overlap() {
    // |dist.x| == min_dist.x: strict comparison counts touching as free.
    let a = boxed(0, 0, 1000, 1000);
    let b = boxed(2000, 0, 1000, 1000);
    let d = a.get_intersection_depth(&b);
    assert_eq!(d.x, 0);
    assert_eq!(d.y, 0);
}

#[test]
fn bounds_accessors() {
    let a = boxed(10_000, 20_000, 3000, 4000);
    assert_eq!(a.left(), 7000);
    assert_eq!(a.right(), 13_000);
    assert_eq!(a.bottom(), 16_000);
    assert_eq!(a.top(), 24_000);
}
