//! Axis-aligned bounding box math: bounds and signed per-axis penetration
//! depth.
//!
//! Overlap is strict on both axes: exact edge contact counts as no overlap.
//! The depth returned by [`AABB::get_intersection_depth`] is a per-axis
//! minimum-translation vector; its components are independent and a caller
//! resolving a single axis picks the component for that axis.

use vstd::prelude::*;
use vstd::math::abs;
use crate::units::{Vec2, HALF_LIMIT};

verus! {

/// Largest magnitude accepted for a box center coordinate.  Tile boxes near
/// the far corner of the largest grid stay well inside it.
pub const CENTER_LIMIT: i64 = 10_000_000_000_000_000;

/// An axis-aligned bounding box, described by its center and half extents.
#[derive(Clone, Copy, Debug)]
pub struct AABB {
    pub center: Vec2,
    pub half_size: Vec2,
}

/// The mathematical value of an [`AABB`].
pub ghost struct Box2 {
    pub cx: int,
    pub cy: int,
    pub hx: int,
    pub hy: int,
}

impl View for AABB {
    type V = Box2;

    open spec fn view(&self) -> Box2 {
        Box2 {
            cx: self.center.x as int,
            cy: self.center.y as int,
            hx: self.half_size.x as int,
            hy: self.half_size.y as int,
        }
    }
}

impl Box2 {
    pub open spec fn left(self) -> int {
        self.cx - self.hx
    }

    pub open spec fn right(self) -> int {
        self.cx + self.hx
    }

    pub open spec fn bottom(self) -> int {
        self.cy - self.hy
    }

    pub open spec fn top(self) -> int {
        self.cy + self.hy
    }

    /// Nonnegative half extents and centers within machine range.
    pub open spec fn wf(self) -> bool {
        &&& 0 <= self.hx <= HALF_LIMIT
        &&& 0 <= self.hy <= HALF_LIMIT
        &&& -CENTER_LIMIT <= self.cx <= CENTER_LIMIT
        &&& -CENTER_LIMIT <= self.cy <= CENTER_LIMIT
    }
}

/// Strict overlap on both axes; exact edge contact is no overlap.
pub open spec fn overlap(a: Box2, b: Box2) -> bool {
    &&& abs(a.cx - b.cx) < a.hx + b.hx
    &&& abs(a.cy - b.cy) < a.hy + b.hy
}

/// Signed x-axis penetration of `a` against `b`, assuming the boxes
/// overlap: positive pushes `a` further right, negative further left.
pub open spec fn pen_x(a: Box2, b: Box2) -> int {
    let dist = a.cx - b.cx;
    let min_dist = a.hx + b.hx;
    if dist > 0 {
        min_dist - dist
    } else {
        -dist - min_dist
    }
}

/// Signed y-axis penetration of `a` against `b`, assuming the boxes
/// overlap: positive pushes `a` further up, negative further down.
pub open spec fn pen_y(a: Box2, b: Box2) -> int {
    let dist = a.cy - b.cy;
    let min_dist = a.hy + b.hy;
    if dist > 0 {
        min_dist - dist
    } else {
        -dist - min_dist
    }
}

/// The x component of the depth vector: zero unless the boxes strictly
/// overlap on both axes.
pub open spec fn depth_x(a: Box2, b: Box2) -> int {
    if overlap(a, b) {
        pen_x(a, b)
    } else {
        0
    }
}

/// The y component of the depth vector: zero unless the boxes strictly
/// overlap on both axes.
pub open spec fn depth_y(a: Box2, b: Box2) -> int {
    if overlap(a, b) {
        pen_y(a, b)
    } else {
        0
    }
}

/// No false overlap: two boxes separated (or exactly touching) on either
/// axis have an exactly zero depth vector.
pub proof fn lemma_no_false_overlap(a: Box2, b: Box2)
    requires
        abs(a.cx - b.cx) >= a.hx + b.hx || abs(a.cy - b.cy) >= a.hy + b.hy,
    ensures
        depth_x(a, b) == 0,
        depth_y(a, b) == 0,
{
}

/// On overlapping boxes the penetration is nonzero on both axes and its
/// magnitude stays below the summed half extents.
pub proof fn lemma_pen_bounds(a: Box2, b: Box2)
    requires
        a.wf(),
        b.wf(),
        overlap(a, b),
    ensures
        pen_x(a, b) != 0,
        pen_y(a, b) != 0,
        abs(pen_x(a, b)) <= a.hx + b.hx,
        abs(pen_y(a, b)) <= a.hy + b.hy,
        depth_x(a, b) == pen_x(a, b),
        depth_y(a, b) == pen_y(a, b),
{
}

impl AABB {
    /// Well-formed: nonnegative half extents, coordinates in machine range.
    pub open spec fn wf(self) -> bool {
        self@.wf()
    }

    pub fn new(center: Vec2, size: Vec2) -> (r: AABB)
        ensures
            r.center == center,
            r.half_size == size,
    {
        AABB { center, half_size: size }
    }

    pub fn right(&self) -> (r: i64)
        requires
            self.wf(),
        ensures
            r == self@.right(),
    {
        self.center.x + self.half_size.x
    }

    pub fn left(&self) -> (r: i64)
        requires
            self.wf(),
        ensures
            r == self@.left(),
    {
        self.center.x - self.half_size.x
    }

    pub fn top(&self) -> (r: i64)
        requires
            self.wf(),
        ensures
            r == self@.top(),
    {
        self.center.y + self.half_size.y
    }

    pub fn bottom(&self) -> (r: i64)
        requires
            self.wf(),
        ensures
            r == self@.bottom(),
    {
        self.center.y - self.half_size.y
    }

    /// The per-axis penetration depth vector of `self` against `aabb`:
    /// exactly zero when the boxes are separated or merely touching on
    /// either axis, otherwise the signed penetration on each axis.
    pub fn get_intersection_depth(&self, aabb: &AABB) -> (depth: Vec2)
        requires
            self.wf(),
            aabb.wf(),
        ensures
            depth.x == depth_x(self@, aabb@),
            depth.y == depth_y(self@, aabb@),
    {
        let min_dist_x = self.half_size.x + aabb.half_size.x;
        let min_dist_y = self.half_size.y + aabb.half_size.y;
        let dist_x = self.center.x - aabb.center.x;
        let dist_y = self.center.y - aabb.center.y;
        let abs_x = if dist_x < 0 { -dist_x } else { dist_x };
        let abs_y = if dist_y < 0 { -dist_y } else { dist_y };

        if abs_x >= min_dist_x || abs_y >= min_dist_y {
            return Vec2::zero();
        }

        let x = if dist_x > 0 {
            // self is on the right and is pushed further right
            min_dist_x - dist_x
        } else {
            // self is on the left and is pushed further left
            -dist_x - min_dist_x
        };
        let y = if dist_y > 0 {
            // self is above and is pushed further up
            min_dist_y - dist_y
        } else {
            // self is below and is pushed further down
            -dist_y - min_dist_y
        };
        Vec2 { x, y }
    }
}

} // verus!
