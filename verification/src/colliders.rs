//! Static collider construction from per-tile collision shapes.
//!
//! A tile's tileset entry may carry collision shapes (rectangle, ellipse,
//! polygon, polyline) at local offsets.  Each is converted once into a
//! static collider placed at the tile's world-space offset; polygon and
//! polyline world points are re-centered about their centroid before being
//! handed to the external physics collaborator.  A degenerate shape (a
//! polygon under three points, a polyline under two) is skipped.  On the
//! designated collision layer, a tile none of whose shapes produced a
//! collider gets a plain tile-sized box.

use vstd::prelude::*;
use vstd::math::min;
use crate::units::{div_trunc, div_trunc_i64, Vec2, V2, GRID_LIMIT, HALF_LIMIT};
use crate::aabb::CENTER_LIMIT;

verus! {

/// Largest accepted number of points in a polygon or polyline shape.
pub const POLY_LIMIT: usize = 256;

/// A tile's collision shape, carrying only the geometric data needed to
/// build a static collider, independent of any physics backend.
#[derive(Debug)]
pub enum TileShape {
    Rect { width: i64, height: i64 },
    Ellipse { width: i64, height: i64 },
    Polygon { points: Vec<Vec2> },
    Polyline { points: Vec<Vec2> },
}

/// One collision object of a tile: a shape at a local offset.
#[derive(Debug)]
pub struct TileObject {
    pub shape: TileShape,
    pub offset_x: i64,
    pub offset_y: i64,
}

/// The width a shape reports: a rectangle's width, zero for the rest.
pub open spec fn shape_width(s: TileShape) -> i64 {
    match s {
        TileShape::Rect { width, .. } => width,
        _ => 0i64,
    }
}

/// The height a shape reports: a rectangle's height, zero for the rest.
pub open spec fn shape_height(s: TileShape) -> i64 {
    match s {
        TileShape::Rect { height, .. } => height,
        _ => 0i64,
    }
}

impl TileShape {
    pub fn get_width(&self) -> (r: i64)
        ensures
            r == shape_width(*self),
    {
        match self {
            TileShape::Rect { width, .. } => *width,
            _ => 0,
        }
    }

    pub fn get_height(&self) -> (r: i64)
        ensures
            r == shape_height(*self),
    {
        match self {
            TileShape::Rect { height, .. } => *height,
            _ => 0,
        }
    }

    /// Dimensions and point coordinates within the accepted ranges.
    pub open spec fn wf(self) -> bool {
        match self {
            TileShape::Rect { width, height } => 0 <= width <= HALF_LIMIT && 0 <= height
                <= HALF_LIMIT,
            TileShape::Ellipse { width, height } => 0 <= width <= HALF_LIMIT && 0 <= height
                <= HALF_LIMIT,
            TileShape::Polygon { points } => points@.len() <= POLY_LIMIT && forall|k: int|
                0 <= k < points@.len() ==> -HALF_LIMIT <= (#[trigger] points@[k]).x <= HALF_LIMIT
                    && -HALF_LIMIT <= points@[k].y <= HALF_LIMIT,
            TileShape::Polyline { points } => points@.len() <= POLY_LIMIT && forall|k: int|
                0 <= k < points@.len() ==> -HALF_LIMIT <= (#[trigger] points@[k]).x <= HALF_LIMIT
                    && -HALF_LIMIT <= points@[k].y <= HALF_LIMIT,
        }
    }
}

impl TileObject {
    pub open spec fn wf(self) -> bool {
        &&& -HALF_LIMIT <= self.offset_x <= HALF_LIMIT
        &&& -HALF_LIMIT <= self.offset_y <= HALF_LIMIT
        &&& self.shape.wf()
    }
}

/// A static collider's shape, as the physics collaborator receives it.
#[derive(Debug)]
pub enum ColliderShape {
    Cuboid { half_x: i64, half_y: i64 },
    Ball { radius: i64 },
    ConvexHull { points: Vec<Vec2> },
    Polyline { points: Vec<Vec2> },
}

/// A static collider: a shape placed at a world position.
#[derive(Debug)]
pub struct StaticCollider {
    pub shape: ColliderShape,
    pub x: i64,
    pub y: i64,
}

/// The mathematical value of a [`ColliderShape`].
pub ghost enum ShapeModel {
    Cuboid { half_x: int, half_y: int },
    Ball { radius: int },
    ConvexHull { points: Seq<V2> },
    Polyline { points: Seq<V2> },
}

/// The mathematical value of a [`StaticCollider`].
pub ghost struct ColliderModel {
    pub shape: ShapeModel,
    pub x: int,
    pub y: int,
}

impl View for ColliderShape {
    type V = ShapeModel;

    open spec fn view(&self) -> ShapeModel {
        match *self {
            ColliderShape::Cuboid { half_x, half_y } => ShapeModel::Cuboid {
                half_x: half_x as int,
                half_y: half_y as int,
            },
            ColliderShape::Ball { radius } => ShapeModel::Ball { radius: radius as int },
            ColliderShape::ConvexHull { points } => ShapeModel::ConvexHull {
                points: points@.map_values(|p: Vec2| p@),
            },
            ColliderShape::Polyline { points } => ShapeModel::Polyline {
                points: points@.map_values(|p: Vec2| p@),
            },
        }
    }
}

impl View for StaticCollider {
    type V = ColliderModel;

    open spec fn view(&self) -> ColliderModel {
        ColliderModel { shape: self.shape@, x: self.x as int, y: self.y as int }
    }
}

/// The world x center of a rectangle or ellipse of width `w` at local
/// offset `ox` on source tile column `tx`.
pub open spec fn rect_center_x(tx: int, ox: int, w: int, tw: int) -> int {
    tx * tw + ox + w / 2
}

/// The world y center of a rectangle or ellipse of height `h` at local
/// offset `oy` on source tile row `ty_src` of a grid `mh` rows tall; local
/// y offsets grow downward from the tile's top.
pub open spec fn rect_center_y(ty_src: int, oy: int, h: int, th: int, mh: int) -> int {
    (mh - 1 - ty_src) * th + (th - (oy + h / 2))
}

/// The world x of a polygon's local origin on source tile column `tx`.
pub open spec fn poly_base_x(tx: int, ox: int, tw: int) -> int {
    tx * tw + ox
}

/// The world y of a polygon's local origin on source tile row `ty_src`.
pub open spec fn poly_base_y(ty_src: int, oy: int, th: int, mh: int) -> int {
    (mh - 1 - ty_src) * th + (th - oy)
}

/// Local shape points carried to world space: x offsets add, y offsets
/// grow downward and so subtract.
pub open spec fn world_points_model(points: Seq<Vec2>, bx: int, by: int) -> Seq<V2> {
    Seq::new(points.len(), |i: int| V2 { x: bx + points[i].x, y: by - points[i].y })
}

/// The sum of the x coordinates of a point sequence.
pub open spec fn sum_x(s: Seq<V2>) -> int
    decreases s.len(),
{
    if s.len() == 0 {
        0
    } else {
        sum_x(s.drop_last()) + s.last().x
    }
}

/// The sum of the y coordinates of a point sequence.
pub open spec fn sum_y(s: Seq<V2>) -> int
    decreases s.len(),
{
    if s.len() == 0 {
        0
    } else {
        sum_y(s.drop_last()) + s.last().y
    }
}

/// The centroid of a point sequence, each coordinate the truncating mean;
/// the zero point for an empty sequence.
pub open spec fn centroid_model(s: Seq<V2>) -> V2 {
    if s.len() == 0 {
        V2 { x: 0, y: 0 }
    } else {
        V2 { x: div_trunc(sum_x(s), s.len() as int), y: div_trunc(sum_y(s), s.len() as int) }
    }
}

/// Points re-centered about `c`.
pub open spec fn recentered(w: Seq<V2>, c: V2) -> Seq<V2> {
    Seq::new(w.len(), |i: int| V2 { x: w[i].x - c.x, y: w[i].y - c.y })
}

/// Tile indices and tile sizes small enough for world coordinates to stay
/// in machine range.
pub open spec fn tile_place_ok(tx: int, ty_src: int, tw: int, th: int, mh: int) -> bool {
    &&& 0 <= tx <= GRID_LIMIT
    &&& 0 <= ty_src < mh
    &&& mh <= GRID_LIMIT
    &&& 0 < tw <= HALF_LIMIT
    &&& 0 < th <= HALF_LIMIT
}

/// Computes the world center of a rectangle or ellipse shape of size
/// `(w, h)` at local offset `(ox, oy)` on source tile `(tx, ty_inv)`.
pub fn world_center_for_rect(
    tx: usize,
    ty_inv: usize,
    w: i64,
    h: i64,
    ox: i64,
    oy: i64,
    tw: i64,
    th: i64,
    mh: usize,
) -> (r: (i64, i64))
    requires
        tile_place_ok(tx as int, ty_inv as int, tw as int, th as int, mh as int),
        0 <= w <= HALF_LIMIT,
        0 <= h <= HALF_LIMIT,
        -HALF_LIMIT <= ox <= HALF_LIMIT,
        -HALF_LIMIT <= oy <= HALF_LIMIT,
    ensures
        r.0 == rect_center_x(tx as int, ox as int, w as int, tw as int),
        r.1 == rect_center_y(ty_inv as int, oy as int, h as int, th as int, mh as int),
        -CENTER_LIMIT <= r.0 <= CENTER_LIMIT,
        -CENTER_LIMIT <= r.1 <= CENTER_LIMIT,
{
    proof {
        lemma_tile_products(tx as int, ty_inv as int, tw as int, th as int, mh as int);
    }
    let half_w = ((w as u64) / 2) as i64;
    let half_h = ((h as u64) / 2) as i64;
    let x0 = (tx as i64) * tw + ox + half_w;
    let y0 = ((mh - 1 - ty_inv) as i64) * th + (th - (oy + half_h));
    (x0, y0)
}

/// The tile-index products involved in world placement stay well inside
/// machine range.
proof fn lemma_tile_products(tx: int, ty_src: int, tw: int, th: int, mh: int)
    requires
        tile_place_ok(tx, ty_src, tw, th, mh),
    ensures
        0 <= tx * tw <= GRID_LIMIT * HALF_LIMIT,
        0 <= (mh - 1 - ty_src) * th <= GRID_LIMIT * HALF_LIMIT,
{
    assert(0 <= tx * tw <= GRID_LIMIT * HALF_LIMIT && 0 <= (mh - 1 - ty_src) * th <= GRID_LIMIT
        * HALF_LIMIT) by (nonlinear_arith)
        requires
            0 <= tx <= GRID_LIMIT,
            0 <= mh - 1 - ty_src <= GRID_LIMIT,
            0 < tw <= HALF_LIMIT,
            0 < th <= HALF_LIMIT,
    ;
}

/// Carries a shape's local points to world space from source tile
/// `(tx, ty_inv)` at local offset `(ox, oy)`.
pub fn polygon_world_points(
    tx: usize,
    ty_inv: usize,
    points: &Vec<Vec2>,
    ox: i64,
    oy: i64,
    tw: i64,
    th: i64,
    mh: usize,
) -> (r: Vec<Vec2>)
    requires
        tile_place_ok(tx as int, ty_inv as int, tw as int, th as int, mh as int),
        -HALF_LIMIT <= ox <= HALF_LIMIT,
        -HALF_LIMIT <= oy <= HALF_LIMIT,
        forall|k: int|
            0 <= k < points@.len() ==> -HALF_LIMIT <= (#[trigger] points@[k]).x <= HALF_LIMIT
                && -HALF_LIMIT <= points@[k].y <= HALF_LIMIT,
    ensures
        r@.map_values(|p: Vec2| p@) == world_points_model(
            points@,
            poly_base_x(tx as int, ox as int, tw as int),
            poly_base_y(ty_inv as int, oy as int, th as int, mh as int),
        ),
        forall|k: int|
            0 <= k < r@.len() ==> -CENTER_LIMIT <= (#[trigger] r@[k]).x <= CENTER_LIMIT
                && -CENTER_LIMIT <= r@[k].y <= CENTER_LIMIT,
{
    proof {
        lemma_tile_products(tx as int, ty_inv as int, tw as int, th as int, mh as int);
    }
    let base_x = (tx as i64) * tw + ox;
    let base_y = ((mh - 1 - ty_inv) as i64) * th + (th - oy);
    let ghost bx = base_x as int;
    let ghost by = base_y as int;
    let mut r: Vec<Vec2> = Vec::new();
    let n = points.len();
    let mut i: usize = 0;
    while i < n
        invariant
            i <= n,
            n == points@.len(),
            r@.len() == i,
            -CENTER_LIMIT + HALF_LIMIT <= bx <= CENTER_LIMIT - HALF_LIMIT,
            -CENTER_LIMIT + HALF_LIMIT <= by <= CENTER_LIMIT - HALF_LIMIT,
            base_x == bx,
            base_y == by,
            forall|k: int|
                0 <= k < points@.len() ==> -HALF_LIMIT <= (#[trigger] points@[k]).x <= HALF_LIMIT
                    && -HALF_LIMIT <= points@[k].y <= HALF_LIMIT,
            forall|k: int|
                0 <= k < i ==> (#[trigger] r@[k])@ == (V2 {
                    x: bx + points@[k].x,
                    y: by - points@[k].y,
                }),
        decreases n - i,
    {
        let p = points[i];
        r.push(Vec2 { x: base_x + p.x, y: base_y - p.y });
        i = i + 1;
    }
    proof {
        assert(r@.map_values(|p: Vec2| p@) =~= world_points_model(points@, bx, by));
    }
    r
}

/// Computes the truncating-mean centroid of a point list; the zero point
/// of an empty list.
pub fn centroid(pts: &Vec<Vec2>) -> (r: Vec2)
    requires
        pts@.len() <= POLY_LIMIT,
        forall|k: int|
            0 <= k < pts@.len() ==> -CENTER_LIMIT <= (#[trigger] pts@[k]).x <= CENTER_LIMIT
                && -CENTER_LIMIT <= pts@[k].y <= CENTER_LIMIT,
    ensures
        r@ == centroid_model(pts@.map_values(|p: Vec2| p@)),
        -CENTER_LIMIT <= r.x <= CENTER_LIMIT,
        -CENTER_LIMIT <= r.y <= CENTER_LIMIT,
{
    let ghost s = pts@.map_values(|p: Vec2| p@);
    if pts.len() == 0 {
        proof {
            assert(s.len() == 0);
        }
        return Vec2 { x: 0, y: 0 };
    }
    let n = pts.len();
    let mut sx: i64 = 0;
    let mut sy: i64 = 0;
    let mut i: usize = 0;
    while i < n
        invariant
            i <= n,
            n == pts@.len(),
            n <= POLY_LIMIT,
            s == pts@.map_values(|p: Vec2| p@),
            s.len() == n,
            forall|k: int|
                0 <= k < pts@.len() ==> -CENTER_LIMIT <= (#[trigger] pts@[k]).x <= CENTER_LIMIT
                    && -CENTER_LIMIT <= pts@[k].y <= CENTER_LIMIT,
            sx == sum_x(s.take(i as int)),
            sy == sum_y(s.take(i as int)),
            -(i as int) * CENTER_LIMIT <= sx <= (i as int) * CENTER_LIMIT,
            -(i as int) * CENTER_LIMIT <= sy <= (i as int) * CENTER_LIMIT,
        decreases n - i,
    {
        proof {
            assert(s.take(i + 1).drop_last() =~= s.take(i as int));
            assert(s[i as int] == pts@[i as int]@);
            assert(((i + 1) as int) * CENTER_LIMIT == (i as int) * CENTER_LIMIT + CENTER_LIMIT)
                by (nonlinear_arith);
            assert((i as int) * CENTER_LIMIT <= POLY_LIMIT * CENTER_LIMIT) by (nonlinear_arith)
                requires
                    0 <= i <= POLY_LIMIT,
            ;
        }
        let p = pts[i];
        sx = sx + p.x;
        sy = sy + p.y;
        i = i + 1;
    }
    proof {
        assert(s.take(n as int) =~= s);
        assert((n as int) * CENTER_LIMIT <= POLY_LIMIT * CENTER_LIMIT) by (nonlinear_arith)
            requires
                0 <= n <= POLY_LIMIT,
        ;
    }
    proof {
        crate::units::lemma_div_trunc_mean_bound(sx as int, n as int, CENTER_LIMIT as int);
        crate::units::lemma_div_trunc_mean_bound(sy as int, n as int, CENTER_LIMIT as int);
    }
    let cx = div_trunc_i64(sx, n as i64);
    let cy = div_trunc_i64(sy, n as i64);
    Vec2 { x: cx, y: cy }
}

/// Translates every point by `-c`.
fn recenter(pts: &Vec<Vec2>, c: Vec2) -> (r: Vec<Vec2>)
    requires
        forall|k: int|
            0 <= k < pts@.len() ==> -CENTER_LIMIT <= (#[trigger] pts@[k]).x <= CENTER_LIMIT
                && -CENTER_LIMIT <= pts@[k].y <= CENTER_LIMIT,
        -CENTER_LIMIT <= c.x <= CENTER_LIMIT,
        -CENTER_LIMIT <= c.y <= CENTER_LIMIT,
    ensures
        r@.map_values(|p: Vec2| p@) == recentered(pts@.map_values(|p: Vec2| p@), c@),
{
    let mut r: Vec<Vec2> = Vec::new();
    let n = pts.len();
    let mut i: usize = 0;
    while i < n
        invariant
            i <= n,
            n == pts@.len(),
            r@.len() == i,
            -CENTER_LIMIT <= c.x <= CENTER_LIMIT,
            -CENTER_LIMIT <= c.y <= CENTER_LIMIT,
            forall|k: int|
                0 <= k < pts@.len() ==> -CENTER_LIMIT <= (#[trigger] pts@[k]).x <= CENTER_LIMIT
                    && -CENTER_LIMIT <= pts@[k].y <= CENTER_LIMIT,
            forall|k: int|
                0 <= k < i ==> (#[trigger] r@[k])@ == (V2 {
                    x: pts@[k].x - c.x,
                    y: pts@[k].y - c.y,
                }),
        decreases n - i,
    {
        let p = pts[i];
        r.push(Vec2 { x: p.x - c.x, y: p.y - c.y });
        i = i + 1;
    }
    proof {
        assert(r@.map_values(|p: Vec2| p@) =~= recentered(pts@.map_values(|p: Vec2| p@), c@));
    }
    r
}

/// The collider one collision object of a tile produces, if any: rectangle
/// and ellipse become a box and a ball at the shape's world center; polygon
/// and polyline carry their points to world space and re-center them about
/// the centroid; a degenerate shape produces nothing.
pub open spec fn object_collider_model(
    obj: TileObject,
    tx: int,
    ty_src: int,
    tw: int,
    th: int,
    mh: int,
) -> Option<ColliderModel> {
    match obj.shape {
        TileShape::Rect { width, height } => Some(
            ColliderModel {
                shape: ShapeModel::Cuboid { half_x: width as int / 2, half_y: height as int / 2 },
                x: rect_center_x(tx, obj.offset_x as int, width as int, tw),
                y: rect_center_y(ty_src, obj.offset_y as int, height as int, th, mh),
            },
        ),
        TileShape::Ellipse { width, height } => Some(
            ColliderModel {
                shape: ShapeModel::Ball { radius: min(width as int, height as int) / 2 },
                x: rect_center_x(tx, obj.offset_x as int, width as int, tw),
                y: rect_center_y(ty_src, obj.offset_y as int, height as int, th, mh),
            },
        ),
        TileShape::Polygon { points } => {
            if points@.len() >= 3 {
                let w = world_points_model(
                    points@,
                    poly_base_x(tx, obj.offset_x as int, tw),
                    poly_base_y(ty_src, obj.offset_y as int, th, mh),
                );
                let c = centroid_model(w);
                Some(
                    ColliderModel {
                        shape: ShapeModel::ConvexHull { points: recentered(w, c) },
                        x: c.x,
                        y: c.y,
                    },
                )
            } else {
                None
            }
        },
        TileShape::Polyline { points } => {
            if points@.len() >= 2 {
                let w = world_points_model(
                    points@,
                    poly_base_x(tx, obj.offset_x as int, tw),
                    poly_base_y(ty_src, obj.offset_y as int, th, mh),
                );
                let c = centroid_model(w);
                Some(
                    ColliderModel {
                        shape: ShapeModel::Polyline { points: recentered(w, c) },
                        x: c.x,
                        y: c.y,
                    },
                )
            } else {
                None
            }
        },
    }
}

/// Builds the static collider of one collision object on source tile
/// `(tx, ty_inv)`, or nothing for a degenerate shape.
pub fn object_collider(
    obj: &TileObject,
    tx: usize,
    ty_inv: usize,
    tw: i64,
    th: i64,
    mh: usize,
) -> (r: Option<StaticCollider>)
    requires
        obj.wf(),
        tile_place_ok(tx as int, ty_inv as int, tw as int, th as int, mh as int),
    ensures
        match r {
            Some(c) => object_collider_model(
                *obj,
                tx as int,
                ty_inv as int,
                tw as int,
                th as int,
                mh as int,
            ) matches Some(cm) && c@ == cm,
            None => object_collider_model(
                *obj,
                tx as int,
                ty_inv as int,
                tw as int,
                th as int,
                mh as int,
            ) is None,
        },
{
    match &obj.shape {
        TileShape::Rect { width, height } => {
            let center = world_center_for_rect(
                tx,
                ty_inv,
                *width,
                *height,
                obj.offset_x,
                obj.offset_y,
                tw,
                th,
                mh,
            );
            let half_x = ((*width as u64) / 2) as i64;
            let half_y = ((*height as u64) / 2) as i64;
            Some(
                StaticCollider {
                    shape: ColliderShape::Cuboid { half_x, half_y },
                    x: center.0,
                    y: center.1,
                },
            )
        },
        TileShape::Ellipse { width, height } => {
            let center = world_center_for_rect(
                tx,
                ty_inv,
                *width,
                *height,
                obj.offset_x,
                obj.offset_y,
                tw,
                th,
                mh,
            );
            let smaller = if *width < *height {
                *width
            } else {
                *height
            };
            let radius = ((smaller as u64) / 2) as i64;
            Some(
                StaticCollider { shape: ColliderShape::Ball { radius }, x: center.0, y: center.1 },
            )
        },
        TileShape::Polygon { points } => {
            let world = polygon_world_points(
                tx,
                ty_inv,
                points,
                obj.offset_x,
                obj.offset_y,
                tw,
                th,
                mh,
            );
            if world.len() >= 3 {
                let center = centroid(&world);
                let local = recenter(&world, center);
                Some(
                    StaticCollider {
                        shape: ColliderShape::ConvexHull { points: local },
                        x: center.x,
                        y: center.y,
                    },
                )
            } else {
                None
            }
        },
        TileShape::Polyline { points } => {
            let world = polygon_world_points(
                tx,
                ty_inv,
                points,
                obj.offset_x,
                obj.offset_y,
                tw,
                th,
                mh,
            );
            if world.len() >= 2 {
                let center = centroid(&world);
                let local = recenter(&world, center);
                Some(
                    StaticCollider {
                        shape: ColliderShape::Polyline { points: local },
                        x: center.x,
                        y: center.y,
                    },
                )
            } else {
                None
            }
        },
    }
}

/// One cell of a tile layer, in source (top-to-bottom) order: whether a
/// tile is present, and the collision objects of that tile's tileset entry.
#[derive(Debug)]
pub struct TileCell {
    pub present: bool,
    pub objects: Vec<TileObject>,
}

impl TileCell {
    pub open spec fn wf(self) -> bool {
        forall|k: int| 0 <= k < self.objects@.len() ==> (#[trigger] self.objects@[k]).wf()
    }
}

/// A whole tile layer: dimensions and cells indexed by
/// `x + y_source * width`, row `0` at the top as tile data arrives.
#[derive(Debug)]
pub struct TileGrid {
    pub width: usize,
    pub height: usize,
    pub tile_width: i64,
    pub tile_height: i64,
    pub cells: Vec<TileCell>,
}

impl TileGrid {
    pub open spec fn wf(self) -> bool {
        &&& 0 < self.tile_width <= HALF_LIMIT
        &&& 0 < self.tile_height <= HALF_LIMIT
        &&& self.width <= GRID_LIMIT
        &&& self.height <= GRID_LIMIT
        &&& self.cells@.len() == self.width * self.height
        &&& forall|k: int| 0 <= k < self.cells@.len() ==> (#[trigger] self.cells@[k]).wf()
    }

    /// The cell at column `x`, source row `ty_src`.
    pub open spec fn cell_at(self, x: int, ty_src: int) -> TileCell {
        self.cells@[x + ty_src * self.width]
    }
}

/// The colliders of a tile's collision objects, in order, skipping the
/// degenerate ones.
pub open spec fn objects_colliders(
    objs: Seq<TileObject>,
    tx: int,
    ty_src: int,
    tw: int,
    th: int,
    mh: int,
) -> Seq<ColliderModel>
    decreases objs.len(),
{
    if objs.len() == 0 {
        Seq::empty()
    } else {
        objects_colliders(objs.drop_last(), tx, ty_src, tw, th, mh) + (
        match object_collider_model(objs.last(), tx, ty_src, tw, th, mh) {
            Some(c) => seq![c],
            None => Seq::empty(),
        })
    }
}

/// The plain tile-sized box placed on a collision-layer tile that spawned
/// no shape collider; `y` is the bitmap (bottom-up) row.
pub open spec fn fallback_box(g: TileGrid, x: int, y: int) -> ColliderModel {
    ColliderModel {
        shape: ShapeModel::Cuboid {
            half_x: g.tile_width as int / 2,
            half_y: g.tile_height as int / 2,
        },
        x: x * g.tile_width + g.tile_width as int / 2,
        y: y * g.tile_height + g.tile_height as int / 2,
    }
}

/// The colliders one cell contributes; `y` is the bitmap (bottom-up) row,
/// so the cell read is on source row `height - 1 - y`.
pub open spec fn cell_colliders_at(g: TileGrid, is_coll: bool, x: int, y: int) -> Seq<
    ColliderModel,
> {
    let ty_src = g.height - 1 - y;
    let cell = g.cell_at(x, ty_src);
    if !cell.present {
        Seq::empty()
    } else {
        let objs = objects_colliders(
            cell.objects@,
            x,
            ty_src,
            g.tile_width as int,
            g.tile_height as int,
            g.height as int,
        );
        if is_coll && objs.len() == 0 {
            seq![fallback_box(g, x, y)]
        } else {
            objs
        }
    }
}

/// The colliders of the first `y` bitmap rows of column `x`.
pub open spec fn column_colliders(g: TileGrid, is_coll: bool, x: int, y: int) -> Seq<ColliderModel>
    decreases y,
{
    if y <= 0 {
        Seq::empty()
    } else {
        column_colliders(g, is_coll, x, y - 1) + cell_colliders_at(g, is_coll, x, y - 1)
    }
}

/// The colliders of the first `x` columns of the grid.
pub open spec fn grid_colliders_upto(g: TileGrid, is_coll: bool, x: int) -> Seq<ColliderModel>
    decreases x,
{
    if x <= 0 {
        Seq::empty()
    } else {
        grid_colliders_upto(g, is_coll, x - 1) + column_colliders(
            g,
            is_coll,
            x - 1,
            g.height as int,
        )
    }
}

/// Every collider a tile layer produces, column by column, each column
/// bottom row first.
pub open spec fn grid_colliders(g: TileGrid, is_coll: bool) -> Seq<ColliderModel> {
    grid_colliders_upto(g, is_coll, g.width as int)
}

/// Builds every static collider of a tile layer, exactly once per level
/// load: shape colliders from each present tile's collision objects, and,
/// on the designated collision layer, a plain tile-sized box for each
/// present tile that spawned no shape.
pub fn build_tile_colliders(g: &TileGrid, is_collision_layer: bool) -> (out: Vec<StaticCollider>)
    requires
        g.wf(),
    ensures
        out@.map_values(|c: StaticCollider| c@) == grid_colliders(*g, is_collision_layer),
{
    let mut out: Vec<StaticCollider> = Vec::new();
    let mut x: usize = 0;
    while x < g.width
        invariant
            g.wf(),
            x <= g.width,
            out@.map_values(|c: StaticCollider| c@) == grid_colliders_upto(
                *g,
                is_collision_layer,
                x as int,
            ),
        decreases g.width - x,
    {
        let mut y: usize = 0;
        while y < g.height
            invariant
                g.wf(),
                x < g.width,
                y <= g.height,
                out@.map_values(|c: StaticCollider| c@) == grid_colliders_upto(
                    *g,
                    is_collision_layer,
                    x as int,
                ) + column_colliders(*g, is_collision_layer, x as int, y as int),
            decreases g.height - y,
        {
            let ty_inv = g.height - 1 - y;
            let _n_cells = g.cells.len();
            proof {
                assert(x + ty_inv * g.width < g.width * g.height && y * g.tile_height <= GRID_LIMIT
                    * HALF_LIMIT) by (nonlinear_arith)
                    requires
                        x < g.width,
                        ty_inv < g.height,
                        0 <= y <= GRID_LIMIT,
                        0 < g.tile_height <= HALF_LIMIT,
                ;
            }
            let cell = &g.cells[x + ty_inv * g.width];
            let ghost base = out@.map_values(|c: StaticCollider| c@);
            if cell.present {
                let n_before = out.len();
                let n_objs = cell.objects.len();
                let mut oi: usize = 0;
                while oi < n_objs
                    invariant
                        g.wf(),
                        x < g.width,
                        y < g.height,
                        ty_inv == g.height - 1 - y,
                        oi <= n_objs,
                        *cell == g.cell_at(x as int, ty_inv as int),
                        cell.wf(),
                        n_objs == cell.objects@.len(),
                        n_before == base.len(),
                        out@.map_values(|c: StaticCollider| c@) == base + objects_colliders(
                            cell.objects@.take(oi as int),
                            x as int,
                            ty_inv as int,
                            g.tile_width as int,
                            g.tile_height as int,
                            g.height as int,
                        ),
                    decreases n_objs - oi,
                {
                    let oc = object_collider(
                        &cell.objects[oi],
                        x,
                        ty_inv,
                        g.tile_width,
                        g.tile_height,
                        g.height,
                    );
                    proof {
                        assert(cell.objects@.take(oi + 1).drop_last() =~= cell.objects@.take(
                            oi as int,
                        ));
                        assert(cell.objects@.take(oi + 1).last() == cell.objects@[oi as int]);
                    }
                    match oc {
                        Some(c) => {
                            let ghost prev = out@.map_values(|cc: StaticCollider| cc@);
                            let ghost cv = c@;
                            out.push(c);
                            proof {
                                assert(out@.map_values(|cc: StaticCollider| cc@) =~= prev.push(
                                    cv,
                                ));
                            }
                        },
                        None => {},
                    }
                    oi = oi + 1;
                }
                proof {
                    assert(cell.objects@.take(n_objs as int) =~= cell.objects@);
                }
                if is_collision_layer && out.len() == n_before {
                    proof {
                        assert(0 <= x * g.tile_width <= GRID_LIMIT * HALF_LIMIT)
                            by (nonlinear_arith)
                            requires
                                0 <= x <= GRID_LIMIT,
                                0 < g.tile_width <= HALF_LIMIT,
                        ;
                    }
                    let half_w = ((g.tile_width as u64) / 2) as i64;
                    let half_h = ((g.tile_height as u64) / 2) as i64;
                    let cx = (x as i64) * g.tile_width + half_w;
                    let cy = (y as i64) * g.tile_height + half_h;
                    let ghost prev = out@.map_values(|cc: StaticCollider| cc@);
                    let fb = StaticCollider {
                        shape: ColliderShape::Cuboid { half_x: half_w, half_y: half_h },
                        x: cx,
                        y: cy,
                    };
                    let ghost fbv = fb@;
                    out.push(fb);
                    proof {
                        assert(out@.map_values(|cc: StaticCollider| cc@) =~= prev.push(fbv));
                        assert(fbv == fallback_box(*g, x as int, y as int));
                    }
                }
            }
            proof {
                assert(out@.map_values(|c: StaticCollider| c@) =~= grid_colliders_upto(
                    *g,
                    is_collision_layer,
                    x as int,
                ) + column_colliders(*g, is_collision_layer, x as int, y + 1));
            }
            y = y + 1;
        }
        proof {
            assert(grid_colliders_upto(*g, is_collision_layer, x + 1) =~= grid_colliders_upto(
                *g,
                is_collision_layer,
                x as int,
            ) + column_colliders(*g, is_collision_layer, x as int, g.height as int));
            assert(out@.map_values(|c: StaticCollider| c@) =~= grid_colliders_upto(
                *g,
                is_collision_layer,
                x + 1,
            ));
        }
        x = x + 1;
    }
    out
}

} // verus!
