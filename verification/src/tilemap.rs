//! The collision map: a read-only solid/empty bitmap over the level's tile
//! grid, and the one-shot state machine that builds it when the level data
//! resolves.
//!
//! Bitmap row `0` is the **bottom** row of the world, while tile layer data
//! arrives top to bottom, so construction inverts the row index exactly
//! once: bitmap row `y` holds source row `grid_height - 1 - y`.

use vstd::prelude::*;
use vstd::arithmetic::div_mod::{
    lemma_div_is_ordered,
    lemma_fundamental_div_mod,
    lemma_fundamental_div_mod_converse,
    lemma_mod_bound,
};
use crate::aabb::{overlap, Box2, AABB, CENTER_LIMIT};
use crate::units::{Vec2, GRID_LIMIT, HALF_LIMIT};

verus! {

/// Why a collision map could not be built from layer data.
#[derive(Clone, Copy, Debug, PartialEq, Eq, Structural)]
pub enum MapError {
    /// A tile dimension or grid dimension is out of the accepted range.
    Dimensions,
    /// The source bitmap's length is not `grid_width * grid_height`.
    SourceLength,
}

/// A solid/empty bitmap over the level's tile grid, indexed by
/// `x + y * grid_width` with row `0` at the bottom of the world.
#[derive(Debug)]
pub struct CollisionMap {
    pub tile_width: i64,
    pub tile_height: i64,
    pub grid_width: usize,
    pub grid_height: usize,
    pub solid: Vec<bool>,
}

/// The dimension bounds under which a layer can become a collision map.
pub open spec fn layer_dims_ok(
    grid_width: int,
    grid_height: int,
    tile_width: int,
    tile_height: int,
) -> bool {
    &&& 0 < tile_width <= HALF_LIMIT
    &&& 0 < tile_height <= HALF_LIMIT
    &&& grid_width <= GRID_LIMIT
    &&& grid_height <= GRID_LIMIT
}

impl CollisionMap {
    pub open spec fn wf(self) -> bool {
        &&& layer_dims_ok(
            self.grid_width as int,
            self.grid_height as int,
            self.tile_width as int,
            self.tile_height as int,
        )
        &&& self.solid@.len() == self.grid_width * self.grid_height
    }

    /// Whether the bitmap marks tile `(x, y)` solid; row `0` is the bottom
    /// row of the world.
    pub open spec fn solid_at(self, x: int, y: int) -> bool {
        self.solid@[x + y * self.grid_width]
    }

    /// The box of tile `(x, y)`: centered in its cell, half a tile in
    /// extent.
    pub open spec fn tile_box(self, x: int, y: int) -> Box2 {
        Box2 {
            cx: x * self.tile_width + self.tile_width / 2,
            cy: y * self.tile_height + self.tile_height / 2,
            hx: self.tile_width / 2,
            hy: self.tile_height / 2,
        }
    }

    /// Reads the bitmap cell of tile `(x, y)`.
    pub fn is_solid(&self, x: usize, y: usize) -> (r: bool)
        requires
            self.wf(),
            x < self.grid_width,
            y < self.grid_height,
        ensures
            r == self.solid_at(x as int, y as int),
    {
        let _n = self.solid.len();
        proof {
            assert(y * self.grid_width + x < self.grid_width * self.grid_height)
                by (nonlinear_arith)
                requires
                    x < self.grid_width,
                    y < self.grid_height,
            ;
        }
        self.solid[x + y * self.grid_width]
    }

    /// Builds the bitmap from one tile layer, given in top-to-bottom
    /// row-major order: bitmap row `y` is source row `grid_height - 1 - y`.
    pub fn from_layer(
        grid_width: usize,
        grid_height: usize,
        tile_width: i64,
        tile_height: i64,
        source: &Vec<bool>,
    ) -> (r: Result<CollisionMap, MapError>)
        ensures
            match r {
                Ok(m) => {
                    &&& layer_dims_ok(
                        grid_width as int,
                        grid_height as int,
                        tile_width as int,
                        tile_height as int,
                    )
                    &&& source@.len() == grid_width * grid_height
                    &&& m.wf()
                    &&& m.grid_width == grid_width
                    &&& m.grid_height == grid_height
                    &&& m.tile_width == tile_width
                    &&& m.tile_height == tile_height
                    &&& forall|x: int, y: int|
                        0 <= x < grid_width && 0 <= y < grid_height ==> m.solid_at(x, y)
                            == source@[x + (grid_height - 1 - y) * grid_width]
                },
                Err(MapError::Dimensions) => !layer_dims_ok(
                    grid_width as int,
                    grid_height as int,
                    tile_width as int,
                    tile_height as int,
                ),
                Err(MapError::SourceLength) => {
                    &&& layer_dims_ok(
                        grid_width as int,
                        grid_height as int,
                        tile_width as int,
                        tile_height as int,
                    )
                    &&& source@.len() != grid_width * grid_height
                },
            },
    {
        if !(tile_width > 0 && tile_width <= HALF_LIMIT && tile_height > 0
            && tile_height <= HALF_LIMIT && grid_width <= GRID_LIMIT && grid_height <= GRID_LIMIT) {
            return Err(MapError::Dimensions);
        }
        proof {
            assert(grid_width * grid_height <= GRID_LIMIT * GRID_LIMIT) by (nonlinear_arith)
                requires
                    grid_width <= GRID_LIMIT,
                    grid_height <= GRID_LIMIT,
            ;
        }
        if (source.len() as u64) != (grid_width as u64) * (grid_height as u64) {
            return Err(MapError::SourceLength);
        }
        let mut solid: Vec<bool> = Vec::new();
        let mut y: usize = 0;
        while y < grid_height
            invariant
                y <= grid_height,
                grid_width <= GRID_LIMIT,
                grid_height <= GRID_LIMIT,
                grid_width * grid_height <= usize::MAX,
                source@.len() == grid_width * grid_height,
                solid@.len() == y * grid_width,
                forall|k: int|
                    0 <= k < solid@.len() ==> #[trigger] solid@[k] == source@[k % (
                    grid_width as int) + (grid_height - 1 - k / (grid_width as int)) * grid_width],
            decreases grid_height - y,
        {
            let mut x: usize = 0;
            while x < grid_width
                invariant
                    y < grid_height,
                    x <= grid_width,
                    grid_width <= GRID_LIMIT,
                    grid_height <= GRID_LIMIT,
                    grid_width * grid_height <= usize::MAX,
                    source@.len() == grid_width * grid_height,
                    solid@.len() == y * grid_width + x,
                    forall|k: int|
                        0 <= k < solid@.len() ==> #[trigger] solid@[k] == source@[k % (
                        grid_width as int) + (grid_height - 1 - k / (grid_width as int))
                            * grid_width],
                decreases grid_width - x,
            {
                proof {
                    assert((grid_height - 1 - y) * grid_width + x < grid_width * grid_height
                        && y * grid_width + x < grid_width * grid_height) by (nonlinear_arith)
                        requires
                            x < grid_width,
                            y < grid_height,
                    ;
                }
                let src_index = x + (grid_height - 1 - y) * grid_width;
                let v = source[src_index];
                solid.push(v);
                proof {
                    lemma_fundamental_div_mod_converse(
                        y * grid_width + x,
                        grid_width as int,
                        y as int,
                        x as int,
                    );
                }
                x = x + 1;
            }
            proof {
                assert((y + 1) * grid_width == y * grid_width + grid_width) by (nonlinear_arith);
            }
            y = y + 1;
        }
        proof {
            assert(solid@.len() == grid_width * grid_height) by (nonlinear_arith)
                requires
                    solid@.len() == grid_height * grid_width,
            ;
        }
        let m = CollisionMap { tile_width, tile_height, grid_width, grid_height, solid };
        proof {
            assert forall|x: int, y: int|
                0 <= x < grid_width && 0 <= y < grid_height implies #[trigger] m.solid_at(x, y)
                == source@[x + (grid_height - 1 - y) * grid_width] by {
                assert(0 <= x + y * grid_width < m.solid@.len()) by (nonlinear_arith)
                    requires
                        0 <= x < grid_width,
                        0 <= y < grid_height,
                        m.solid@.len() == grid_width * grid_height,
                ;
                lemma_fundamental_div_mod_converse(x + y * grid_width, grid_width as int, y, x);
            }
        }
        Ok(m)
    }

    /// The world-space box of tile `(x, y)`.
    pub fn tile_aabb(&self, x: usize, y: usize) -> (r: AABB)
        requires
            self.wf(),
            x < self.grid_width,
            y < self.grid_height,
        ensures
            r@ == self.tile_box(x as int, y as int),
            r.wf(),
    {
        proof {
            assert(0 <= x * self.tile_width <= GRID_LIMIT * HALF_LIMIT && 0 <= y
                * self.tile_height <= GRID_LIMIT * HALF_LIMIT) by (nonlinear_arith)
                requires
                    0 <= x <= GRID_LIMIT,
                    0 <= y <= GRID_LIMIT,
                    0 < self.tile_width <= HALF_LIMIT,
                    0 < self.tile_height <= HALF_LIMIT,
            ;
        }
        let half_w = ((self.tile_width as u64) / 2) as i64;
        let half_h = ((self.tile_height as u64) / 2) as i64;
        let cx = (x as i64) * self.tile_width + half_w;
        let cy = (y as i64) * self.tile_height + half_h;
        AABB { center: Vec2 { x: cx, y: cy }, half_size: Vec2 { x: half_w, y: half_h } }
    }

    /// The columns `[lo, hi)` that could hold a tile touching the x extent
    /// `[left, right]`, clamped to the grid.
    pub fn column_range(&self, left: i64, right: i64) -> (r: (usize, usize))
        requires
            self.wf(),
            left <= right,
            -CENTER_LIMIT - HALF_LIMIT <= left,
            right <= CENTER_LIMIT + HALF_LIMIT,
        ensures
            r.0 == col_lo(*self, left as int),
            r.1 == col_hi(*self, right as int),
            r.0 <= r.1 <= self.grid_width,
    {
        let r = clamped_range(left, right, self.tile_width, self.grid_width);
        proof {
            lemma_div_is_ordered(left as int, right + self.tile_width - 1, self.tile_width as int);
        }
        r
    }

    /// The rows `[lo, hi)` that could hold a tile touching the y extent
    /// `[bottom, top]`, clamped to the grid.
    pub fn row_range(&self, bottom: i64, top: i64) -> (r: (usize, usize))
        requires
            self.wf(),
            bottom <= top,
            -CENTER_LIMIT - HALF_LIMIT <= bottom,
            top <= CENTER_LIMIT + HALF_LIMIT,
        ensures
            r.0 == row_lo(*self, bottom as int),
            r.1 == row_hi(*self, top as int),
            r.0 <= r.1 <= self.grid_height,
    {
        let r = clamped_range(bottom, top, self.tile_height, self.grid_height);
        proof {
            lemma_div_is_ordered(
                bottom as int,
                top + self.tile_height - 1,
                self.tile_height as int,
            );
        }
        r
    }
}

/// `[floor(lo / size), ceil(hi / size))`, both clamped to `[0, len]`.
fn clamped_range(lo: i64, hi: i64, size: i64, len: usize) -> (r: (usize, usize))
    requires
        0 < size <= HALF_LIMIT,
        len <= GRID_LIMIT,
        -CENTER_LIMIT - HALF_LIMIT <= lo,
        hi <= CENTER_LIMIT + HALF_LIMIT,
    ensures
        r.0 == clamp_index(lo as int / (size as int), len as int),
        r.1 == clamp_index((hi + size - 1) / (size as int), len as int),
{
    let first: usize = if lo <= 0 {
        proof {
            lemma_div_is_ordered(lo as int, 0, size as int);
            vstd::arithmetic::div_mod::lemma_div_of0(size as int);
        }
        0
    } else {
        let q = (lo as u64) / (size as u64);
        if q >= len as u64 {
            len
        } else {
            q as usize
        }
    };
    let last: usize = if hi <= 0 {
        proof {
            lemma_div_is_ordered(hi + size - 1, size - 1, size as int);
            vstd::arithmetic::div_mod::lemma_basic_div(size - 1, size as int);
        }
        0
    } else {
        let q = ((hi + size - 1) as u64) / (size as u64);
        if q >= len as u64 {
            len
        } else {
            q as usize
        }
    };
    (first, last)
}

/// The level's collision data as a one-shot state machine: `Unloaded` until
/// the tile-map data resolves, then `Built` exactly once, never re-entered.
pub enum LevelCollision {
    Unloaded,
    Built(CollisionMap),
}

impl LevelCollision {
    pub open spec fn wf(self) -> bool {
        self matches LevelCollision::Built(m) ==> m.wf()
    }

    pub fn new() -> (r: LevelCollision)
        ensures
            r is Unloaded,
            r.wf(),
    {
        LevelCollision::Unloaded
    }

    /// One-shot construction from a tile layer given top to bottom: the
    /// first call with acceptable layer data builds the bitmap; once built,
    /// every later call leaves the map untouched and reports `false`.
    pub fn build_once(
        &mut self,
        grid_width: usize,
        grid_height: usize,
        tile_width: i64,
        tile_height: i64,
        source: &Vec<bool>,
    ) -> (built_now: bool)
        requires
            old(self).wf(),
        ensures
            final(self).wf(),
            (*old(self)) is Built ==> *final(self) == *old(self) && !built_now,
            (*old(self)) is Unloaded && !(layer_dims_ok(
                grid_width as int,
                grid_height as int,
                tile_width as int,
                tile_height as int,
            ) && source@.len() == grid_width * grid_height) ==> *final(self) == *old(self)
                && !built_now,
            (*old(self)) is Unloaded && layer_dims_ok(
                grid_width as int,
                grid_height as int,
                tile_width as int,
                tile_height as int,
            ) && source@.len() == grid_width * grid_height ==> built_now && (match *final(self) {
                LevelCollision::Built(m) => {
                    &&& m.grid_width == grid_width
                    &&& m.grid_height == grid_height
                    &&& m.tile_width == tile_width
                    &&& m.tile_height == tile_height
                    &&& forall|x: int, y: int|
                        0 <= x < grid_width && 0 <= y < grid_height ==> #[trigger] m.solid_at(x, y)
                            == source@[x + (grid_height - 1 - y) * grid_width]
                },
                LevelCollision::Unloaded => false,
            }),
    {
        match self {
            LevelCollision::Built(_) => false,
            LevelCollision::Unloaded => {
                match CollisionMap::from_layer(
                    grid_width,
                    grid_height,
                    tile_width,
                    tile_height,
                    source,
                ) {
                    Ok(m) => {
                        *self = LevelCollision::Built(m);
                        true
                    },
                    Err(_) => false,
                }
            },
        }
    }
}

/// An index clamped to `[0, len]`.
pub open spec fn clamp_index(v: int, len: int) -> int {
    if v < 0 {
        0
    } else if v > len {
        len
    } else {
        v
    }
}

/// The first tile column that a box reaching left to `left` could touch:
/// `floor(left / tile_width)`, clamped to the grid.
pub open spec fn col_lo(m: CollisionMap, left: int) -> int {
    clamp_index(left / (m.tile_width as int), m.grid_width as int)
}

/// One past the last tile column that a box reaching right to `right`
/// could touch: `ceil(right / tile_width)`, clamped to the grid.
pub open spec fn col_hi(m: CollisionMap, right: int) -> int {
    clamp_index((right + m.tile_width - 1) / (m.tile_width as int), m.grid_width as int)
}

/// The first tile row that a box reaching down to `bottom` could touch.
pub open spec fn row_lo(m: CollisionMap, bottom: int) -> int {
    clamp_index(bottom / (m.tile_height as int), m.grid_height as int)
}

/// One past the last tile row that a box reaching up to `top` could touch.
pub open spec fn row_hi(m: CollisionMap, top: int) -> int {
    clamp_index((top + m.tile_height - 1) / (m.tile_height as int), m.grid_height as int)
}

/// Clamped range safety: the candidate tile ranges a box yields lie inside
/// `[0, grid_width]` and `[0, grid_height]` even when the box extends
/// beyond the map edges, so every bitmap lookup made over them is in
/// range.
pub proof fn lemma_candidate_ranges_in_grid(
    m: CollisionMap,
    left: int,
    right: int,
    bottom: int,
    top: int,
)
    requires
        m.wf(),
        left <= right,
        bottom <= top,
    ensures
        0 <= col_lo(m, left) <= col_hi(m, right) <= m.grid_width,
        0 <= row_lo(m, bottom) <= row_hi(m, top) <= m.grid_height,
{
    lemma_div_is_ordered(left, right + m.tile_width - 1, m.tile_width as int);
    lemma_div_is_ordered(bottom, top + m.tile_height - 1, m.tile_height as int);
}

/// A tile in a column outside `[col_lo, col_hi)` cannot overlap the box:
/// the candidate column range is safe to clamp to the grid.
pub proof fn lemma_tile_outside_columns(m: CollisionMap, b: Box2, i: int, j: int)
    requires
        m.wf(),
        b.hx >= 0,
        0 <= i < m.grid_width,
        i < col_lo(m, b.left()) || i >= col_hi(m, b.right()),
    ensures
        !overlap(b, m.tile_box(i, j)),
{
    let tw = m.tile_width as int;
    let t = m.tile_box(i, j);
    lemma_fundamental_div_mod(tw, 2);
    lemma_mod_bound(tw, 2);
    if i >= col_hi(m, b.right()) {
        let q = (b.right() + tw - 1) / tw;
        // i is inside the grid, so the clamp did not raise the bound: q <= i.
        assert(q <= i);
        lemma_fundamental_div_mod(b.right() + tw - 1, tw);
        lemma_mod_bound(b.right() + tw - 1, tw);
        assert(tw * q >= b.right());
        assert(i * tw >= tw * q) by (nonlinear_arith)
            requires
                q <= i,
                tw > 0,
        ;
        assert(t.cx - t.hx >= b.cx + b.hx);
    } else {
        let q = b.left() / tw;
        // The clamp did not lower the bound below i + 1: i + 1 <= q.
        assert(i < q);
        lemma_fundamental_div_mod(b.left(), tw);
        lemma_mod_bound(b.left(), tw);
        assert(tw * q <= b.left());
        assert(i * tw + tw <= tw * q) by (nonlinear_arith)
            requires
                i + 1 <= q,
                tw > 0,
        ;
        assert(t.cx + t.hx <= b.cx - b.hx);
    }
}

/// A tile in a row outside `[row_lo, row_hi)` cannot overlap the box:
/// the candidate row range is safe to clamp to the grid.
pub proof fn lemma_tile_outside_rows(m: CollisionMap, b: Box2, i: int, j: int)
    requires
        m.wf(),
        b.hy >= 0,
        0 <= j < m.grid_height,
        j < row_lo(m, b.bottom()) || j >= row_hi(m, b.top()),
    ensures
        !overlap(b, m.tile_box(i, j)),
{
    let th = m.tile_height as int;
    let t = m.tile_box(i, j);
    lemma_fundamental_div_mod(th, 2);
    lemma_mod_bound(th, 2);
    if j >= row_hi(m, b.top()) {
        let q = (b.top() + th - 1) / th;
        assert(q <= j);
        lemma_fundamental_div_mod(b.top() + th - 1, th);
        lemma_mod_bound(b.top() + th - 1, th);
        assert(th * q >= b.top());
        assert(j * th >= th * q) by (nonlinear_arith)
            requires
                q <= j,
                th > 0,
        ;
        assert(t.cy - t.hy >= b.cy + b.hy);
    } else {
        let q = b.bottom() / th;
        assert(j < q);
        lemma_fundamental_div_mod(b.bottom(), th);
        lemma_mod_bound(b.bottom(), th);
        assert(th * q <= b.bottom());
        assert(j * th + th <= th * q) by (nonlinear_arith)
            requires
                j + 1 <= q,
                th > 0,
        ;
        assert(t.cy + t.hy <= b.cy - b.hy);
    }
}

} // verus!
