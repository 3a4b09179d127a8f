//! The collision resolver: corrects a character's tentative motion against
//! the collision map, axis by axis, and decides whether the character is
//! grounded.
//!
//! Each fixed tick the horizontal displacement is resolved fully before the
//! vertical one, and the vertical pass starts from the already corrected
//! horizontal position.  A pass advances the character's box along its axis,
//! walks every solid tile in the clamped candidate range, and keeps the
//! single deepest penetration on that axis (ties between an upward and a
//! downward — or rightward and leftward — push of equal depth go to the
//! positive push).  The kept correction, widened by the skin margin, is
//! committed once per axis, and the velocity on a corrected axis is zeroed.
//! The character is grounded exactly when the vertical pass pushed it upward
//! while it was moving down or resting.

use vstd::prelude::*;
use vstd::math::abs;
use crate::aabb::{lemma_pen_bounds, overlap, pen_x, pen_y, Box2, AABB};
use crate::player::{Player, PlayerPhysic};
use crate::tilemap::{
    lemma_tile_outside_columns,
    lemma_tile_outside_rows,
    CollisionMap,
    LevelCollision,
};
use crate::units::{mul_dt, scale_by_dt, Vec2, DT_LIMIT, MILLIS_PER_SECOND, POS_LIMIT, SKIN_LIMIT};

verus! {

/// The penetration on the axis a pass resolves.
pub open spec fn pen_axis(vertical: bool, a: Box2, t: Box2) -> int {
    if vertical {
        pen_y(a, t)
    } else {
        pen_x(a, t)
    }
}

/// What a single-axis scan returns for box `b`: `w` is zero exactly when no
/// solid tile overlaps `b`; otherwise `w` is the penetration of an
/// overlapping solid tile of greatest magnitude on the axis — the positive
/// one where both signs reach that magnitude.
pub open spec fn corr_valid(m: CollisionMap, b: Box2, vertical: bool, w: int) -> bool {
    &&& (w == 0 ==> forall|i: int, j: int|
        0 <= i < m.grid_width && 0 <= j < m.grid_height && m.solid_at(i, j) ==> !overlap(
            b,
            #[trigger] m.tile_box(i, j),
        ))
    &&& (w != 0 ==> exists|i: int, j: int|
        0 <= i < m.grid_width && 0 <= j < m.grid_height && m.solid_at(i, j) && overlap(
            b,
            #[trigger] m.tile_box(i, j),
        ) && pen_axis(vertical, b, m.tile_box(i, j)) == w)
    &&& forall|i: int, j: int|
        0 <= i < m.grid_width && 0 <= j < m.grid_height && m.solid_at(i, j) && overlap(
            b,
            #[trigger] m.tile_box(i, j),
        ) ==> abs(pen_axis(vertical, b, m.tile_box(i, j))) <= abs(w)
    &&& (w < 0 ==> forall|i: int, j: int|
        0 <= i < m.grid_width && 0 <= j < m.grid_height && m.solid_at(i, j) && overlap(
            b,
            #[trigger] m.tile_box(i, j),
        ) ==> pen_axis(vertical, b, m.tile_box(i, j)) != -w)
}

/// The tiles already visited by the scan: all columns before `i` and, in
/// column `i`, the rows before `j`, within the candidate range.
pub open spec fn scanned(
    i_lo: int,
    j_lo: int,
    j_hi: int,
    i: int,
    j: int,
    ii: int,
    jj: int,
) -> bool {
    &&& i_lo <= ii
    &&& j_lo <= jj < j_hi
    &&& (ii < i || (ii == i && jj < j))
}

/// [`corr_valid`] restricted to the tiles the scan has visited.
pub open spec fn scan_inv(
    m: CollisionMap,
    b: Box2,
    vertical: bool,
    w: int,
    i_lo: int,
    j_lo: int,
    j_hi: int,
    i: int,
    j: int,
) -> bool {
    &&& (w == 0 ==> forall|ii: int, jj: int|
        scanned(i_lo, j_lo, j_hi, i, j, ii, jj) && m.solid_at(ii, jj) ==> !overlap(
            b,
            #[trigger] m.tile_box(ii, jj),
        ))
    &&& (w != 0 ==> exists|ii: int, jj: int|
        scanned(i_lo, j_lo, j_hi, i, j, ii, jj) && m.solid_at(ii, jj) && overlap(
            b,
            #[trigger] m.tile_box(ii, jj),
        ) && pen_axis(vertical, b, m.tile_box(ii, jj)) == w)
    &&& forall|ii: int, jj: int|
        scanned(i_lo, j_lo, j_hi, i, j, ii, jj) && m.solid_at(ii, jj) && overlap(
            b,
            #[trigger] m.tile_box(ii, jj),
        ) ==> abs(pen_axis(vertical, b, m.tile_box(ii, jj))) <= abs(w)
    &&& (w < 0 ==> forall|ii: int, jj: int|
        scanned(i_lo, j_lo, j_hi, i, j, ii, jj) && m.solid_at(ii, jj) && overlap(
            b,
            #[trigger] m.tile_box(ii, jj),
        ) ==> pen_axis(vertical, b, m.tile_box(ii, jj)) != -w)
}

/// The per-axis correction bound: a penetration never exceeds the summed
/// half extents of the character box and a tile.
pub open spec fn corr_bound(m: CollisionMap, b: Box2, vertical: bool) -> int {
    if vertical {
        b.hy + m.tile_height / 2
    } else {
        b.hx + m.tile_width / 2
    }
}

/// Walks every solid tile in the clamped candidate range of `b` and returns
/// the correction for the chosen axis: the deepest penetration, ties to the
/// positive side, zero when nothing overlaps.
fn scan_correction(map: &CollisionMap, b: &AABB, vertical: bool) -> (w: i64)
    requires
        map.wf(),
        b.wf(),
    ensures
        corr_valid(*map, b@, vertical, w as int),
        abs(w as int) <= corr_bound(*map, b@, vertical),
{
    let left = b.left();
    let right = b.right();
    let bottom = b.bottom();
    let top = b.top();
    let range_x = map.column_range(left, right);
    let range_y = map.row_range(bottom, top);
    let i_lo = range_x.0;
    let i_hi = range_x.1;
    let j_lo = range_y.0;
    let j_hi = range_y.1;
    let mut w: i64 = 0;
    let mut i = i_lo;
    while i < i_hi
        invariant
            map.wf(),
            b.wf(),
            i_lo <= i <= i_hi,
            i_hi <= map.grid_width,
            j_lo <= j_hi <= map.grid_height,
            abs(w as int) <= corr_bound(*map, b@, vertical),
            scan_inv(
                *map,
                b@,
                vertical,
                w as int,
                i_lo as int,
                j_lo as int,
                j_hi as int,
                i as int,
                j_lo as int,
            ),
        decreases i_hi - i,
    {
        let mut j = j_lo;
        while j < j_hi
            invariant
                map.wf(),
                b.wf(),
                i_lo <= i < i_hi,
                i_hi <= map.grid_width,
                j_lo <= j <= j_hi,
                j_hi <= map.grid_height,
                abs(w as int) <= corr_bound(*map, b@, vertical),
                scan_inv(
                    *map,
                    b@,
                    vertical,
                    w as int,
                    i_lo as int,
                    j_lo as int,
                    j_hi as int,
                    i as int,
                    j as int,
                ),
            decreases j_hi - j,
        {
            if map.is_solid(i, j) {
                let tb = map.tile_aabb(i, j);
                let d = b.get_intersection_depth(&tb);
                let c = if vertical {
                    d.y
                } else {
                    d.x
                };
                if c != 0 {
                    proof {
                        assert(overlap(b@, tb@));
                        lemma_pen_bounds(b@, tb@);
                    }
                    let c_abs = if c < 0 {
                        -c
                    } else {
                        c
                    };
                    let w_abs = if w < 0 {
                        -w
                    } else {
                        w
                    };
                    if c_abs > w_abs || (c_abs == w_abs && c > 0 && w < 0) {
                        w = c;
                    }
                    proof {
                        assert(scanned(
                            i_lo as int,
                            j_lo as int,
                            j_hi as int,
                            i as int,
                            j + 1,
                            i as int,
                            j as int,
                        ));
                    }
                }
            }
            j = j + 1;
        }
        i = i + 1;
    }
    proof {
        assert forall|ii: int, jj: int|
            0 <= ii < map.grid_width && 0 <= jj < map.grid_height && map.solid_at(ii, jj)
                && overlap(b@, #[trigger] map.tile_box(ii, jj)) implies scanned(
            i_lo as int,
            j_lo as int,
            j_hi as int,
            i_hi as int,
            j_lo as int,
            ii,
            jj,
        ) by {
            if !(i_lo <= ii < i_hi) {
                lemma_tile_outside_columns(*map, b@, ii, jj);
            } else if !(j_lo <= jj < j_hi) {
                lemma_tile_outside_rows(*map, b@, ii, jj);
            }
        }
    }
    w
}

/// [`corr_valid`] determines the correction: any two values valid for the
/// same map, box and axis are equal, so the resolver's contract leaves a
/// single possible outcome.
pub proof fn lemma_correction_unique(m: CollisionMap, b: Box2, vertical: bool, w1: int, w2: int)
    requires
        corr_valid(m, b, vertical, w1),
        corr_valid(m, b, vertical, w2),
    ensures
        w1 == w2,
{
    if w1 != 0 {
        let (i1, j1): (int, int) = choose|i: int, j: int|
            0 <= i < m.grid_width && 0 <= j < m.grid_height && m.solid_at(i, j) && overlap(
                b,
                #[trigger] m.tile_box(i, j),
            ) && pen_axis(vertical, b, m.tile_box(i, j)) == w1;
        assert(abs(w1) <= abs(w2));
    }
    if w2 != 0 {
        let (i2, j2): (int, int) = choose|i: int, j: int|
            0 <= i < m.grid_width && 0 <= j < m.grid_height && m.solid_at(i, j) && overlap(
                b,
                #[trigger] m.tile_box(i, j),
            ) && pen_axis(vertical, b, m.tile_box(i, j)) == w2;
        assert(abs(w2) <= abs(w1));
    }
}

/// A corrected coordinate: the candidate plus the correction, widened by
/// the skin margin in the correction's direction.
pub open spec fn corrected(cand: int, w: int, skin: int) -> int {
    if w > 0 {
        cand + w + skin
    } else if w < 0 {
        cand + w - skin
    } else {
        cand
    }
}

/// The box the horizontal pass tests: the character advanced along x only.
pub open spec fn x_pass_box(p: Player, pos: Vec2, dt: i64) -> Box2 {
    Box2 {
        cx: pos.x + scale_by_dt(p.physic.velocity.x as int, dt as int),
        cy: pos.y as int,
        hx: p.body.half_size.x as int,
        hy: p.body.half_size.y as int,
    }
}

/// The box the vertical pass tests: the corrected x position, advanced
/// along y only.
pub open spec fn y_pass_box(p: Player, pos: Vec2, new_x: int, dt: i64) -> Box2 {
    Box2 {
        cx: new_x,
        cy: pos.y + scale_by_dt(p.physic.velocity.y as int, dt as int),
        hx: p.body.half_size.x as int,
        hy: p.body.half_size.y as int,
    }
}

/// Everything one resolver tick does, relating the state before (`p0`,
/// `pos0`) to the state after (`p1`, `pos1`) and the returned per-axis
/// corrections.
pub open spec fn resolve_post(
    m: CollisionMap,
    p0: Player,
    pos0: Vec2,
    p1: Player,
    pos1: Vec2,
    corr: Vec2,
    dt: i64,
    skin: i64,
) -> bool {
    let bx = x_pass_box(p0, pos0, dt);
    let by = y_pass_box(p0, pos0, pos1.x as int, dt);
    &&& corr_valid(m, bx, false, corr.x as int)
    &&& abs(corr.x as int) <= corr_bound(m, bx, false)
    &&& pos1.x == corrected(bx.cx, corr.x as int, skin as int)
    &&& p1.physic.velocity.x == (if corr.x != 0 {
        0int
    } else {
        p0.physic.velocity.x as int
    })
    &&& corr_valid(m, by, true, corr.y as int)
    &&& abs(corr.y as int) <= corr_bound(m, by, true)
    &&& pos1.y == corrected(by.cy, corr.y as int, skin as int)
    &&& p1.physic.velocity.y == (if corr.y != 0 {
        0int
    } else {
        p0.physic.velocity.y as int
    })
    &&& (p1.physic.grounded <==> corr.y > 0 && p0.physic.velocity.y <= 0)
    &&& p1.body == p0.body
    &&& p1.stats == p0.stats
    &&& p1.base_stats == p0.base_stats
    &&& p1.physic == (PlayerPhysic {
        velocity: p1.physic.velocity,
        grounded: p1.physic.grounded,
        ..p0.physic
    })
}

/// One resolver tick against a built collision map, axis-separated:
/// horizontal displacement first, then vertical from the corrected
/// horizontal position.  Commits the corrected position, zeroes the
/// velocity on each corrected axis, and re-derives `grounded`: true exactly
/// when the vertical pass pushed the character up while it moved down or
/// rested.  Returns the applied per-axis corrections, zero on an axis that
/// had no overlap.
pub fn resolve_collisions(
    p: &mut Player,
    pos: &mut Vec2,
    map: &CollisionMap,
    dt: i64,
    skin: i64,
) -> (corrections: Vec2)
    requires
        old(p).wf(),
        map.wf(),
        0 <= dt <= DT_LIMIT,
        0 <= skin <= SKIN_LIMIT,
        -POS_LIMIT <= old(pos).x <= POS_LIMIT,
        -POS_LIMIT <= old(pos).y <= POS_LIMIT,
    ensures
        resolve_post(*map, *old(p), *old(pos), *final(p), *final(pos), corrections, dt, skin),
        final(p).wf(),
{
    // Horizontal pass.
    let dx = mul_dt(p.physic.velocity.x, dt);
    let cand_x = pos.x + dx;
    let bx = AABB::new(Vec2::new(cand_x, pos.y), p.body.half_size);
    let wx = scan_correction(map, &bx, false);
    let new_x = if wx > 0 {
        cand_x + wx + skin
    } else if wx < 0 {
        cand_x + wx - skin
    } else {
        cand_x
    };
    if wx != 0 {
        p.physic.velocity.x = 0;
    }
    pos.x = new_x;

    // Vertical pass, from the corrected horizontal position; the character
    // is grounded only if this pass says so.
    p.physic.grounded = false;
    let dy = mul_dt(p.physic.velocity.y, dt);
    let cand_y = pos.y + dy;
    let by = AABB::new(Vec2::new(pos.x, cand_y), p.body.half_size);
    let wy = scan_correction(map, &by, true);
    let new_y = if wy > 0 {
        cand_y + wy + skin
    } else if wy < 0 {
        cand_y + wy - skin
    } else {
        cand_y
    };
    if wy != 0 {
        if wy > 0 && p.physic.velocity.y <= 0 {
            p.physic.grounded = true;
        }
        p.physic.velocity.y = 0;
    }
    pos.y = new_y;
    Vec2 { x: wx, y: wy }
}

/// One resolver tick against the level's collision state: with no map built
/// yet the motion is committed uncorrected (the character free-falls) and
/// nothing is grounded.
pub fn resolve_with_level(
    p: &mut Player,
    pos: &mut Vec2,
    level: &LevelCollision,
    dt: i64,
    skin: i64,
) -> (corrections: Vec2)
    requires
        old(p).wf(),
        level.wf(),
        0 <= dt <= DT_LIMIT,
        0 <= skin <= SKIN_LIMIT,
        -POS_LIMIT <= old(pos).x <= POS_LIMIT,
        -POS_LIMIT <= old(pos).y <= POS_LIMIT,
    ensures
        final(p).wf(),
        (match *level {
            LevelCollision::Built(m) => resolve_post(
                m,
                *old(p),
                *old(pos),
                *final(p),
                *final(pos),
                corrections,
                dt,
                skin,
            ),
            LevelCollision::Unloaded => {
                &&& corrections.x == 0 && corrections.y == 0
                &&& final(pos).x == old(pos).x + scale_by_dt(
                    old(p).physic.velocity.x as int,
                    dt as int,
                )
                &&& final(pos).y == old(pos).y + scale_by_dt(
                    old(p).physic.velocity.y as int,
                    dt as int,
                )
                &&& final(p).physic.velocity == old(p).physic.velocity
                &&& !final(p).physic.grounded
                &&& final(p).body == old(p).body
                &&& final(p).stats == old(p).stats
                &&& final(p).base_stats == old(p).base_stats
                &&& final(p).physic == (PlayerPhysic {
                    grounded: false,
                    ..old(p).physic
                })
            },
        }),
{
    match level {
        LevelCollision::Built(m) => resolve_collisions(p, pos, m, dt, skin),
        LevelCollision::Unloaded => {
            let dx = mul_dt(p.physic.velocity.x, dt);
            let dy = mul_dt(p.physic.velocity.y, dt);
            pos.x = pos.x + dx;
            pos.y = pos.y + dy;
            p.physic.grounded = false;
            Vec2 { x: 0, y: 0 }
        },
    }
}

/// Grounded transition: a character moving downward (or resting) that the
/// vertical pass pushes upward — separating it from a tile below — ends the
/// tick grounded, with its vertical velocity zeroed.
pub proof fn lemma_grounded_transition(
    m: CollisionMap,
    p0: Player,
    pos0: Vec2,
    p1: Player,
    pos1: Vec2,
    corr: Vec2,
    dt: i64,
    skin: i64,
)
    requires
        resolve_post(m, p0, pos0, p1, pos1, corr, dt, skin),
        corr.y > 0,
        p0.physic.velocity.y <= 0,
    ensures
        p1.physic.grounded,
        p1.physic.velocity.y == 0,
{
}

/// Idempotence: when neither pass's box overlaps any solid tile — as after
/// a correcting tick, whose skin margin separates the character strictly —
/// the resolver applies no correction: the position is exactly the advanced
/// position, the velocity is kept, and nothing is grounded.  A corrected
/// axis had its velocity zeroed, so on such an axis the position does not
/// move at all on the second run; `grounded` itself is re-derived every
/// pass and is not re-asserted without a fresh downward contact.
pub proof fn lemma_resolver_no_contact_is_noop(
    m: CollisionMap,
    p0: Player,
    pos0: Vec2,
    p1: Player,
    pos1: Vec2,
    corr: Vec2,
    dt: i64,
    skin: i64,
)
    requires
        resolve_post(m, p0, pos0, p1, pos1, corr, dt, skin),
        forall|i: int, j: int|
            0 <= i < m.grid_width && 0 <= j < m.grid_height && m.solid_at(i, j) ==> !overlap(
                x_pass_box(p0, pos0, dt),
                #[trigger] m.tile_box(i, j),
            ),
        forall|i: int, j: int|
            0 <= i < m.grid_width && 0 <= j < m.grid_height && m.solid_at(i, j) ==> !overlap(
                y_pass_box(p0, pos0, x_pass_box(p0, pos0, dt).cx, dt),
                #[trigger] m.tile_box(i, j),
            ),
    ensures
        corr.x == 0,
        corr.y == 0,
        pos1.x == x_pass_box(p0, pos0, dt).cx,
        pos1.y == y_pass_box(p0, pos0, pos1.x as int, dt).cy,
        p1.physic.velocity == p0.physic.velocity,
        !p1.physic.grounded,
        p0.physic.velocity.x == 0 ==> pos1.x == pos0.x,
        p0.physic.velocity.y == 0 ==> pos1.y == pos0.y,
{
    assert(scale_by_dt(0, dt as int) == 0) by {
        vstd::arithmetic::div_mod::lemma_div_of0(MILLIS_PER_SECOND as int);
    }
    let bx = x_pass_box(p0, pos0, dt);
    if corr.x != 0 {
        let (i, j): (int, int) = choose|i: int, j: int|
            0 <= i < m.grid_width && 0 <= j < m.grid_height && m.solid_at(i, j) && overlap(
                bx,
                #[trigger] m.tile_box(i, j),
            ) && pen_axis(false, bx, m.tile_box(i, j)) == corr.x as int;
        assert(false);
    }
    assert(pos1.x == bx.cx);
    let by = y_pass_box(p0, pos0, pos1.x as int, dt);
    if corr.y != 0 {
        let (i, j): (int, int) = choose|i: int, j: int|
            0 <= i < m.grid_width && 0 <= j < m.grid_height && m.solid_at(i, j) && overlap(
                by,
                #[trigger] m.tile_box(i, j),
            ) && pen_axis(true, by, m.tile_box(i, j)) == corr.y as int;
        assert(false);
    }
    assert(p1.physic.velocity.x == p0.physic.velocity.x);
    assert(p1.physic.velocity.y == p0.physic.velocity.y);
}

} // verus!
