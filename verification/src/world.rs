//! World-space placement: converting tile-data coordinates (origin top
//! left, y growing down) to world coordinates (origin bottom left, y
//! growing up), locating the character's spawn object in the level data,
//! and sizing the character's capsule collider.

use vstd::prelude::*;
use vstd::math::max;
use crate::units::{Vec2, HALF_LIMIT, POS_LIMIT};

verus! {

/// A named object of a level's object layer, at tile-data coordinates.
#[derive(Debug)]
pub struct LevelObject {
    pub name: String,
    pub x: i64,
    pub y: i64,
}

/// Why a character could not be spawned.  Unlike every other failure in
/// the simulation this one is fatal to setup: without a spawn object the
/// character cannot exist.
#[derive(Debug, Clone, Copy, PartialEq, Eq, Structural)]
pub enum SpawnError {
    /// No object in the layer carries the requested name.
    MissingPlayerObject,
}

impl SpawnError {
    /// A human-readable description of the failure.
    pub fn message(&self) -> (r: String)
        ensures
            r@ == "Player Data not found"@,
    {
        let r: String = "Player Data not found".to_owned();
        r
    }
}

/// Converts a tile-data position to world space: x is kept, y is measured
/// from the bottom, i.e. the map's pixel height minus the tile-space y.
pub fn tiled_to_world_position(tiled_pos: Vec2, map_pixel_height: i64) -> (r: Vec2)
    requires
        -POS_LIMIT <= tiled_pos.x <= POS_LIMIT,
        -POS_LIMIT <= tiled_pos.y <= POS_LIMIT,
        0 <= map_pixel_height <= POS_LIMIT,
    ensures
        r.x == tiled_pos.x,
        r.y == map_pixel_height - tiled_pos.y,
{
    Vec2 { x: tiled_pos.x, y: map_pixel_height - tiled_pos.y }
}

/// The world x of a spawned character: the object's x plus half the
/// character's width, so the object marks the character's lower-left
/// corner.
pub open spec fn spawn_x(o: LevelObject, player_size: Vec2) -> int {
    o.x + player_size.x / 2
}

/// The world y of a spawned character: the object's y measured from the
/// bottom, plus half the character's height.
pub open spec fn spawn_y(o: LevelObject, map_pixel_height: int, player_size: Vec2) -> int {
    (map_pixel_height - o.y) + player_size.y / 2
}

/// Places a character of `player_size` at a spawn object's position: the
/// converted world position offset by half the character's size.
pub fn player_spawn_position(object_pos: Vec2, map_pixel_height: i64, player_size: Vec2) -> (r:
    Vec2)
    requires
        -POS_LIMIT <= object_pos.x <= POS_LIMIT,
        -POS_LIMIT <= object_pos.y <= POS_LIMIT,
        0 <= map_pixel_height <= POS_LIMIT,
        0 <= player_size.x <= HALF_LIMIT,
        0 <= player_size.y <= HALF_LIMIT,
    ensures
        r.x == object_pos.x + player_size.x / 2,
        r.y == (map_pixel_height - object_pos.y) + player_size.y / 2,
{
    let world = tiled_to_world_position(object_pos, map_pixel_height);
    let half_x = ((player_size.x as u64) / 2) as i64;
    let half_y = ((player_size.y as u64) / 2) as i64;
    Vec2 { x: world.x + half_x, y: world.y + half_y }
}

/// The capsule collider for a character of `player_size`: the radius is
/// half the width and the cylindrical half height is half the height less
/// the radius, each at least one pixel (a thousand subpixel units).
/// Returns `(half_height, radius)`.
pub fn capsule_dims(player_size: Vec2) -> (r: (i64, i64))
    requires
        0 <= player_size.x <= HALF_LIMIT,
        0 <= player_size.y <= HALF_LIMIT,
    ensures
        r.1 == max(player_size.x as int / 2, 1000),
        r.0 == max(player_size.y as int / 2 - player_size.x as int / 2, 1000),
{
    let radius = ((player_size.x as u64) / 2) as i64;
    let half_height = ((player_size.y as u64) / 2) as i64 - radius;
    let r0 = if half_height < 1000 {
        1000
    } else {
        half_height
    };
    let r1 = if radius < 1000 {
        1000
    } else {
        radius
    };
    (r0, r1)
}

/// Character-by-character string equality over the views.
pub fn str_eq(a: &str, b: &str) -> (r: bool)
    ensures
        r == (a@ == b@),
{
    let n = a.unicode_len();
    let m = b.unicode_len();
    if n != m {
        return false;
    }
    let mut i: usize = 0;
    while i < n
        invariant
            i <= n,
            n == a@.len(),
            n == b@.len(),
            forall|k: int| 0 <= k < i ==> a@[k] == b@[k],
        decreases n - i,
    {
        if a.get_char(i) != b.get_char(i) {
            return false;
        }
        i = i + 1;
    }
    proof {
        assert(a@ =~= b@);
    }
    true
}

/// Finds the first object named `target` and returns the world position a
/// character of `player_size` spawns at from it.  With no such object the
/// character cannot exist: the fatal [`SpawnError::MissingPlayerObject`]
/// is reported.
pub fn find_player_spawn(
    objects: &Vec<LevelObject>,
    target: &str,
    map_pixel_height: i64,
    player_size: Vec2,
) -> (r: Result<Vec2, SpawnError>)
    requires
        forall|k: int|
            0 <= k < objects@.len() ==> -POS_LIMIT <= (#[trigger] objects@[k]).x <= POS_LIMIT
                && -POS_LIMIT <= objects@[k].y <= POS_LIMIT,
        0 <= map_pixel_height <= POS_LIMIT,
        0 <= player_size.x <= HALF_LIMIT,
        0 <= player_size.y <= HALF_LIMIT,
    ensures
        match r {
            Ok(pos) => exists|k: int|
                {
                    &&& 0 <= k < objects@.len()
                    &&& (#[trigger] objects@[k]).name@ == target@
                    &&& (forall|l: int| 0 <= l < k ==> (#[trigger] objects@[l]).name@ != target@)
                    &&& pos.x == spawn_x(objects@[k], player_size)
                    &&& pos.y == spawn_y(objects@[k], map_pixel_height as int, player_size)
                },
            Err(SpawnError::MissingPlayerObject) => forall|k: int|
                0 <= k < objects@.len() ==> (#[trigger] objects@[k]).name@ != target@,
        },
{
    let n = objects.len();
    let mut i: usize = 0;
    while i < n
        invariant
            i <= n,
            n == objects@.len(),
            forall|k: int|
                0 <= k < objects@.len() ==> -POS_LIMIT <= (#[trigger] objects@[k]).x <= POS_LIMIT
                    && -POS_LIMIT <= objects@[k].y <= POS_LIMIT,
            0 <= map_pixel_height <= POS_LIMIT,
            0 <= player_size.x <= HALF_LIMIT,
            0 <= player_size.y <= HALF_LIMIT,
            forall|l: int| 0 <= l < i ==> (#[trigger] objects@[l]).name@ != target@,
        decreases n - i,
    {
        let o = &objects[i];
        if str_eq(o.name.as_str(), target) {
            let pos = player_spawn_position(
                Vec2 { x: o.x, y: o.y },
                map_pixel_height,
                player_size,
            );
            return Ok(pos);
        }
        i = i + 1;
    }
    Err(SpawnError::MissingPlayerObject)
}

} // verus!
