use game_core::player::{update_physics, Player};
use game_core::resolver::{resolve_collisions, resolve_with_level};
use game_core::tilemap::{CollisionMap, LevelCollision};
use game_core::units::Vec2;

/// A 10x10 grid of 16x16-pixel tiles (16_000 subpixel units) whose bottom
/// row is solid.
fn floor_map() -> CollisionMap {
    let mut source = vec![false; 100];
    // The bottom bitmap row comes from the last source row.
    for x in 0..10 {
        source[x + 9 * 10] = true;
    }
    CollisionMap::from_layer(10, 10, 16_000, 16_000, &source).unwrap()
}

/// A falling character: half size (6, 16) pixels, no gravity so the fall
/// speed stays put, moving down 50 pixels per second.
fn falling_player() -> Player {
    let mut p = Player::default();
    p.body.half_size = Vec2::new(6000, 16_000);
    p.physic.speed = 0;
    p.physic.gravity = 0;
    p.physic.velocity = Vec2::new(0, -50_000);
    p
}

#[test]
fn end_to_end_fall_and_land() {
    // Spawned at (80, 40), falling at 50 px/s, dt = 0.1 s: the first tick
    // moves the tentative y to 35 with no contact; the second tick
    // penetrates the solid bottom row (world y in [0, 16]) and must come
    // to rest exactly at y = 16 + 16 = 32, grounded, vertical velocity
    // zeroed.
    let map = floor_map();
    let mut p = falling_player();
    let mut pos = Vec2::new(80_000, 40_000);

    update_physics(&mut p, 100);
    let c1 = resolve_collisions(&mut p, &mut pos, &map, 100, 0);
    assert_eq!((c1.x, c1.y), (0, 0));
    assert_eq!((pos.x, pos.y), (80_000, 35_000));
    assert!(!p.physic.grounded);
    assert_eq!(p.physic.velocity.y, -50_000);

    update_physics(&mut p, 100);
    let c2 = resolve_collisions(&mut p, &mut pos, &map, 100, 0);
    assert_eq!(c2.x, 0);
    assert_eq!(c2.y, 2000);
    assert_eq!((pos.x, pos.y), (80_000, 32_000));
    assert!(p.physic.grounded);
    assert_eq!(p.physic.velocity.y, 0);
}

#[test]
fn grounded_transition_on_downward_contact() {
    let map = floor_map();
    let mut p = falling_player();
    let mut pos = Vec2::new(80_000, 35_000);
    let c = resolve_collisions(&mut p, &mut pos, &map, 100, 0);
    assert!(c.y > 0);
    assert!(p.physic.grounded);
    assert_eq!(p.physic.velocity.y, 0);
    assert_eq!(pos.y, 32_000);
}

#[test]
fn rerunning_the_resolver_applies_no_further_correction() {
    let map = floor_map();
    let mut p = falling_player();
    let mut pos = Vec2::new(80_000, 35_000);
    let first = resolve_collisions(&mut p, &mut pos, &map, 100, 0);
    assert!(first.y > 0);
    let rested = pos;
    let kept_velocity = p.physic.velocity;

    // The corrected box no longer overlaps and the corrected axis has zero
    // velocity: a second run in the same tick changes nothing.
    let again = resolve_collisions(&mut p, &mut pos, &map, 100, 0);
    assert_eq!((again.x, again.y), (0, 0));
    assert_eq!((pos.x, pos.y), (rested.x, rested.y));
    assert_eq!(p.physic.velocity, kept_velocity);
}

#[test]
fn skin_margin_widens_the_correction() {
    let map = floor_map();
    let mut p = falling_player();
    let mut pos = Vec2::new(80_000, 35_000);
    let c = resolve_collisions(&mut p, &mut pos, &map, 100, 50);
    assert_eq!(c.y, 2000);
    assert_eq!(pos.y, 32_050);
}

#[test]
fn wall_stops_horizontal_motion() {
    // Column 6 solid over the lowest three rows; the character walks right
    // into it and is pushed back flush against the wall's left face.
    let mut source = vec![false; 100];
    for row in 0..3 {
        source[6 + (9 - row) * 10] = true;
    }
    let map = CollisionMap::from_layer(10, 10, 16_000, 16_000, &source).unwrap();

    let mut p = falling_player();
    p.physic.velocity = Vec2::new(150_000, 0);
    let mut pos = Vec2::new(80_000, 24_000);
    let c = resolve_collisions(&mut p, &mut pos, &map, 100, 0);
    assert_eq!(c.x, -5000);
    assert_eq!(pos.x, 90_000);
    assert_eq!(p.physic.velocity.x, 0);
    // The vertical pass saw no contact.
    assert_eq!(c.y, 0);
    assert!(!p.physic.grounded);
}

#[test]
fn empty_map_leaves_motion_uncorrected() {
    let source = vec![false; 100];
    let map = CollisionMap::from_layer(10, 10, 16_000, 16_000, &source).unwrap();
    let mut p = falling_player();
    let mut pos = Vec2::new(80_000, 40_000);
    let c = resolve_collisions(&mut p, &mut pos, &map, 100, 0);
    assert_eq!((c.x, c.y), (0, 0));
    assert_eq!(pos.y, 35_000);
    assert_eq!(p.physic.velocity.y, -50_000);
    assert!(!p.physic.grounded);
}

#[test]
fn unloaded_level_free_falls() {
    let level = LevelCollision::new();
    let mut p = falling_player();
    let mut pos = Vec2::new(80_000, 40_000);
    let c = resolve_with_level(&mut p, &mut pos, &level, 100, 0);
    assert_eq!((c.x, c.y), (0, 0));
    assert_eq!((pos.x, pos.y), (80_000, 35_000));
    assert!(!p.physic.grounded);
    assert_eq!(p.physic.velocity.y, -50_000);
}

#[test]
fn jump_separates_and_grounded_drops_within_one_tick() {
    // Resting on the floor, grounded, jump armed: the next tick moves the
    // character up and the vertical pass no longer re-asserts grounded.
    let map = floor_map();
    let mut p = falling_player();
    p.physic.velocity = Vec2::new(0, 0);
    p.physic.grounded = true;
    p.physic.jump_force = 250_000;
    p.physic.jump_timer = 300;
    let mut pos = Vec2::new(80_000, 32_000);

    update_physics(&mut p, 100);
    assert_eq!(p.physic.velocity.y, 250_000);
    let c = resolve_collisions(&mut p, &mut pos, &map, 100, 0);
    assert_eq!((c.x, c.y), (0, 0));
    assert_eq!(pos.y, 57_000);
    assert!(!p.physic.grounded);
}
