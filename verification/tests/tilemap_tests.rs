use game_core::tilemap::{CollisionMap, LevelCollision, MapError};

fn small_map() -> CollisionMap {
    // 2x2 grid; source rows top to bottom: [true, false] then [false, true].
    let source = vec![true, false, false, true];
    CollisionMap::from_layer(2, 2, 16_000, 16_000, &source).unwrap()
}

#[test]
fn row_inversion_on_build() {
    let m = small_map();
    // Bitmap row 0 is the bottom row, i.e. the second source row.
    assert!(!m.is_solid(0, 0));
    assert!(m.is_solid(1, 0));
    // Bitmap row 1 is the top row, i.e. the first source row.
    assert!(m.is_solid(0, 1));
    assert!(!m.is_solid(1, 1));
}

#[test]
fn bad_dimensions_are_rejected() {
    let source = vec![true, false];
    let r = CollisionMap::from_layer(2, 1, 0, 16_000, &source);
    assert!(matches!(r, Err(MapError::Dimensions)));
}

#[test]
fn wrong_source_length_is_rejected() {
    let source = vec![true, false, true];
    let r = CollisionMap::from_layer(2, 2, 16_000, 16_000, &source);
    assert!(matches!(r, Err(MapError::SourceLength)));
}

#[test]
fn tile_aabb_center_and_half() {
    let m = small_map();
    let t = m.tile_aabb(1, 1);
    assert_eq!(t.center.x, 24_000);
    assert_eq!(t.center.y, 24_000);
    assert_eq!(t.half_size.x, 8000);
    assert_eq!(t.half_size.y, 8000);
}

#[test]
fn candidate_ranges_are_clamped_to_the_grid() {
    let source = vec![false; 100];
    let m = CollisionMap::from_layer(10, 10, 16_000, 16_000, &source).unwrap();
    // A box reaching far past both edges still yields grid-bounded ranges.
    let r = m.column_range(-50_000, 20_000);
    assert_eq!(r, (0, 2));
    let r = m.column_range(150_000, 400_000);
    assert_eq!(r, (9, 10));
    let r = m.column_range(-500_000, -100_000);
    assert_eq!(r, (0, 0));
    let r = m.row_range(161_000, 200_000);
    assert_eq!(r, (10, 10));
}

#[test]
fn build_once_builds_only_once() {
    let mut level = LevelCollision::new();
    let first = vec![true, true, true, true];
    assert!(level.build_once(2, 2, 16_000, 16_000, &first));
    // A second load attempt leaves the built map untouched.
    let second = vec![false, false, false, false];
    assert!(!level.build_once(2, 2, 16_000, 16_000, &second));
    match &level {
        LevelCollision::Built(m) => assert!(m.is_solid(0, 0)),
        LevelCollision::Unloaded => panic!("level should be built"),
    }
}

#[test]
fn build_once_keeps_unloaded_on_bad_data() {
    let mut level = LevelCollision::new();
    let source = vec![true];
    assert!(!level.build_once(2, 2, 16_000, 16_000, &source));
    assert!(matches!(level, LevelCollision::Unloaded));
}
