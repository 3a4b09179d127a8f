use game_core::units::Vec2;
use game_core::world::{
    capsule_dims, find_player_spawn, player_spawn_position, str_eq, tiled_to_world_position,
    LevelObject, SpawnError,
};

#[test]
fn tiled_y_is_measured_from_the_bottom() {
    let p = tiled_to_world_position(Vec2::new(32_000, 48_000), 160_000);
    assert_eq!((p.x, p.y), (32_000, 112_000));
}

#[test]
fn spawn_offsets_by_half_the_player_size() {
    // A 13x38-pixel character spawned from an object at (32, 48) on a map
    // 160 pixels tall.
    let p = player_spawn_position(Vec2::new(32_000, 48_000), 160_000, Vec2::new(13_000, 38_000));
    assert_eq!((p.x, p.y), (38_500, 131_000));
}

#[test]
fn capsule_fits_the_player_box() {
    let (half_height, radius) = capsule_dims(Vec2::new(13_000, 38_000));
    assert_eq!(radius, 6500);
    assert_eq!(half_height, 12_500);
}

#[test]
fn capsule_dims_never_collapse() {
    // A degenerate size still yields at least a pixel each.
    let (half_height, radius) = capsule_dims(Vec2::new(500, 600));
    assert_eq!(radius, 1000);
    assert_eq!(half_height, 1000);
}

#[test]
fn finds_the_first_matching_object() {
    let objects = vec![
        LevelObject { name: "Door".to_string(), x: 0, y: 0 },
        LevelObject { name: "Player Position".to_string(), x: 32_000, y: 48_000 },
        LevelObject { name: "Player Position".to_string(), x: 999_000, y: 999_000 },
    ];
    let r = find_player_spawn(&objects, "Player Position", 160_000, Vec2::new(13_000, 38_000));
    assert_eq!(r.map(|p| (p.x, p.y)), Ok((38_500, 131_000)));
}

#[test]
fn missing_spawn_object_is_fatal() {
    let objects = vec![LevelObject { name: "Door".to_string(), x: 0, y: 0 }];
    let r = find_player_spawn(&objects, "Player Position", 160_000, Vec2::new(13_000, 38_000));
    assert_eq!(r, Err(SpawnError::MissingPlayerObject));
    assert_eq!(SpawnError::MissingPlayerObject.message(), "Player Data not found");
}

#[test]
fn string_equality_over_views() {
    assert!(str_eq("Player Position", "Player Position"));
    assert!(!str_eq("Player", "Player Position"));
    assert!(!str_eq("player position", "Player Position"));
}
