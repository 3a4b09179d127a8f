use game_core::colliders::{
    build_tile_colliders, centroid, object_collider, polygon_world_points, world_center_for_rect,
    ColliderShape, StaticCollider, TileCell, TileGrid, TileObject, TileShape,
};
use game_core::units::Vec2;

#[test]
fn shape_reports_rect_dimensions_only() {
    let rect = TileShape::Rect { width: 16_000, height: 8000 };
    assert_eq!(rect.get_width(), 16_000);
    assert_eq!(rect.get_height(), 8000);
    let ball = TileShape::Ellipse { width: 16_000, height: 8000 };
    assert_eq!(ball.get_width(), 0);
    assert_eq!(ball.get_height(), 0);
}

#[test]
fn rect_world_center() {
    // Source tile (2, 1) on a 4-row grid of 16x16-pixel tiles; the shape
    // spans the full tile at zero offset.
    let c = world_center_for_rect(2, 1, 16_000, 8000, 0, 0, 16_000, 16_000, 4);
    assert_eq!(c.0, 40_000);
    assert_eq!(c.1, 44_000);
}

#[test]
fn polygon_points_to_world_space() {
    let pts = vec![Vec2::new(0, 0), Vec2::new(16_000, 0), Vec2::new(0, 16_000)];
    let world = polygon_world_points(0, 3, &pts, 0, 0, 16_000, 16_000, 4);
    assert_eq!(world.len(), 3);
    assert_eq!((world[0].x, world[0].y), (0, 16_000));
    assert_eq!((world[1].x, world[1].y), (16_000, 16_000));
    assert_eq!((world[2].x, world[2].y), (0, 0));
}

#[test]
fn centroid_is_the_truncating_mean() {
    let pts = vec![Vec2::new(0, 16_000), Vec2::new(16_000, 16_000), Vec2::new(0, 0)];
    let c = centroid(&pts);
    assert_eq!(c.x, 5333);
    assert_eq!(c.y, 10_666);
    let none: Vec<Vec2> = vec![];
    let z = centroid(&none);
    assert_eq!((z.x, z.y), (0, 0));
}

#[test]
fn rect_object_becomes_a_cuboid() {
    let obj = TileObject {
        shape: TileShape::Rect { width: 16_000, height: 8000 },
        offset_x: 0,
        offset_y: 0,
    };
    let c = object_collider(&obj, 2, 1, 16_000, 16_000, 4).unwrap();
    match c.shape {
        ColliderShape::Cuboid { half_x, half_y } => {
            assert_eq!(half_x, 8000);
            assert_eq!(half_y, 4000);
        },
        _ => panic!("expected a cuboid"),
    }
    assert_eq!((c.x, c.y), (40_000, 44_000));
}

#[test]
fn ellipse_object_becomes_a_ball_of_the_smaller_radius() {
    let obj = TileObject {
        shape: TileShape::Ellipse { width: 8000, height: 16_000 },
        offset_x: 0,
        offset_y: 0,
    };
    let c = object_collider(&obj, 0, 0, 16_000, 16_000, 1).unwrap();
    match c.shape {
        ColliderShape::Ball { radius } => assert_eq!(radius, 4000),
        _ => panic!("expected a ball"),
    }
}

#[test]
fn polygon_is_recentered_about_its_centroid() {
    let obj = TileObject {
        shape: TileShape::Polygon {
            points: vec![Vec2::new(0, 0), Vec2::new(16_000, 0), Vec2::new(0, 16_000)],
        },
        offset_x: 0,
        offset_y: 0,
    };
    let c = object_collider(&obj, 0, 3, 16_000, 16_000, 4).unwrap();
    assert_eq!((c.x, c.y), (5333, 10_666));
    match c.shape {
        ColliderShape::ConvexHull { points } => {
            assert_eq!(points.len(), 3);
            assert_eq!((points[0].x, points[0].y), (-5333, 5334));
            assert_eq!((points[1].x, points[1].y), (10_667, 5334));
            assert_eq!((points[2].x, points[2].y), (-5333, -10_666));
        },
        _ => panic!("expected a convex hull"),
    }
}

#[test]
fn degenerate_polygon_is_skipped() {
    let obj = TileObject {
        shape: TileShape::Polygon { points: vec![Vec2::new(0, 0), Vec2::new(16_000, 0)] },
        offset_x: 0,
        offset_y: 0,
    };
    assert!(object_collider(&obj, 0, 0, 16_000, 16_000, 1).is_none());
}

#[test]
fn polyline_needs_two_points() {
    let two = TileObject {
        shape: TileShape::Polyline { points: vec![Vec2::new(0, 0), Vec2::new(16_000, 0)] },
        offset_x: 0,
        offset_y: 0,
    };
    let c = object_collider(&two, 0, 0, 16_000, 16_000, 1).unwrap();
    assert!(matches!(c.shape, ColliderShape::Polyline { .. }));

    let one = TileObject {
        shape: TileShape::Polyline { points: vec![Vec2::new(0, 0)] },
        offset_x: 0,
        offset_y: 0,
    };
    assert!(object_collider(&one, 0, 0, 16_000, 16_000, 1).is_none());
}

fn one_tile_grid(objects: Vec<TileObject>) -> TileGrid {
    // 2x2 grid; only the cell at column 0, source row 1 (bitmap row 0)
    // holds a tile.
    let mut cells = Vec::new();
    for _ in 0..4 {
        cells.push(TileCell { present: false, objects: Vec::new() });
    }
    cells[2] = TileCell { present: true, objects };
    TileGrid { width: 2, height: 2, tile_width: 16_000, tile_height: 16_000, cells }
}

#[test]
fn collision_layer_tile_without_shapes_gets_a_tile_box() {
    let g = one_tile_grid(Vec::new());
    let out: Vec<StaticCollider> = build_tile_colliders(&g, true);
    assert_eq!(out.len(), 1);
    match out[0].shape {
        ColliderShape::Cuboid { half_x, half_y } => {
            assert_eq!(half_x, 8000);
            assert_eq!(half_y, 8000);
        },
        _ => panic!("expected a cuboid"),
    }
    assert_eq!((out[0].x, out[0].y), (8000, 8000));
}

#[test]
fn plain_layer_tile_without_shapes_gets_nothing() {
    let g = one_tile_grid(Vec::new());
    let out = build_tile_colliders(&g, false);
    assert_eq!(out.len(), 0);
}

#[test]
fn shaped_tile_suppresses_the_fallback_box() {
    let g = one_tile_grid(vec![TileObject {
        shape: TileShape::Rect { width: 16_000, height: 16_000 },
        offset_x: 0,
        offset_y: 0,
    }]);
    let out = build_tile_colliders(&g, true);
    assert_eq!(out.len(), 1);
    match out[0].shape {
        ColliderShape::Cuboid { half_x, half_y } => {
            assert_eq!(half_x, 8000);
            assert_eq!(half_y, 8000);
        },
        _ => panic!("expected a cuboid"),
    }
    // The shape collider sits at the tile's world center.
    assert_eq!((out[0].x, out[0].y), (8000, 8000));
}

#[test]
fn degenerate_shapes_still_fall_back_on_the_collision_layer() {
    let g = one_tile_grid(vec![TileObject {
        shape: TileShape::Polygon { points: vec![Vec2::new(0, 0)] },
        offset_x: 0,
        offset_y: 0,
    }]);
    let out = build_tile_colliders(&g, true);
    assert_eq!(out.len(), 1);
    assert!(matches!(out[0].shape, ColliderShape::Cuboid { .. }));
}
