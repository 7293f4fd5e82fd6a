use robofill::grid::Board;
use robofill::grid::GridCoordinate;
use robofill::grid::GridDirection;
use robofill::grid::WorldPoint;

fn board_12() -> Board {
    Board::new(12, 12, 30_000, WorldPoint { x: 0, y: 0 })
}

fn c(col: u32, row: u32) -> GridCoordinate {
    GridCoordinate { col, row }
}

#[test]
fn neighbour_interior_all_directions() {
    let b = board_12();
    assert_eq!(
        b.get_neighbour(c(5, 5), GridDirection::DirectionNorth),
        Some(c(5, 4))
    );
    assert_eq!(
        b.get_neighbour(c(5, 5), GridDirection::DirectionSouth),
        Some(c(5, 6))
    );
    assert_eq!(
        b.get_neighbour(c(5, 5), GridDirection::DirectionEast),
        Some(c(6, 5))
    );
    assert_eq!(
        b.get_neighbour(c(5, 5), GridDirection::DirectionWest),
        Some(c(4, 5))
    );
}

#[test]
fn neighbour_boundary_rejection() {
    let b = board_12();
    for y in 0..12 {
        assert_eq!(b.get_neighbour(c(0, y), GridDirection::DirectionWest), None);
        assert_eq!(b.get_neighbour(c(11, y), GridDirection::DirectionEast), None);
        assert_eq!(b.get_neighbour(c(y, 0), GridDirection::DirectionNorth), None);
        assert_eq!(b.get_neighbour(c(y, 11), GridDirection::DirectionSouth), None);
    }
}

#[test]
fn neighbour_next_to_boundary() {
    let b = board_12();
    assert_eq!(
        b.get_neighbour(c(1, 5), GridDirection::DirectionWest),
        Some(c(0, 5))
    );
    assert_eq!(
        b.get_neighbour(c(10, 5), GridDirection::DirectionEast),
        Some(c(11, 5))
    );
    assert_eq!(
        b.get_neighbour(c(5, 1), GridDirection::DirectionNorth),
        Some(c(5, 0))
    );
    assert_eq!(
        b.get_neighbour(c(5, 10), GridDirection::DirectionSouth),
        Some(c(5, 11))
    );
}

#[test]
fn roundtrip_center_addressing() {
    let b = board_12();
    for col in 0..12 {
        for row in 0..12 {
            let center = b.get_tile_center_world_coordinate(c(col, row));
            assert_eq!(b.get_tile_coordinates(center), c(col, row));
        }
    }
}

#[test]
fn roundtrip_center_addressing_offset_origin() {
    let b = Board::new(7, 9, 12_345, WorldPoint { x: 400_000, y: 55 });
    for col in 0..7 {
        for row in 0..9 {
            let center = b.get_tile_center_world_coordinate(c(col, row));
            assert_eq!(b.get_tile_coordinates(center), c(col, row));
        }
    }
}

#[test]
fn tile_center_values() {
    let b = board_12();
    assert_eq!(
        b.get_tile_center_world_coordinate(c(0, 0)),
        WorldPoint { x: 15_000, y: 15_000 }
    );
    assert_eq!(
        b.get_tile_center_world_coordinate(c(2, 1)),
        WorldPoint { x: 75_000, y: 45_000 }
    );
}

#[test]
fn world_to_grid_floor() {
    let b = board_12();
    assert_eq!(b.get_tile_coordinates(WorldPoint { x: 0, y: 0 }), c(0, 0));
    assert_eq!(
        b.get_tile_coordinates(WorldPoint { x: 29_999, y: 30_000 }),
        c(0, 1)
    );
    assert_eq!(
        b.get_tile_coordinates(WorldPoint { x: 30_000, y: 59_999 }),
        c(1, 1)
    );
}

#[test]
fn board_tile_pattern() {
    // A 4 by 3 board: rows 0 and 2 and columns 0 and 3 carry the boundary
    // sprite and are not walkable; the two remaining tiles are plain.
    let b = Board::new(4, 3, 1_000, WorldPoint { x: 0, y: 0 });
    for col in 0..4 {
        for row in 0..3 {
            let tile = b.get_tile(c(col, row));
            let boundary = row % 2 == 0 || col == 0 || col == 3;
            assert_eq!(tile.get_tile_type(), if boundary { 1 } else { 0 });
            assert_eq!(tile.is_walkable(), !boundary);
        }
    }
}

#[test]
fn board_tile_pattern_12() {
    let b = board_12();
    assert_eq!(b.get_tile(c(5, 5)).get_tile_type(), 0);
    assert!(b.get_tile(c(5, 5)).is_walkable());
    assert_eq!(b.get_tile(c(5, 0)).get_tile_type(), 1);
    assert_eq!(b.get_tile(c(5, 11)).get_tile_type(), 1);
    assert_eq!(b.get_tile(c(0, 5)).get_tile_type(), 1);
    assert_eq!(b.get_tile(c(11, 5)).get_tile_type(), 1);
    assert!(!b.get_tile(c(0, 5)).is_walkable());
}

#[test]
fn render_geometry_projection() {
    let b = Board::new(4, 3, 1_000, WorldPoint { x: 0, y: 0 });
    let geometry = b.render_geometry();
    assert_eq!(geometry.len(), 12);
    for col in 0..4u32 {
        for row in 0..3u32 {
            let idx = (row * 4 + col) as usize;
            let (center, tile) = geometry[idx];
            assert_eq!(center, b.get_tile_center_world_coordinate(c(col, row)));
            assert_eq!(tile, b.get_tile(c(col, row)));
        }
    }
}
