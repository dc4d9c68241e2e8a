use titan::board::{Block, Board, LandType, PlacementError, Vertex, BOARD_HEIGHT, BOARD_WIDTH};
use titan::structure::{Direction, Mineral, Structure, StructurePlacement};

fn v(x: u32, y: u32) -> Vertex {
    Vertex { x, y }
}

#[test]
fn fresh_board_has_seeded_heights() {
    let board = Board::new();
    assert_eq!(board.width(), 100);
    assert_eq!(board.height(), 100);
    assert_eq!(board.vertex_height(v(0, 0)), 0);
    assert_eq!(board.vertex_height(v(0, 5)), 0);
    assert_eq!(board.vertex_height(v(100, 100)), 0);
    assert_eq!(board.vertex_height(v(100, 50)), 0);
    assert_eq!(board.vertex_height(v(1, 1)), 1);
    assert_eq!(board.vertex_height(v(99, 99)), 1);
    assert_eq!(board.vertex_height(v(5, 3)), 2);
    assert_eq!(board.vertex_height(v(9, 6)), 2);
    assert_eq!(board.vertex_height(v(7, 4)), 3);
    assert_eq!(board.vertex_height(v(8, 5)), 3);
    assert_eq!(board.vertex_height(v(10, 6)), 1);
}

#[test]
fn fresh_board_heights_stay_in_range_and_smooth() {
    let board = Board::new();
    for y in 0..=BOARD_HEIGHT {
        for x in 0..=BOARD_WIDTH {
            let h = board.vertex_height(v(x, y));
            assert!(h <= 6);
            if x < BOARD_WIDTH {
                let d = h as i32 - board.vertex_height(v(x + 1, y)) as i32;
                assert!(d.abs() <= 1);
            }
            if y < BOARD_HEIGHT {
                let d = h as i32 - board.vertex_height(v(x, y + 1)) as i32;
                assert!(d.abs() <= 1);
            }
        }
    }
}

#[test]
fn vertex_on_board_includes_far_corner() {
    let board = Board::new();
    assert!(board.vertex_on_board(v(100, 100)));
    assert!(board.vertex_on_board(v(0, 0)));
    assert!(!board.vertex_on_board(v(101, 0)));
    assert!(!board.vertex_on_board(v(0, 101)));
}

#[test]
fn edge_rule_marks_the_whole_perimeter() {
    assert!(v(0, 5).is_edge_vertex());
    assert!(v(5, 0).is_edge_vertex());
    assert!(v(100, 5).is_edge_vertex());
    assert!(v(5, 100).is_edge_vertex());
    assert!(v(101, 5).is_edge_vertex());
    assert!(!v(1, 1).is_edge_vertex());
    assert!(!v(99, 99).is_edge_vertex());
}

#[test]
fn set_vertex_height_writes_one_vertex() {
    let mut board = Board::new();
    board.set_vertex_height(v(50, 50), 4);
    assert_eq!(board.vertex_height(v(50, 50)), 4);
    assert_eq!(board.vertex_height(v(51, 50)), 1);
    assert_eq!(board.vertex_height(v(50, 51)), 1);
}

#[test]
fn block_land_type_water_only_when_all_corners_at_water_level() {
    let mut board = Board::new();
    assert_eq!(board.block_land_type(0, 0), LandType::Land);
    assert_eq!(board.block_land_type(50, 50), LandType::Land);
    board.set_vertex_height(v(1, 1), 0);
    assert_eq!(board.block_land_type(0, 0), LandType::Water);
    assert_eq!(board.block_land_type(1, 1), LandType::Land);
    board.set_vertex_height(v(100, 99), 2);
    assert_eq!(board.block_land_type(99, 99), LandType::Land);
}

#[test]
fn structure_catalog_sizes() {
    assert_eq!(Structure::Forest.size(), (1, 1));
    assert_eq!(Structure::TrainStation.size(), (4, 2));
    assert_eq!(Structure::TrainPlatform.size(), (4, 1));
    assert_eq!(Structure::SportsStadium.size(), (2, 3));
    assert_eq!(Structure::AmusementPark.size(), (5, 5));
    assert_eq!(Structure::Mine { mineral: Mineral::Gold }.size(), (2, 2));
}

#[test]
fn placement_footprint_swaps_when_turned() {
    let origin = Block { x: 0, y: 0 };
    let north = StructurePlacement { structure: Structure::TrainStation, orientation: Direction::North, origin };
    let east = StructurePlacement { structure: Structure::TrainStation, orientation: Direction::East, origin };
    let west = StructurePlacement { structure: Structure::TrainStation, orientation: Direction::West, origin };
    assert_eq!((north.width(), north.height()), (4, 2));
    assert_eq!((east.width(), east.height()), (2, 4));
    assert_eq!((west.width(), west.height()), (2, 4));
}

#[test]
fn place_train_station_east_marks_eight_blocks() {
    let mut board = Board::new();
    assert_eq!(board.place_structure(Structure::TrainStation, Direction::East, Block { x: 10, y: 10 }), Ok(()));
    let mut marked = 0;
    for y in 5..20 {
        for x in 5..20 {
            let inside = (10..=11).contains(&x) && (10..=13).contains(&y);
            let found = board.block_structure_type(Block { x, y });
            if inside {
                assert_eq!(found, Some(Structure::TrainStation));
                marked += 1;
            } else {
                assert_eq!(found, None);
            }
        }
    }
    assert_eq!(marked, 8);
}

#[test]
fn place_rejects_collision_and_keeps_occupant() {
    let mut board = Board::new();
    assert_eq!(board.place_structure(Structure::TrainStation, Direction::East, Block { x: 10, y: 10 }), Ok(()));
    assert_eq!(
        board.place_structure(Structure::Forest, Direction::North, Block { x: 11, y: 13 }),
        Err(PlacementError::Collision)
    );
    assert_eq!(board.block_structure_type(Block { x: 11, y: 13 }), Some(Structure::TrainStation));
    assert_eq!(
        board.place_structure(Structure::TennisCourt, Direction::North, Block { x: 9, y: 9 }),
        Err(PlacementError::Collision)
    );
    assert_eq!(board.block_structure_type(Block { x: 9, y: 9 }), None);
    assert_eq!(board.place_structure(Structure::Forest, Direction::North, Block { x: 12, y: 13 }), Ok(()));
    assert_eq!(board.block_structure_type(Block { x: 12, y: 13 }), Some(Structure::Forest));
}

#[test]
fn place_rejects_footprint_off_the_board() {
    let mut board = Board::new();
    assert_eq!(
        board.place_structure(Structure::TrainStation, Direction::North, Block { x: 97, y: 0 }),
        Err(PlacementError::OutOfBounds)
    );
    assert_eq!(
        board.place_structure(Structure::TrainStation, Direction::East, Block { x: 0, y: 97 }),
        Err(PlacementError::OutOfBounds)
    );
    assert_eq!(
        board.place_structure(Structure::Forest, Direction::North, Block { x: 100, y: 0 }),
        Err(PlacementError::OutOfBounds)
    );
    assert_eq!(board.block_structure_type(Block { x: 97, y: 0 }), None);
    assert_eq!(board.place_structure(Structure::TrainStation, Direction::North, Block { x: 96, y: 98 }), Ok(()));
    assert_eq!(board.block_structure_type(Block { x: 99, y: 99 }), Some(Structure::TrainStation));
}

#[test]
fn vertex_and_block_convert_coordinate_for_coordinate() {
    let b = Block::from(v(3, 4));
    assert_eq!(b, Block { x: 3, y: 4 });
    assert_eq!(Vertex::from(b), v(3, 4));
}
