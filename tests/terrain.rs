use titan::board::{Board, Vertex, BOARD_HEIGHT, BOARD_WIDTH};
use titan::terrain::{lower_vertex, raise_vertex, TerrainError};

fn v(x: u32, y: u32) -> Vertex {
    Vertex { x, y }
}

fn heights(board: &Board) -> Vec<u8> {
    let mut out = Vec::new();
    for y in 0..=BOARD_HEIGHT {
        for x in 0..=BOARD_WIDTH {
            out.push(board.vertex_height(v(x, y)));
        }
    }
    out
}

fn changed(before: &[u8], board: &Board) -> Vec<(u32, u32, u8, u8)> {
    let after = heights(board);
    let mut out = Vec::new();
    for y in 0..=BOARD_HEIGHT {
        for x in 0..=BOARD_WIDTH {
            let i = (y * (BOARD_WIDTH + 1) + x) as usize;
            if before[i] != after[i] {
                out.push((x, y, before[i], after[i]));
            }
        }
    }
    out
}

fn assert_smooth(board: &Board) {
    for y in 0..=BOARD_HEIGHT {
        for x in 0..=BOARD_WIDTH {
            let h = board.vertex_height(v(x, y)) as i32;
            assert!((0..=6).contains(&h));
            for (dx, dy) in [(1i32, 0i32), (0, 1), (1, 1), (1, -1)] {
                let nx = x as i32 + dx;
                let ny = y as i32 + dy;
                if nx <= BOARD_WIDTH as i32 && ny >= 0 && ny <= BOARD_HEIGHT as i32 {
                    let n = board.vertex_height(v(nx as u32, ny as u32)) as i32;
                    assert!((h - n).abs() <= 1);
                }
            }
        }
    }
}

#[test]
fn raise_with_no_lower_neighbour_changes_only_the_vertex() {
    let mut board = Board::new();
    let before = heights(&board);
    assert_eq!(raise_vertex(&mut board, v(2, 2)), Ok(()));
    assert_eq!(changed(&before, &board), vec![(2, 2, 1, 2)]);
}

#[test]
fn raise_next_to_the_perimeter_fails_without_change() {
    let mut board = Board::new();
    let before = heights(&board);
    assert_eq!(raise_vertex(&mut board, v(1, 1)), Err(TerrainError::ImmutableEdge));
    assert!(changed(&before, &board).is_empty());
}

#[test]
fn lower_on_perimeter_fails_and_changes_nothing() {
    let mut board = Board::new();
    let before = heights(&board);
    assert_eq!(lower_vertex(&mut board, v(0, 5)), Err(TerrainError::ImmutableEdge));
    assert!(changed(&before, &board).is_empty());
    board.set_vertex_height(v(0, 5), 1);
    let before = heights(&board);
    assert_eq!(lower_vertex(&mut board, v(0, 5)), Err(TerrainError::ImmutableEdge));
    assert!(changed(&before, &board).is_empty());
}

#[test]
fn raise_on_perimeter_is_refused() {
    let mut board = Board::new();
    let before = heights(&board);
    assert_eq!(raise_vertex(&mut board, v(100, 40)), Err(TerrainError::ImmutableEdge));
    assert_eq!(raise_vertex(&mut board, v(40, 0)), Err(TerrainError::ImmutableEdge));
    assert!(changed(&before, &board).is_empty());
}

#[test]
fn raise_at_max_height_is_refused() {
    let mut board = Board::new();
    board.set_vertex_height(v(50, 50), 6);
    let before = heights(&board);
    assert_eq!(raise_vertex(&mut board, v(50, 50)), Err(TerrainError::AtMaxHeight));
    assert!(changed(&before, &board).is_empty());
}

#[test]
fn lower_at_min_height_is_refused() {
    let mut board = Board::new();
    board.set_vertex_height(v(50, 50), 0);
    let before = heights(&board);
    assert_eq!(lower_vertex(&mut board, v(50, 50)), Err(TerrainError::AtMinHeight));
    assert!(changed(&before, &board).is_empty());
}

#[test]
fn second_raise_pulls_the_ring_of_neighbours_up() {
    let mut board = Board::new();
    assert_eq!(raise_vertex(&mut board, v(50, 50)), Ok(()));
    let before = heights(&board);
    assert_eq!(raise_vertex(&mut board, v(50, 50)), Ok(()));
    assert_eq!(
        changed(&before, &board),
        vec![
            (49, 49, 1, 2),
            (50, 49, 1, 2),
            (51, 49, 1, 2),
            (49, 50, 1, 2),
            (50, 50, 2, 3),
            (51, 50, 1, 2),
            (49, 51, 1, 2),
            (50, 51, 1, 2),
            (51, 51, 1, 2),
        ]
    );
    let top = board.vertex_height(v(50, 50));
    for y in 49..=51 {
        for x in 49..=51 {
            if (x, y) != (50, 50) {
                assert!(board.vertex_height(v(x, y)) >= top - 1);
            }
        }
    }
    assert_smooth(&board);
}

#[test]
fn lower_pulls_higher_neighbours_down_first() {
    let mut board = Board::new();
    let before = heights(&board);
    assert_eq!(lower_vertex(&mut board, v(7, 4)), Ok(()));
    assert_eq!(changed(&before, &board), vec![(7, 4, 3, 2)]);
    let before = heights(&board);
    assert_eq!(lower_vertex(&mut board, v(7, 4)), Ok(()));
    assert_eq!(changed(&before, &board), vec![(7, 4, 2, 1), (8, 4, 3, 2), (7, 5, 3, 2), (8, 5, 3, 2)]);
    let bottom = board.vertex_height(v(7, 4));
    for y in 3..=5 {
        for x in 6..=8 {
            assert!(board.vertex_height(v(x, y)) <= bottom + 1);
        }
    }
    assert_smooth(&board);
}

#[test]
fn failed_raise_keeps_completed_steps() {
    let mut board = Board::new();
    assert_eq!(raise_vertex(&mut board, v(98, 50)), Ok(()));
    let before = heights(&board);
    assert_eq!(raise_vertex(&mut board, v(98, 50)), Err(TerrainError::ImmutableEdge));
    assert_eq!(changed(&before, &board), vec![(97, 49, 1, 2), (98, 49, 1, 2)]);
    assert_eq!(board.vertex_height(v(98, 50)), 2);
    assert_smooth(&board);
}

#[test]
fn repeated_sculpting_keeps_heights_in_range_and_smooth() {
    let mut board = Board::new();
    for _ in 0..8 {
        let _ = raise_vertex(&mut board, v(50, 50));
        let _ = raise_vertex(&mut board, v(52, 47));
    }
    assert_eq!(board.vertex_height(v(50, 50)), 6);
    for _ in 0..8 {
        let _ = lower_vertex(&mut board, v(51, 49));
    }
    assert_eq!(board.vertex_height(v(51, 49)), 0);
    assert_smooth(&board);
}

#[test]
fn raise_succeeds_until_the_cone_reaches_the_perimeter() {
    let mut board = Board::new();
    assert_eq!(raise_vertex(&mut board, v(3, 3)), Ok(()));
    assert_eq!(raise_vertex(&mut board, v(3, 3)), Ok(()));
    assert_eq!(board.vertex_height(v(3, 3)), 3);
    assert_eq!(board.vertex_height(v(2, 2)), 2);
    let before = heights(&board);
    assert_eq!(raise_vertex(&mut board, v(3, 3)), Err(TerrainError::ImmutableEdge));
    assert!(changed(&before, &board).is_empty());
    assert_eq!(board.vertex_height(v(0, 0)), 0);
}

#[test]
fn lower_on_every_side_of_the_perimeter_is_refused() {
    let mut board = Board::new();
    let before = heights(&board);
    for &(x, y) in &[(0, 0), (0, 5), (5, 0), (100, 7), (7, 100), (100, 100)] {
        assert_eq!(lower_vertex(&mut board, v(x, y)), Err(TerrainError::ImmutableEdge));
    }
    assert!(changed(&before, &board).is_empty());
}

#[test]
fn successful_raise_lifts_exactly_the_least_cone() {
    let mut board = Board::new();
    assert_eq!(raise_vertex(&mut board, v(50, 50)), Ok(()));
    assert_eq!(raise_vertex(&mut board, v(50, 50)), Ok(()));
    let before = heights(&board);
    assert_eq!(raise_vertex(&mut board, v(50, 50)), Ok(()));
    let p = 3i32;
    for y in 0..=BOARD_HEIGHT {
        for x in 0..=BOARD_WIDTH {
            let i = (y * (BOARD_WIDTH + 1) + x) as usize;
            let cheb = (x as i32 - 50).abs().max((y as i32 - 50).abs());
            let expected = (before[i] as i32).max(p + 1 - cheb);
            assert_eq!(board.vertex_height(v(x, y)) as i32, expected);
        }
    }
}

#[test]
fn successful_lower_cuts_exactly_the_least_funnel() {
    let mut board = Board::new();
    for _ in 0..3 {
        assert_eq!(raise_vertex(&mut board, v(50, 50)), Ok(()));
    }
    let before = heights(&board);
    assert_eq!(lower_vertex(&mut board, v(51, 50)), Ok(()));
    let p = 3i32;
    for y in 0..=BOARD_HEIGHT {
        for x in 0..=BOARD_WIDTH {
            let i = (y * (BOARD_WIDTH + 1) + x) as usize;
            let cheb = (x as i32 - 51).abs().max((y as i32 - 50).abs());
            let expected = (before[i] as i32).min(p - 1 + cheb);
            assert_eq!(board.vertex_height(v(x, y)) as i32, expected);
        }
    }
}
