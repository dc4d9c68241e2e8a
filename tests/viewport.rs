use titan::action::{GameAction, PlayerAction, WindowPanel};
use titan::board::{Block, Vertex};
use titan::game::{GameState, PlayerMode};
use titan::projection::{WorldPoint, INVERSE_DENOM};
use titan::structure::{Direction, Structure};
use titan::viewport::{Viewport, ViewportPoint};

fn viewport() -> Viewport {
    Viewport::new(800, 600, 160)
}

#[test]
fn focal_point_lands_at_viewport_centre() {
    let game = GameState::new();
    let vp = viewport();
    let p = vp.compute_viewport_point(&game, WorldPoint { x: 10, y: 20, h: 1 });
    assert_eq!(p, ViewportPoint { x: 400, y: 300 });
    assert_eq!(vp.compute_viewport_point(&game, WorldPoint { x: 11, y: 20, h: 1 }), ViewportPoint { x: 427, y: 313 });
    assert_eq!(vp.compute_viewport_point(&game, WorldPoint { x: 10, y: 21, h: 0 }), ViewportPoint { x: 373, y: 323 });
    assert_eq!(vp.compute_viewport_point(&game, WorldPoint { x: 0, y: 0, h: 0 }), ViewportPoint { x: 669, y: -87 });
    assert_eq!(vp.to_window(p), (560, 300));
}

#[test]
fn block_under_cursor_exact_blocks() {
    let game = GameState::new();
    let vp = viewport();
    assert_eq!(vp.get_block_under_cursor(&game, 560, 300), Some(Block { x: 9, y: 19 }));
    assert_eq!(vp.get_block_under_cursor(&game, 560, 600), Some(Block { x: 20, y: 30 }));
    assert_eq!(vp.get_block_under_cursor(&game, 1000, 300), Some(Block { x: 17, y: 11 }));
    assert_eq!(vp.get_block_under_cursor(&game, 160, 300), Some(Block { x: 2, y: 27 }));
}

#[test]
fn block_under_cursor_none_where_world_is_negative() {
    let game = GameState::new();
    let vp = viewport();
    assert_eq!(vp.get_block_under_cursor(&game, 0, 0), None);
    assert_eq!(vp.get_block_under_cursor(&game, 560, 0), None);
    assert_eq!(vp.get_block_under_cursor(&game, i32::MIN, i32::MIN), None);
}

#[test]
fn block_under_cursor_follows_the_focal_point() {
    let mut game = GameState::new();
    let vp = viewport();
    game.focal_point = Vertex { x: 50, y: 50 };
    assert_eq!(vp.get_block_under_cursor(&game, 560, 300), Some(Block { x: 49, y: 49 }));
}

#[test]
fn visible_region_spans_the_corners() {
    let game = GameState::new();
    let vp = viewport();
    let r = vp.visible_region(&game);
    assert_eq!(r.min_x_num, -21751650000);
    assert_eq!(r.max_x_num, 67418350000);
    assert_eq!(r.min_y_num, 2017190000);
    assert_eq!(r.max_y_num, 91187190000);
    assert!(r.contains(10, 20));
    assert!(!r.contains(10, 0));
    assert!(!r.contains(40, 20));
    assert!(r.min_x_num < 0 && INVERSE_DENOM > 0);
}

#[test]
fn clicks_follow_the_active_tool() {
    let mut game = GameState::new();
    let vp = viewport();
    assert_eq!(vp.left_click_action(&game), Some(GameAction::PlaceStructure));
    assert_eq!(vp.right_click_action(&game), None);
    game.player_mode = PlayerMode::Focus;
    assert_eq!(vp.left_click_action(&game), Some(GameAction::Focus));
    assert_eq!(vp.right_click_action(&game), None);
    game.player_mode = PlayerMode::RaiseLower { radius: 0 };
    assert_eq!(vp.left_click_action(&game), Some(GameAction::RaiseTerrain));
    assert_eq!(vp.right_click_action(&game), Some(GameAction::LowerTerrain));
    assert_eq!(vp.spacebar_action(&game), Some(GameAction::RotateStructure));
}

#[test]
fn viewport_maps_tagged_actions() {
    let mut game = GameState::new();
    game.player_mode = PlayerMode::PlaceStructure { structure: Structure::Forest, orientation: Direction::West };
    let vp = viewport();
    assert_eq!(
        vp.map_player_action(&game, PlayerAction::CursorMove { panel: WindowPanel::Viewport, x: 560, y: 300 }),
        Some(GameAction::Hover { block: Some(Block { x: 9, y: 19 }) })
    );
    assert_eq!(
        vp.cursor_move_action(&game, 0, 0),
        Some(GameAction::Hover { block: None })
    );
    assert_eq!(
        vp.map_player_action(&game, PlayerAction::WindowLeftClick { panel: WindowPanel::Viewport, x: 1, y: 1 }),
        Some(GameAction::PlaceStructure)
    );
    assert_eq!(
        vp.map_player_action(&game, PlayerAction::WindowRightClick { panel: WindowPanel::Viewport, x: 1, y: 1 }),
        None
    );
    assert_eq!(vp.map_player_action(&game, PlayerAction::PressSpace), Some(GameAction::RotateStructure));
}

#[test]
fn vertices_and_block_outlines_in_window_pixels() {
    let game = GameState::new();
    let vp = viewport();
    assert_eq!(vp.vertex_window_point(&game, 10, 20), (560, 300));
    assert_eq!(vp.vertex_window_point(&game, 7, 4), (909, 28));
    assert_eq!(vp.vertex_window_point(&game, -1, -1), (829, -113));
    assert_eq!(vp.vertex_window_point(&game, 101, 0), (3547, 1251));
    assert_eq!(vp.block_outline(&game, 10, 20), [(560, 300), (533, 313), (560, 327), (587, 313)]);
}
