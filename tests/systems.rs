use titan::action::GameAction;
use titan::board::{Block, PlacementError, Vertex};
use titan::game::{GameState, PlayerMode, SelectionMode};
use titan::menu::{Building, BuyBuildingScreenState, Category, SidebarMenu};
use titan::structure::{Direction, Structure};
use titan::systems::{
    apply, apply_display_building_screen, apply_focus, apply_hover, apply_lower_terrain, apply_open_menu,
    apply_place_structure, apply_raise_terrain, apply_rotate_structure, apply_sidebar_hover, ActionError,
};
use titan::terrain::TerrainError;

#[test]
fn new_game_starts_on_forest_placement() {
    let game = GameState::new();
    assert_eq!(game.focal_point, Vertex { x: 10, y: 20 });
    assert_eq!(
        game.player_mode,
        PlayerMode::PlaceStructure { structure: Structure::Forest, orientation: Direction::North }
    );
    assert_eq!(game.highlighted_block, None);
    assert_eq!(game.highlighted_button, None);
    assert_eq!(game.open_menu, None);
    assert_eq!(game.buy_building_screen, BuyBuildingScreenState::Hidden);
    assert_eq!(game.selection_mode(), SelectionMode::Blocks { w: 1, h: 1 });
}

#[test]
fn selection_mode_per_tool() {
    let mut game = GameState::new();
    game.player_mode = PlayerMode::Focus;
    assert_eq!(game.selection_mode(), SelectionMode::Empty);
    game.player_mode = PlayerMode::RaiseLower { radius: 2 };
    assert_eq!(game.selection_mode(), SelectionMode::Vertex { radius: 2 });
    game.player_mode = PlayerMode::PlaceStructure { structure: Structure::TrainStation, orientation: Direction::North };
    assert_eq!(game.selection_mode(), SelectionMode::Blocks { w: 4, h: 2 });
    game.player_mode = PlayerMode::PlaceStructure { structure: Structure::TrainStation, orientation: Direction::East };
    assert_eq!(game.selection_mode(), SelectionMode::Blocks { w: 2, h: 4 });
}

#[test]
fn rotating_four_times_restores_orientation_and_footprint() {
    let mut game = GameState::new();
    game.player_mode = PlayerMode::PlaceStructure { structure: Structure::TrainStation, orientation: Direction::North };
    let start_mode = game.player_mode;
    let start_shape = game.selection_mode();
    let mut seen = Vec::new();
    for _ in 0..4 {
        apply_rotate_structure(&mut game);
        seen.push(game.player_mode);
    }
    assert_eq!(game.player_mode, start_mode);
    assert_eq!(game.selection_mode(), start_shape);
    assert_eq!(
        seen[0],
        PlayerMode::PlaceStructure { structure: Structure::TrainStation, orientation: Direction::East }
    );
    assert_eq!(
        seen[2],
        PlayerMode::PlaceStructure { structure: Structure::TrainStation, orientation: Direction::West }
    );
    assert_eq!(Direction::West.rotate(), Direction::North);
}

#[test]
fn rotate_outside_placement_does_nothing() {
    let mut game = GameState::new();
    game.player_mode = PlayerMode::Focus;
    apply_rotate_structure(&mut game);
    assert_eq!(game.player_mode, PlayerMode::Focus);
}

#[test]
fn hover_switches_highlight_between_board_and_sidebar() {
    let mut game = GameState::new();
    apply_sidebar_hover(&mut game, Some(SidebarMenu::Music));
    assert_eq!(game.highlighted_button, Some(SidebarMenu::Music));
    apply_hover(&mut game, Some(Block { x: 3, y: 4 }));
    assert_eq!(game.highlighted_block, Some(Block { x: 3, y: 4 }));
    assert_eq!(game.highlighted_button, None);
    apply_sidebar_hover(&mut game, Some(SidebarMenu::Help));
    assert_eq!(game.highlighted_block, None);
    assert_eq!(game.highlighted_button, Some(SidebarMenu::Help));
    apply_sidebar_hover(&mut game, None);
    assert_eq!(game.highlighted_button, None);
    apply_hover(&mut game, Some(Block { x: 1, y: 1 }));
    apply_hover(&mut game, None);
    assert_eq!(game.highlighted_block, None);
}

#[test]
fn focus_moves_to_highlighted_block_on_board() {
    let mut game = GameState::new();
    apply_focus(&mut game);
    assert_eq!(game.focal_point, Vertex { x: 10, y: 20 });
    game.highlighted_block = Some(Block { x: 40, y: 60 });
    apply_focus(&mut game);
    assert_eq!(game.focal_point, Vertex { x: 40, y: 60 });
    game.highlighted_block = Some(Block { x: 400, y: 60 });
    apply_focus(&mut game);
    assert_eq!(game.focal_point, Vertex { x: 40, y: 60 });
}

#[test]
fn opening_menus_switches_tools() {
    let mut game = GameState::new();
    apply_open_menu(&mut game, SidebarMenu::Navigation);
    assert_eq!(game.open_menu, Some(SidebarMenu::Navigation));
    assert_eq!(game.player_mode, PlayerMode::Focus);
    apply_open_menu(&mut game, SidebarMenu::Demolish);
    assert_eq!(game.player_mode, PlayerMode::RaiseLower { radius: 0 });
    apply_open_menu(&mut game, SidebarMenu::Music);
    assert_eq!(game.open_menu, Some(SidebarMenu::Music));
    assert_eq!(game.player_mode, PlayerMode::RaiseLower { radius: 0 });
    assert_eq!(game.buy_building_screen, BuyBuildingScreenState::Hidden);
    apply_open_menu(&mut game, SidebarMenu::Building);
    assert_eq!(
        game.buy_building_screen,
        BuyBuildingScreenState::Visible { selected_building: Building::TruckDepot, selected_category: Category::Terminals }
    );
}

#[test]
fn display_building_screen_selects_first_entries() {
    let mut game = GameState::new();
    apply_display_building_screen(&mut game);
    assert_eq!(
        game.buy_building_screen,
        BuyBuildingScreenState::Visible { selected_building: Building::TruckDepot, selected_category: Category::Terminals }
    );
}

#[test]
fn place_structure_uses_tool_and_highlight() {
    let mut game = GameState::new();
    assert_eq!(apply_place_structure(&mut game), Ok(()));
    assert_eq!(game.board.block_structure_type(Block { x: 0, y: 0 }), None);
    game.highlighted_block = Some(Block { x: 5, y: 5 });
    assert_eq!(apply_place_structure(&mut game), Ok(()));
    assert_eq!(game.board.block_structure_type(Block { x: 5, y: 5 }), Some(Structure::Forest));
    assert_eq!(apply_place_structure(&mut game), Err(PlacementError::Collision));
    game.highlighted_block = Some(Block { x: 100, y: 5 });
    assert_eq!(apply_place_structure(&mut game), Err(PlacementError::OutOfBounds));
    game.player_mode = PlayerMode::Focus;
    game.highlighted_block = Some(Block { x: 6, y: 6 });
    assert_eq!(apply_place_structure(&mut game), Ok(()));
    assert_eq!(game.board.block_structure_type(Block { x: 6, y: 6 }), None);
}

#[test]
fn terrain_tools_need_a_target_on_the_board() {
    let mut game = GameState::new();
    assert_eq!(apply_raise_terrain(&mut game), Err(TerrainError::NoTarget));
    assert_eq!(apply_lower_terrain(&mut game), Err(TerrainError::NoTarget));
    game.highlighted_block = Some(Block { x: 101, y: 3 });
    assert_eq!(apply_raise_terrain(&mut game), Err(TerrainError::NoTarget));
    game.highlighted_block = Some(Block { x: 30, y: 30 });
    assert_eq!(apply_raise_terrain(&mut game), Ok(()));
    assert_eq!(game.board.vertex_height(Vertex { x: 30, y: 30 }), 2);
    assert_eq!(apply_lower_terrain(&mut game), Ok(()));
    assert_eq!(apply_lower_terrain(&mut game), Ok(()));
    assert_eq!(game.board.vertex_height(Vertex { x: 30, y: 30 }), 0);
    assert_eq!(apply_lower_terrain(&mut game), Err(TerrainError::AtMinHeight));
}

#[test]
fn apply_dispatches_every_action() {
    let mut game = GameState::new();
    assert_eq!(apply(&mut game, GameAction::Hover { block: Some(Block { x: 20, y: 20 }) }), Ok(()));
    assert_eq!(game.highlighted_block, Some(Block { x: 20, y: 20 }));
    assert_eq!(apply(&mut game, GameAction::PlaceStructure), Ok(()));
    assert_eq!(game.board.block_structure_type(Block { x: 20, y: 20 }), Some(Structure::Forest));
    assert_eq!(
        apply(&mut game, GameAction::PlaceStructure),
        Err(ActionError::Placement(PlacementError::Collision))
    );
    assert_eq!(apply(&mut game, GameAction::RotateStructure), Ok(()));
    assert_eq!(
        game.player_mode,
        PlayerMode::PlaceStructure { structure: Structure::Forest, orientation: Direction::East }
    );
    assert_eq!(apply(&mut game, GameAction::Focus), Ok(()));
    assert_eq!(game.focal_point, Vertex { x: 20, y: 20 });
    assert_eq!(apply(&mut game, GameAction::OpenMenu { menu: SidebarMenu::Demolish }), Ok(()));
    assert_eq!(apply(&mut game, GameAction::RaiseTerrain), Ok(()));
    assert_eq!(game.board.vertex_height(Vertex { x: 20, y: 20 }), 2);
    assert_eq!(apply(&mut game, GameAction::LowerTerrain), Ok(()));
    assert_eq!(game.board.vertex_height(Vertex { x: 20, y: 20 }), 1);
    assert_eq!(apply(&mut game, GameAction::SidebarHover { button: Some(SidebarMenu::Info) }), Ok(()));
    assert_eq!(game.highlighted_block, None);
    assert_eq!(
        apply(&mut game, GameAction::RaiseTerrain),
        Err(ActionError::Terrain(TerrainError::NoTarget))
    );
}

#[test]
fn category_labels() {
    assert_eq!(Category::Terminals.display_name(), "Terminals");
    assert_eq!(Category::Production.display_name(), "Production");
    assert_eq!(Category::Retail.display_name(), "Retail");
    assert_eq!(Category::CityBuildings.display_name(), "Buildings (city)");
}
