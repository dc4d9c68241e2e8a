use titan::action::{GameAction, KeyboardKey, PlayerAction, PlayerInteraction, WindowPanel};
use titan::board::Block;
use titan::controller::{classify_interaction, map_player_action, map_player_interaction, window_panel};
use titan::game::GameState;
use titan::glyph::{char_index, source_char_width, GLYPH_FALLBACK_ROW};
use titan::menu::SidebarMenu;
use titan::palette::{land_color, structure_color, COLOR_FOREST, COLOR_STRUCTURE_MINE, COLOR_STRUCTURE_PLAYER};
use titan::board::LandType;
use titan::screen::{HiDpiScale, ScreenState};
use titan::sidebar::{button_column, button_row, button_texture_index, Sidebar};
use titan::structure::{Mineral, Structure};
use titan::viewport::Viewport;

#[test]
fn sidebar_buttons_under_cursor() {
    let sidebar = Sidebar::new(160, 600, 20);
    assert_eq!(sidebar.button_under_cursor(0, 60), Some(SidebarMenu::Close));
    assert_eq!(sidebar.button_under_cursor(33, 92), Some(SidebarMenu::Metrics));
    assert_eq!(sidebar.button_under_cursor(159, 155), Some(SidebarMenu::Point));
    assert_eq!(sidebar.button_under_cursor(70, 130), Some(SidebarMenu::Rail));
    assert_eq!(sidebar.button_under_cursor(170, 60), None);
    assert_eq!(sidebar.button_under_cursor(10, 156), None);
    assert_eq!(sidebar.button_under_cursor(10, 50), Some(SidebarMenu::Close));
    assert_eq!(sidebar.button_under_cursor(10, 20), None);
    assert_eq!(Sidebar::new(4, 600, 20).button_under_cursor(0, 60), None);
}

#[test]
fn sidebar_actions() {
    let sidebar = Sidebar::new(160, 600, 20);
    assert_eq!(sidebar.cursor_move_action(40, 70), Some(GameAction::SidebarHover { button: Some(SidebarMenu::Save) }));
    assert_eq!(sidebar.cursor_move_action(40, 500), Some(GameAction::SidebarHover { button: None }));
    assert_eq!(sidebar.left_click_action(40, 140), Some(GameAction::OpenMenu { menu: SidebarMenu::Building }));
    assert_eq!(sidebar.left_click_action(40, 500), None);
    assert_eq!(sidebar.size(), (160, 600));
}

#[test]
fn button_grid_positions() {
    assert_eq!((button_column(SidebarMenu::Close), button_row(SidebarMenu::Close)), (0, 0));
    assert_eq!((button_column(SidebarMenu::Info), button_row(SidebarMenu::Info)), (4, 1));
    assert_eq!((button_column(SidebarMenu::Demolish), button_row(SidebarMenu::Demolish)), (3, 2));
    assert_eq!(button_texture_index(SidebarMenu::Close), 0);
    assert_eq!(button_texture_index(SidebarMenu::News), 8);
    assert_eq!(button_texture_index(SidebarMenu::Point), 14);
    let sidebar = Sidebar::new(160, 600, 20);
    assert_eq!(sidebar.button_rect(SidebarMenu::Demolish), (96, 124, 32));
}

#[test]
fn window_panel_splits_at_sidebar_edge() {
    let sidebar = Sidebar::new(160, 600, 20);
    assert_eq!(window_panel(&sidebar, 160), WindowPanel::Sidebar);
    assert_eq!(window_panel(&sidebar, 161), WindowPanel::Viewport);
    assert_eq!(window_panel(&sidebar, -5), WindowPanel::Sidebar);
    assert_eq!(
        classify_interaction(&sidebar, PlayerInteraction::WindowLeftClick { x: 300, y: 2 }),
        PlayerAction::WindowLeftClick { panel: WindowPanel::Viewport, x: 300, y: 2 }
    );
    assert_eq!(
        classify_interaction(&sidebar, PlayerInteraction::KeyPress { key: KeyboardKey::Space }),
        PlayerAction::PressSpace
    );
}

#[test]
fn interactions_route_to_the_right_panel() {
    let sidebar = Sidebar::new(160, 600, 20);
    let viewport = Viewport::new(800, 600, 160);
    let game = GameState::new();
    assert_eq!(
        map_player_interaction(&sidebar, &viewport, &game, PlayerInteraction::CursorMove { x: 560, y: 300 }),
        Some(GameAction::Hover { block: Some(Block { x: 9, y: 19 }) })
    );
    assert_eq!(
        map_player_interaction(&sidebar, &viewport, &game, PlayerInteraction::CursorMove { x: 0, y: 60 }),
        Some(GameAction::SidebarHover { button: Some(SidebarMenu::Close) })
    );
    assert_eq!(
        map_player_interaction(&sidebar, &viewport, &game, PlayerInteraction::WindowLeftClick { x: 40, y: 140 }),
        Some(GameAction::OpenMenu { menu: SidebarMenu::Building })
    );
    assert_eq!(
        map_player_interaction(&sidebar, &viewport, &game, PlayerInteraction::WindowRightClick { x: 40, y: 140 }),
        None
    );
    assert_eq!(
        map_player_interaction(&sidebar, &viewport, &game, PlayerInteraction::WindowLeftClick { x: 400, y: 140 }),
        Some(GameAction::PlaceStructure)
    );
    assert_eq!(
        map_player_action(&sidebar, &viewport, &game, PlayerAction::PressSpace),
        Some(GameAction::RotateStructure)
    );
}

#[test]
fn screen_scaling() {
    let plain = ScreenState::new(800, 600, 800, 600);
    assert_eq!(plain.size(), (800, 600));
    assert_eq!(plain.scale_x(13), 13);
    let retina = ScreenState::new(800, 600, 1600, 1200);
    assert_eq!(retina.size(), (1600, 1200));
    assert_eq!(retina.scale_y(13), 26);
    let triple = ScreenState::new(100, 100, 300, 300);
    assert_eq!(triple.size(), (300, 300));
    let uneven = ScreenState::new(800, 600, 1600, 600);
    assert_eq!(uneven.size(), (800, 600));
    assert_eq!(HiDpiScale::X4.scale(-7), -28);
}

#[test]
fn glyph_rows_and_widths() {
    assert_eq!(char_index('A'), 0);
    assert_eq!(char_index('Z'), 25);
    assert_eq!(char_index('a'), 26);
    assert_eq!(char_index('z'), 51);
    assert_eq!(char_index('0'), 52);
    assert_eq!(char_index('9'), 61);
    assert_eq!(char_index('!'), 62);
    assert_eq!(char_index('?'), 81);
    assert_eq!(char_index(' '), 87);
    assert_eq!(char_index('#'), GLYPH_FALLBACK_ROW);
    assert_eq!(char_index('é'), GLYPH_FALLBACK_ROW);
    assert_eq!(source_char_width('M'), 50);
    assert_eq!(source_char_width('i'), 12);
    assert_eq!(source_char_width('\''), 8);
    assert_eq!(source_char_width('K'), 34);
    assert_eq!(source_char_width('x'), 30);
    assert_eq!(source_char_width('#'), 30);
}

#[test]
fn palette_colours() {
    assert_eq!(structure_color(Structure::Forest), COLOR_FOREST);
    assert_eq!(structure_color(Structure::Mine { mineral: Mineral::Silver }), COLOR_STRUCTURE_MINE);
    assert_eq!(structure_color(Structure::Airport), COLOR_STRUCTURE_PLAYER);
    assert_eq!(structure_color(Structure::Rails), (92, 96, 90));
    assert_eq!(land_color(LandType::Water), (53, 117, 189));
    assert_eq!(land_color(LandType::Land), (0, 200, 0));
}
