//! State changes, one per player action, and the dispatch from action to change.

use vstd::prelude::*;
use crate::action::GameAction;
use crate::board::{Block, PlacementError, Vertex, placement_effect, smooth, BOARD_HEIGHT, BOARD_WIDTH};
use crate::game::{GameState, PlayerMode};
use crate::menu::{Building, BuyBuildingScreenState, Category, SidebarMenu};
use crate::structure::StructurePlacement;
use crate::terrain::{TerrainError, lower_effect, lower_vertex, raise_effect, raise_vertex};

verus! {

/// Why an action changed nothing.
#[derive(PartialEq, Eq, Structural, Clone, Copy, Debug)]
pub enum ActionError {
    Terrain(TerrainError),
    Placement(PlacementError),
}

/// The vertex a sculpting action works on: the highlighted block's top-left
/// corner, when there is one and it lies on the board.
pub open spec fn target_vertex(highlighted: Option<Block>) -> Option<Vertex> {
    match highlighted {
        Some(b) => if b.x <= BOARD_WIDTH && b.y <= BOARD_HEIGHT {
            Some(Vertex { x: b.x, y: b.y })
        } else {
            None
        },
        None => None,
    }
}

/// Everything but the board is as it was.
pub open spec fn same_interface(before: GameState, after: GameState) -> bool {
    &&& after.buy_building_screen == before.buy_building_screen
    &&& after.focal_point == before.focal_point
    &&& after.highlighted_block == before.highlighted_block
    &&& after.highlighted_button == before.highlighted_button
    &&& after.open_menu == before.open_menu
    &&& after.player_mode == before.player_mode
}

/// Opening `menu` records it as open; Navigation selects the focus tool,
/// Building shows the purchase screen, Demolish selects sculpting with radius
/// zero, and the other buttons do nothing more.
pub open spec fn menu_opened(before: GameState, after: GameState, menu: SidebarMenu) -> bool {
    &&& after.board == before.board
    &&& after.focal_point == before.focal_point
    &&& after.highlighted_block == before.highlighted_block
    &&& after.highlighted_button == before.highlighted_button
    &&& after.open_menu == Some(menu)
    &&& after.player_mode == match menu {
        SidebarMenu::Navigation => PlayerMode::Focus,
        SidebarMenu::Demolish => PlayerMode::RaiseLower { radius: 0 },
        _ => before.player_mode,
    }
    &&& after.buy_building_screen == match menu {
        SidebarMenu::Building => BuyBuildingScreenState::Visible {
            selected_building: Building::TruckDepot,
            selected_category: Category::Terminals,
        },
        _ => before.buy_building_screen,
    }
}

/// Focusing moves the focal point to the highlighted block's corner, when that
/// lies on the board; otherwise nothing changes.
pub open spec fn focused(before: GameState, after: GameState) -> bool {
    &&& after.board == before.board
    &&& after.buy_building_screen == before.buy_building_screen
    &&& after.highlighted_block == before.highlighted_block
    &&& after.highlighted_button == before.highlighted_button
    &&& after.open_menu == before.open_menu
    &&& after.player_mode == before.player_mode
    &&& after.focal_point == match target_vertex(before.highlighted_block) {
        Some(v) => v,
        None => before.focal_point,
    }
}

/// Hovering a block highlights it and clears the highlighted button; hovering
/// nothing clears the highlighted block.
pub open spec fn hovered(before: GameState, after: GameState, block: Option<Block>) -> bool {
    &&& after.board == before.board
    &&& after.buy_building_screen == before.buy_building_screen
    &&& after.focal_point == before.focal_point
    &&& after.open_menu == before.open_menu
    &&& after.player_mode == before.player_mode
    &&& after.highlighted_block == block
    &&& after.highlighted_button == if block is Some {
        None
    } else {
        before.highlighted_button
    }
}

/// Hovering a button highlights it and clears the highlighted block; hovering
/// no button clears the highlighted button.
pub open spec fn sidebar_hovered(before: GameState, after: GameState, button: Option<SidebarMenu>) -> bool {
    &&& after.board == before.board
    &&& after.buy_building_screen == before.buy_building_screen
    &&& after.focal_point == before.focal_point
    &&& after.open_menu == before.open_menu
    &&& after.player_mode == before.player_mode
    &&& after.highlighted_button == button
    &&& after.highlighted_block == if button is Some {
        None
    } else {
        before.highlighted_block
    }
}

/// Rotating turns the structure being placed a quarter clockwise; with any
/// other tool nothing changes.
pub open spec fn rotated(before: GameState, after: GameState) -> bool {
    &&& after.board == before.board
    &&& after.buy_building_screen == before.buy_building_screen
    &&& after.focal_point == before.focal_point
    &&& after.highlighted_block == before.highlighted_block
    &&& after.highlighted_button == before.highlighted_button
    &&& after.open_menu == before.open_menu
    &&& after.player_mode == match before.player_mode {
        PlayerMode::PlaceStructure { structure, orientation } => PlayerMode::PlaceStructure {
            structure,
            orientation: orientation.next(),
        },
        other => other,
    }
}

/// With the placement tool and a highlighted block, the structure is placed
/// there (see `placement_effect`); otherwise nothing changes.
pub open spec fn structure_placed(before: GameState, after: GameState, r: Result<(), PlacementError>) -> bool {
    &&& same_interface(before, after)
    &&& match (before.player_mode, before.highlighted_block) {
        (PlayerMode::PlaceStructure { structure, orientation }, Some(origin)) => placement_effect(
            before.board@,
            after.board@,
            StructurePlacement { structure, orientation, origin },
            r,
        ),
        _ => r is Ok && after.board == before.board,
    }
}

/// The target vertex is raised (see `raise_effect`); without one, `NoTarget`
/// and nothing changes.
pub open spec fn terrain_raised(before: GameState, after: GameState, r: Result<(), TerrainError>) -> bool {
    &&& same_interface(before, after)
    &&& match target_vertex(before.highlighted_block) {
        Some(v) => {
            &&& raise_effect(before.board@.heights, after.board@.heights, v, r)
            &&& after.board@.placements == before.board@.placements
            &&& after.board@.occupants == before.board@.occupants
        },
        None => r == Err::<(), TerrainError>(TerrainError::NoTarget) && after.board == before.board,
    }
}

/// The target vertex is lowered (see `lower_effect`); without one, `NoTarget`
/// and nothing changes.
pub open spec fn terrain_lowered(before: GameState, after: GameState, r: Result<(), TerrainError>) -> bool {
    &&& same_interface(before, after)
    &&& match target_vertex(before.highlighted_block) {
        Some(v) => {
            &&& lower_effect(before.board@.heights, after.board@.heights, v, r)
            &&& after.board@.placements == before.board@.placements
            &&& after.board@.occupants == before.board@.occupants
        },
        None => r == Err::<(), TerrainError>(TerrainError::NoTarget) && after.board == before.board,
    }
}

pub fn apply_open_menu(game: &mut GameState, menu: SidebarMenu)
    ensures
        menu_opened(*old(game), *final(game), menu),
{
    game.open_menu = Some(menu);
    match menu {
        SidebarMenu::Navigation => {
            game.player_mode = PlayerMode::Focus;
        },
        SidebarMenu::Building => {
            apply_display_building_screen(game);
        },
        SidebarMenu::Demolish => {
            game.player_mode = PlayerMode::RaiseLower { radius: 0 };
        },
        _ => {},
    }
}

/// Shows the purchase screen with the first category and building selected.
pub fn apply_display_building_screen(game: &mut GameState)
    ensures
        final(game).buy_building_screen == (BuyBuildingScreenState::Visible {
            selected_building: Building::TruckDepot,
            selected_category: Category::Terminals,
        }),
        final(game).board == old(game).board,
        final(game).focal_point == old(game).focal_point,
        final(game).highlighted_block == old(game).highlighted_block,
        final(game).highlighted_button == old(game).highlighted_button,
        final(game).open_menu == old(game).open_menu,
        final(game).player_mode == old(game).player_mode,
{
    game.buy_building_screen = BuyBuildingScreenState::Visible {
        selected_building: Building::TruckDepot,
        selected_category: Category::Terminals,
    };
}

pub fn apply_focus(game: &mut GameState)
    requires
        old(game).wf(),
    ensures
        final(game).wf(),
        focused(*old(game), *final(game)),
{
    if let Some(block) = game.highlighted_block {
        if block.x <= BOARD_WIDTH && block.y <= BOARD_HEIGHT {
            game.focal_point = Vertex::from(block);
        }
    }
}

pub fn apply_hover(game: &mut GameState, block: Option<Block>)
    ensures
        hovered(*old(game), *final(game), block),
{
    if let Some(block) = block {
        game.highlighted_block = Some(block);
        game.highlighted_button = None;
    } else {
        game.highlighted_block = None;
    }
}

pub fn apply_sidebar_hover(game: &mut GameState, button: Option<SidebarMenu>)
    ensures
        sidebar_hovered(*old(game), *final(game), button),
{
    if let Some(button) = button {
        game.highlighted_block = None;
        game.highlighted_button = Some(button);
    } else {
        game.highlighted_button = None;
    }
}

pub fn apply_rotate_structure(game: &mut GameState)
    ensures
        rotated(*old(game), *final(game)),
{
    if let PlayerMode::PlaceStructure { structure, orientation } = game.player_mode {
        game.player_mode = PlayerMode::PlaceStructure { structure, orientation: orientation.rotate() };
    }
}

pub fn apply_place_structure(game: &mut GameState) -> (r: Result<(), PlacementError>)
    requires
        old(game).wf(),
    ensures
        final(game).wf(),
        structure_placed(*old(game), *final(game), r),
{
    if let (PlayerMode::PlaceStructure { structure, orientation }, Some(block)) = (
        game.player_mode,
        game.highlighted_block,
    ) {
        game.board.place_structure(structure, orientation, block)
    } else {
        Ok(())
    }
}

pub fn apply_raise_terrain(game: &mut GameState) -> (r: Result<(), TerrainError>)
    requires
        old(game).wf(),
    ensures
        final(game).wf(),
        terrain_raised(*old(game), *final(game), r),
{
    match game.highlighted_block {
        Some(block) => {
            if block.x <= BOARD_WIDTH && block.y <= BOARD_HEIGHT {
                raise_vertex(&mut game.board, Vertex { x: block.x, y: block.y })
            } else {
                Err(TerrainError::NoTarget)
            }
        },
        None => Err(TerrainError::NoTarget),
    }
}

pub fn apply_lower_terrain(game: &mut GameState) -> (r: Result<(), TerrainError>)
    requires
        old(game).wf(),
    ensures
        final(game).wf(),
        terrain_lowered(*old(game), *final(game), r),
{
    match game.highlighted_block {
        Some(block) => {
            if block.x <= BOARD_WIDTH && block.y <= BOARD_HEIGHT {
                lower_vertex(&mut game.board, Vertex { x: block.x, y: block.y })
            } else {
                Err(TerrainError::NoTarget)
            }
        },
        None => Err(TerrainError::NoTarget),
    }
}

/// Applies one action to the session. Heights stay within range and the
/// slope rule, once it holds, keeps holding, whatever the action.
pub fn apply(game: &mut GameState, action: GameAction) -> (r: Result<(), ActionError>)
    requires
        old(game).wf(),
    ensures
        final(game).wf(),
        smooth(old(game).board@.heights) ==> smooth(final(game).board@.heights),
        match action {
            GameAction::Hover { block } => r is Ok && hovered(*old(game), *final(game), block),
            GameAction::SidebarHover { button } => r is Ok && sidebar_hovered(
                *old(game),
                *final(game),
                button,
            ),
            GameAction::OpenMenu { menu } => r is Ok && menu_opened(*old(game), *final(game), menu),
            GameAction::Focus => r is Ok && focused(*old(game), *final(game)),
            GameAction::RotateStructure => r is Ok && rotated(*old(game), *final(game)),
            GameAction::PlaceStructure => exists|p: Result<(), PlacementError>|
                structure_placed(*old(game), *final(game), p) && r == match p {
                    Ok(()) => Ok::<(), ActionError>(()),
                    Err(e) => Err(ActionError::Placement(e)),
                },
            GameAction::RaiseTerrain => exists|t: Result<(), TerrainError>|
                terrain_raised(*old(game), *final(game), t) && r == match t {
                    Ok(()) => Ok::<(), ActionError>(()),
                    Err(e) => Err(ActionError::Terrain(e)),
                },
            GameAction::LowerTerrain => exists|t: Result<(), TerrainError>|
                terrain_lowered(*old(game), *final(game), t) && r == match t {
                    Ok(()) => Ok::<(), ActionError>(()),
                    Err(e) => Err(ActionError::Terrain(e)),
                },
        },
{
    match action {
        GameAction::Hover { block } => {
            apply_hover(game, block);
            Ok(())
        },
        GameAction::SidebarHover { button } => {
            apply_sidebar_hover(game, button);
            Ok(())
        },
        GameAction::OpenMenu { menu } => {
            apply_open_menu(game, menu);
            Ok(())
        },
        GameAction::Focus => {
            apply_focus(game);
            Ok(())
        },
        GameAction::RotateStructure => {
            apply_rotate_structure(game);
            Ok(())
        },
        GameAction::PlaceStructure => match apply_place_structure(game) {
            Ok(()) => Ok(()),
            Err(e) => Err(ActionError::Placement(e)),
        },
        GameAction::RaiseTerrain => match apply_raise_terrain(game) {
            Ok(()) => Ok(()),
            Err(e) => Err(ActionError::Terrain(e)),
        },
        GameAction::LowerTerrain => match apply_lower_terrain(game) {
            Ok(()) => Ok(()),
            Err(e) => Err(ActionError::Terrain(e)),
        },
    }
}

} // verus!
