//! Routing of raw input events to the panel they fall in, and from there to a
//! game action.

use vstd::prelude::*;
use crate::action::{GameAction, KeyboardKey, PlayerAction, PlayerInteraction, WindowPanel};
use crate::game::GameState;
use crate::sidebar::Sidebar;
use crate::viewport::Viewport;

verus! {

/// The panel under window column `x`: the sidebar up to and including its
/// right edge, the viewport beyond.
pub open spec fn panel_at(sidebar: &Sidebar, x: int) -> WindowPanel {
    if x <= sidebar.width_spec() {
        WindowPanel::Sidebar
    } else {
        WindowPanel::Viewport
    }
}

pub fn window_panel(sidebar: &Sidebar, x: i32) -> (r: WindowPanel)
    ensures
        r == panel_at(sidebar, x as int),
{
    let (sidebar_width, _) = sidebar.size();
    if x as i64 <= sidebar_width as i64 {
        WindowPanel::Sidebar
    } else {
        WindowPanel::Viewport
    }
}

/// Tags a raw event with the panel it falls in.
pub fn classify_interaction(sidebar: &Sidebar, interaction: PlayerInteraction) -> (r: PlayerAction)
    ensures
        r == (match interaction {
            PlayerInteraction::CursorMove { x, y } => PlayerAction::CursorMove {
                panel: panel_at(sidebar, x as int),
                x,
                y,
            },
            PlayerInteraction::WindowLeftClick { x, y } => PlayerAction::WindowLeftClick {
                panel: panel_at(sidebar, x as int),
                x,
                y,
            },
            PlayerInteraction::WindowRightClick { x, y } => PlayerAction::WindowRightClick {
                panel: panel_at(sidebar, x as int),
                x,
                y,
            },
            PlayerInteraction::KeyPress { key: KeyboardKey::Space } => PlayerAction::PressSpace,
        }),
{
    match interaction {
        PlayerInteraction::CursorMove { x, y } => PlayerAction::CursorMove {
            panel: window_panel(sidebar, x),
            x,
            y,
        },
        PlayerInteraction::WindowLeftClick { x, y } => PlayerAction::WindowLeftClick {
            panel: window_panel(sidebar, x),
            x,
            y,
        },
        PlayerInteraction::WindowRightClick { x, y } => PlayerAction::WindowRightClick {
            panel: window_panel(sidebar, x),
            x,
            y,
        },
        PlayerInteraction::KeyPress { key: KeyboardKey::Space } => PlayerAction::PressSpace,
    }
}

/// The game action a tagged event asks for: sidebar events go to the
/// sidebar (a right click there does nothing), everything else to the viewport.
pub fn map_player_action(
    sidebar: &Sidebar,
    viewport: &Viewport,
    game: &GameState,
    player_action: PlayerAction,
) -> (r: Option<GameAction>)
    requires
        game.wf(),
    ensures
        r == (match player_action {
            PlayerAction::CursorMove { panel: WindowPanel::Sidebar, x, y } => Some(
                GameAction::SidebarHover { button: sidebar.button_at(x as int, y as int) },
            ),
            PlayerAction::WindowLeftClick { panel: WindowPanel::Sidebar, x, y } => match sidebar.button_at(
                x as int,
                y as int,
            ) {
                Some(menu) => Some(GameAction::OpenMenu { menu }),
                None => None,
            },
            PlayerAction::WindowRightClick { panel: WindowPanel::Sidebar, .. } => None,
            PlayerAction::CursorMove { panel: WindowPanel::Viewport, x, y } => Some(
                GameAction::Hover { block: viewport.block_under(game, x as int, y as int) },
            ),
            _ => viewport.map_player_action_spec(game, player_action),
        }),
{
    match player_action {
        PlayerAction::CursorMove { panel: WindowPanel::Sidebar, x, y } => sidebar.cursor_move_action(x, y),
        PlayerAction::WindowLeftClick { panel: WindowPanel::Sidebar, x, y } => sidebar.left_click_action(x, y),
        PlayerAction::WindowRightClick { panel: WindowPanel::Sidebar, .. } => None,
        _ => viewport.map_player_action(game, player_action),
    }
}

/// The game action a raw event asks for.
pub fn map_player_interaction(
    sidebar: &Sidebar,
    viewport: &Viewport,
    game: &GameState,
    interaction: PlayerInteraction,
) -> (r: Option<GameAction>)
    requires
        game.wf(),
    ensures
        ({
            let a = match interaction {
                PlayerInteraction::CursorMove { x, y } => PlayerAction::CursorMove {
                    panel: panel_at(sidebar, x as int),
                    x,
                    y,
                },
                PlayerInteraction::WindowLeftClick { x, y } => PlayerAction::WindowLeftClick {
                    panel: panel_at(sidebar, x as int),
                    x,
                    y,
                },
                PlayerInteraction::WindowRightClick { x, y } => PlayerAction::WindowRightClick {
                    panel: panel_at(sidebar, x as int),
                    x,
                    y,
                },
                PlayerInteraction::KeyPress { .. } => PlayerAction::PressSpace,
            };
            r == match a {
                PlayerAction::CursorMove { panel: WindowPanel::Sidebar, x, y } => Some(
                    GameAction::SidebarHover { button: sidebar.button_at(x as int, y as int) },
                ),
                PlayerAction::WindowLeftClick { panel: WindowPanel::Sidebar, x, y } => match sidebar.button_at(
                    x as int,
                    y as int,
                ) {
                    Some(menu) => Some(GameAction::OpenMenu { menu }),
                    None => None,
                },
                PlayerAction::WindowRightClick { panel: WindowPanel::Sidebar, .. } => None,
                _ => viewport.map_player_action_spec(game, a),
            }
        }),
{
    let action = classify_interaction(sidebar, interaction);
    map_player_action(sidebar, viewport, game, action)
}

} // verus!
