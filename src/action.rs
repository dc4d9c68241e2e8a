//! Input events, in the forms they take on their way to a state change.

use vstd::prelude::*;
use crate::board::Block;
use crate::menu::SidebarMenu;

verus! {

/// A state change requested by the player, resolved against the interface.
#[derive(PartialEq, Eq, Structural, Clone, Copy, Debug)]
pub enum GameAction {
    Hover { block: Option<Block> },
    SidebarHover { button: Option<SidebarMenu> },
    OpenMenu { menu: SidebarMenu },
    PlaceStructure,
    Focus,
    RaiseTerrain,
    RotateStructure,
    LowerTerrain,
}

#[derive(PartialEq, Eq, Structural, Clone, Copy, Debug)]
pub enum KeyboardKey {
    Space,
}

/// A raw pointer or keyboard event, in window pixels.
#[derive(PartialEq, Eq, Structural, Clone, Copy, Debug)]
pub enum PlayerInteraction {
    CursorMove { x: i32, y: i32 },
    WindowLeftClick { x: i32, y: i32 },
    WindowRightClick { x: i32, y: i32 },
    KeyPress { key: KeyboardKey },
}

/// The part of the window a pointer event falls in.
#[derive(PartialEq, Eq, Structural, Clone, Copy, Debug)]
pub enum WindowPanel {
    Sidebar,
    Viewport,
}

/// A pointer or keyboard event tagged with the panel it falls in.
#[derive(PartialEq, Eq, Structural, Clone, Copy, Debug)]
pub enum PlayerAction {
    CursorMove { panel: WindowPanel, x: i32, y: i32 },
    WindowLeftClick { panel: WindowPanel, x: i32, y: i32 },
    WindowRightClick { panel: WindowPanel, x: i32, y: i32 },
    PressSpace,
}

} // verus!
