//! The session state that every interaction reads and changes.

use vstd::prelude::*;
use crate::board::{Block, Board, Vertex, seed_height, smooth, height_at, vertex_in_bounds, BLOCK_COUNT};
use crate::menu::{BuyBuildingScreenState, SidebarMenu};
use crate::structure::{Direction, Structure, StructureDimension, oriented_size};

verus! {

/// The active tool.
#[derive(PartialEq, Eq, Structural, Clone, Copy, Debug)]
pub enum PlayerMode {
    /// Clicking a block pans the view to it.
    Focus,
    /// Left click raises, right click lowers the vertex under the pointer.
    RaiseLower { radius: u8 },
    /// Left click places the structure; space rotates it.
    PlaceStructure { structure: Structure, orientation: Direction },
}

/// The highlight shape the active tool draws under the pointer.
#[derive(PartialEq, Eq, Structural, Clone, Copy, Debug)]
pub enum SelectionMode {
    Empty,
    /// The square of vertices within `radius` of the pointer.
    Vertex { radius: u8 },
    /// A `w` by `h` rectangle of blocks with the pointer's block at its top-left corner.
    Blocks { w: StructureDimension, h: StructureDimension },
}

/// The highlight shape of a tool: a structure's oriented footprint, or the
/// sculpting square.
pub open spec fn selection_of(mode: PlayerMode) -> SelectionMode {
    match mode {
        PlayerMode::Focus => SelectionMode::Empty,
        PlayerMode::RaiseLower { radius } => SelectionMode::Vertex { radius },
        PlayerMode::PlaceStructure { structure, orientation } => {
            let (w, h) = oriented_size(structure, orientation);
            SelectionMode::Blocks { w: w as u8, h: h as u8 }
        },
    }
}

pub struct GameState {
    pub board: Board,
    pub buy_building_screen: BuyBuildingScreenState,
    /// The vertex the view is centred on.
    pub focal_point: Vertex,
    pub highlighted_block: Option<Block>,
    pub highlighted_button: Option<SidebarMenu>,
    pub open_menu: Option<SidebarMenu>,
    pub player_mode: PlayerMode,
}

impl GameState {
    /// The board is well-formed and the focal point lies on it.
    pub open spec fn wf(&self) -> bool {
        self.board@.wf() && self.focal_point.on_board()
    }

    /// A fresh session: the seeded board, the view on vertex `(10, 20)`, and
    /// forest placement as the active tool.
    pub fn new() -> (r: GameState)
        ensures
            r.wf(),
            forall|x: int, y: int|
                vertex_in_bounds(x, y) ==> #[trigger] height_at(r.board@.heights, x, y) == seed_height(x, y),
            smooth(r.board@.heights),
            r.board@.placements.len() == 0,
            forall|i: int| 0 <= i < BLOCK_COUNT ==> (#[trigger] r.board@.occupants[i]).is_none(),
            r.buy_building_screen == BuyBuildingScreenState::Hidden,
            r.focal_point == (Vertex { x: 10, y: 20 }),
            r.player_mode == (PlayerMode::PlaceStructure {
                structure: Structure::Forest,
                orientation: Direction::North,
            }),
            r.highlighted_block.is_none(),
            r.highlighted_button.is_none(),
            r.open_menu.is_none(),
    {
        GameState {
            board: Board::new(),
            buy_building_screen: BuyBuildingScreenState::Hidden,
            focal_point: Vertex { x: 10, y: 20 },
            highlighted_block: None,
            highlighted_button: None,
            open_menu: None,
            player_mode: PlayerMode::PlaceStructure {
                structure: Structure::Forest,
                orientation: Direction::North,
            },
        }
    }

    /// The highlight shape of the active tool.
    pub fn selection_mode(&self) -> (r: SelectionMode)
        ensures
            r == selection_of(self.player_mode),
    {
        match self.player_mode {
            PlayerMode::Focus => SelectionMode::Empty,
            PlayerMode::PlaceStructure { structure, orientation } => {
                let (w, h) = structure.size();
                match orientation {
                    Direction::North | Direction::South => SelectionMode::Blocks { w, h },
                    Direction::East | Direction::West => SelectionMode::Blocks { w: h, h: w },
                }
            },
            PlayerMode::RaiseLower { radius } => SelectionMode::Vertex { radius },
        }
    }
}

} // verus!
