//! The pannable view onto the world: where world points appear in the window,
//! and which block lies under a pointer position.

use vstd::prelude::*;
use vstd::arithmetic::div_mod::{lemma_div_is_ordered, lemma_div_multiples_vanish};
use crate::action::{GameAction, PlayerAction};
use crate::board::{Block, Vertex, vertex_in_bounds, BOARD_HEIGHT, BOARD_WIDTH, WATER_LEVEL};
use crate::game::{GameState, PlayerMode};
use crate::projection::{
    FineWorldPoint, ScreenPoint, WorldPoint, lemma_trunc_div_bound, project_x, project_y,
    unproject_x, unproject_y, GRID_SCALE, HEIGHT_UNIT_OFFSET, INVERSE_DENOM,
    ISO_COS, ISO_SIN, NUMERATOR_LIMIT, TRIG_DENOM,
};

verus! {

/// Bound on the magnitude of any viewport point of a world point.
pub const WINDOW_LIMIT: i64 = 4503599627370496;

/// Height used to draw grid point `(x, y)`: its vertex height on the board,
/// water level off it.
pub open spec fn ground_height(game: &GameState, x: int, y: int) -> int {
    if vertex_in_bounds(x, y) {
        game.board@.height(Vertex { x: x as u32, y: y as u32 })
    } else {
        WATER_LEVEL as int
    }
}

/// Largest viewport coordinate magnitude whose world point can be computed.
pub const VIEWPORT_LIMIT: i64 = 8589934592;

/// A rectangle of the world plane, in coordinates scaled by `INVERSE_DENOM`.
#[derive(PartialEq, Eq, Structural, Clone, Copy, Debug)]
pub struct WorldRegion {
    pub min_x_num: i64,
    pub max_x_num: i64,
    pub min_y_num: i64,
    pub max_y_num: i64,
}

impl WorldRegion {
    /// Whether the grid point `(x, y)` lies in the rectangle, edges included.
    pub open spec fn holds(self, x: int, y: int) -> bool {
        self.min_x_num <= x * INVERSE_DENOM <= self.max_x_num && self.min_y_num <= y
            * INVERSE_DENOM <= self.max_y_num
    }

    pub fn contains(&self, x: u32, y: u32) -> (r: bool)
        requires
            x <= 1000000,
            y <= 1000000,
        ensures
            r == self.holds(x as int, y as int),
    {
        proof {
            assert(x * INVERSE_DENOM <= 1000000 * INVERSE_DENOM) by (nonlinear_arith)
                requires
                    x <= 1000000,
                    INVERSE_DENOM > 0,
            ;
            assert(y * INVERSE_DENOM <= 1000000 * INVERSE_DENOM) by (nonlinear_arith)
                requires
                    y <= 1000000,
                    INVERSE_DENOM > 0,
            ;
        }
        let xs = x as i64 * INVERSE_DENOM;
        let ys = y as i64 * INVERSE_DENOM;
        self.min_x_num <= xs && xs <= self.max_x_num && self.min_y_num <= ys && ys <= self.max_y_num
    }
}

pub open spec fn min4(a: int, b: int, c: int, d: int) -> int {
    let ab = if a <= b { a } else { b };
    let cd = if c <= d { c } else { d };
    if ab <= cd { ab } else { cd }
}

pub open spec fn max4(a: int, b: int, c: int, d: int) -> int {
    let ab = if a >= b { a } else { b };
    let cd = if c >= d { c } else { d };
    if ab >= cd { ab } else { cd }
}

fn min_i64(a: i64, b: i64) -> (r: i64)
    ensures
        r == if a <= b { a } else { b },
{
    if a <= b { a } else { b }
}

fn max_i64(a: i64, b: i64) -> (r: i64)
    ensures
        r == if a >= b { a } else { b },
{
    if a >= b { a } else { b }
}

/// A position in viewport pixels, before the side panel's offset is added.
#[derive(PartialEq, Eq, Structural, Clone, Copy, Debug)]
pub struct ViewportPoint {
    pub x: i64,
    pub y: i64,
}

/// The world view: a `window_width` by `window_height` pixel area that starts
/// `offset_left` pixels from the window's left edge, centred on the game's
/// focal point.
pub struct Viewport {
    window_width: u32,
    window_height: u32,
    offset_left: u32,
}

/// Screen position of the focal point, at its real height.
pub open spec fn focal_screen(game: &GameState) -> (int, int) {
    let f = game.focal_point;
    (project_x(f.x as int, f.y as int), project_y(f.x as int, f.y as int, game.board@.height(f)))
}

impl Viewport {
    pub closed spec fn width_spec(&self) -> int {
        self.window_width as int
    }

    pub closed spec fn height_spec(&self) -> int {
        self.window_height as int
    }

    pub closed spec fn offset_left_spec(&self) -> int {
        self.offset_left as int
    }

    /// Where world point `p` appears: the viewport centre plus the screen
    /// offset of `p` from the focal point.
    pub open spec fn viewport_point_of(&self, game: &GameState, p: WorldPoint) -> (int, int) {
        let (fx, fy) = focal_screen(game);
        (
            self.width_spec() / 2 + project_x(p.x as int, p.y as int) - fx,
            self.height_spec() / 2 + project_y(p.x as int, p.y as int, p.h as int) - fy,
        )
    }

    /// `INVERSE_DENOM` times the world coordinates under viewport point
    /// `(vx, vy)`: the viewport centre is taken off, the focal point's screen
    /// position added, and the inverse map applied.
    pub open spec fn world_at(&self, game: &GameState, vx: int, vy: int) -> (int, int) {
        let (fx, fy) = focal_screen(game);
        let sx = fx + (vx - self.width_spec() / 2);
        let sy = fy + (vy - self.height_spec() / 2);
        (unproject_x(sx * TRIG_DENOM, sy * TRIG_DENOM), unproject_y(sx * TRIG_DENOM, sy * TRIG_DENOM))
    }

    /// `INVERSE_DENOM` times the world coordinates under window pixel
    /// `(px, py)`, which lies `offset_left` to the right of its viewport point.
    pub open spec fn world_under(&self, game: &GameState, px: int, py: int) -> (int, int) {
        self.world_at(game, px - self.offset_left_spec(), py)
    }

    /// The block under window pixel `(px, py)`: none where either world
    /// coordinate is negative, else each coordinate truncated.
    pub open spec fn block_under(&self, game: &GameState, px: int, py: int) -> Option<Block> {
        let (nx, ny) = self.world_under(game, px, py);
        if nx < 0 || ny < 0 {
            None
        } else {
            Some(Block { x: (nx / (INVERSE_DENOM as int)) as u32, y: (ny / (INVERSE_DENOM as int)) as u32 })
        }
    }

    pub fn new(width: u32, height: u32, offset_left: u32) -> (r: Viewport)
        ensures
            r.width_spec() == width,
            r.height_spec() == height,
            r.offset_left_spec() == offset_left,
    {
        Viewport { window_width: width, window_height: height, offset_left }
    }

    fn focal_screen_point(&self, game: &GameState) -> (r: ScreenPoint)
        requires
            game.wf(),
        ensures
            r.x == focal_screen(game).0,
            r.y == focal_screen(game).1,
            -26913000 <= r.x <= 26913000,
            -26913000 <= r.y <= 26913000,
    {
        let f = game.focal_point;
        let h = game.board.vertex_height(f);
        proof {
            let a = (f.x - f.y) * (GRID_SCALE * ISO_COS);
            let b = (f.x + f.y) * (GRID_SCALE * ISO_SIN) - h * (HEIGHT_UNIT_OFFSET * TRIG_DENOM);
            assert(-26913000 <= a <= 26913000) by (nonlinear_arith)
                requires
                    a == (f.x - f.y) * (GRID_SCALE * ISO_COS),
                    -100 <= f.x - f.y <= 100,
                    GRID_SCALE * ISO_COS == 269130,
            ;
            assert(-26913000 <= b <= 26913000) by (nonlinear_arith)
                requires
                    b == (f.x + f.y) * (GRID_SCALE * ISO_SIN) - h * (HEIGHT_UNIT_OFFSET * TRIG_DENOM),
                    0 <= f.x + f.y <= 200,
                    0 <= h <= 6,
                    GRID_SCALE * ISO_SIN == 132540,
                    HEIGHT_UNIT_OFFSET * TRIG_DENOM == 100000,
            ;
            lemma_trunc_div_bound(a, TRIG_DENOM as int, 26913000);
            lemma_trunc_div_bound(b, TRIG_DENOM as int, 26913000);
        }
        ScreenPoint::from_world(&WorldPoint { x: f.x as i32, y: f.y as i32, h })
    }

    /// Where `world_point` appears in the viewport.
    pub fn compute_viewport_point(&self, game: &GameState, world_point: WorldPoint) -> (r: ViewportPoint)
        requires
            game.wf(),
        ensures
            r.x == self.viewport_point_of(game, world_point).0,
            r.y == self.viewport_point_of(game, world_point).1,
            -WINDOW_LIMIT <= r.x <= WINDOW_LIMIT,
            -WINDOW_LIMIT <= r.y <= WINDOW_LIMIT,
    {
        let screen_point = ScreenPoint::from_world(&world_point);
        let screen_focal_point = self.focal_screen_point(game);
        proof {
            let a = (world_point.x - world_point.y) * (GRID_SCALE * ISO_COS);
            let b = (world_point.x + world_point.y) * (GRID_SCALE * ISO_SIN) - world_point.h * (
            HEIGHT_UNIT_OFFSET * TRIG_DENOM);
            assert(-4294967296 * 269130 <= a <= 4294967296 * 269130) by (nonlinear_arith)
                requires
                    a == (world_point.x - world_point.y) * (GRID_SCALE * ISO_COS),
                    -4294967296 <= world_point.x - world_point.y <= 4294967296,
                    GRID_SCALE * ISO_COS == 269130,
            ;
            assert(-4294967296 * 269130 <= b <= 4294967296 * 269130) by (nonlinear_arith)
                requires
                    b == (world_point.x + world_point.y) * (GRID_SCALE * ISO_SIN) - world_point.h * (
                    HEIGHT_UNIT_OFFSET * TRIG_DENOM),
                    -4294967296 <= world_point.x + world_point.y <= 4294967296,
                    0 <= world_point.h <= 255,
                    GRID_SCALE * ISO_SIN == 132540,
                    HEIGHT_UNIT_OFFSET * TRIG_DENOM == 100000,
            ;
            lemma_trunc_div_bound(a, TRIG_DENOM as int, (4294967296 * 269130) as int);
            lemma_trunc_div_bound(b, TRIG_DENOM as int, (4294967296 * 269130) as int);
        }
        let vertex_offset_x = screen_point.x - screen_focal_point.x;
        let vertex_offset_y = screen_point.y - screen_focal_point.y;
        let viewport_center_x = (self.window_width / 2) as i64;
        let viewport_center_y = (self.window_height / 2) as i64;
        ViewportPoint { x: viewport_center_x + vertex_offset_x, y: viewport_center_y + vertex_offset_y }
    }

    /// The world point under a viewport point, in exact coordinates.
    fn compute_world_point(&self, game: &GameState, viewport_point: ViewportPoint) -> (r: FineWorldPoint)
        requires
            game.wf(),
            -VIEWPORT_LIMIT <= viewport_point.x <= VIEWPORT_LIMIT,
            -VIEWPORT_LIMIT <= viewport_point.y <= VIEWPORT_LIMIT,
        ensures
            r.x_num == self.world_at(game, viewport_point.x as int, viewport_point.y as int).0,
            r.y_num == self.world_at(game, viewport_point.x as int, viewport_point.y as int).1,
            r.x_num <= NUMERATOR_LIMIT * 13389,
            r.y_num <= NUMERATOR_LIMIT * 13389,
    {
        let screen_offset_x = viewport_point.x - (self.window_width / 2) as i64;
        let screen_offset_y = viewport_point.y - (self.window_height / 2) as i64;
        let screen_focal_point = self.focal_screen_point(game);
        let point = ScreenPoint {
            x: screen_focal_point.x + screen_offset_x,
            y: screen_focal_point.y + screen_offset_y,
        };
        FineWorldPoint::from_screen(&point)
    }

    /// The block under window pixel `(x, y)`, or none where the pixel maps to a
    /// negative world coordinate. The block need not lie on the board.
    pub fn get_block_under_cursor(&self, game: &GameState, x: i32, y: i32) -> (r: Option<Block>)
        requires
            game.wf(),
        ensures
            r == self.block_under(game, x as int, y as int),
            r is None <==> (self.world_under(game, x as int, y as int).0 < 0 || self.world_under(
                game,
                x as int,
                y as int,
            ).1 < 0),
    {
        let viewport_point = ViewportPoint { x: x as i64 - self.offset_left as i64, y: y as i64 };
        let world_point = self.compute_world_point(game, viewport_point);
        if world_point.x_num < 0 {
            None
        } else if world_point.y_num < 0 {
            None
        } else {
            proof {
                let bound: int = NUMERATOR_LIMIT * 13389;
                lemma_div_is_ordered(world_point.x_num as int, bound, INVERSE_DENOM as int);
                lemma_div_is_ordered(world_point.y_num as int, bound, INVERSE_DENOM as int);
                lemma_div_is_ordered(bound, INVERSE_DENOM * 4294967295, INVERSE_DENOM as int);
                lemma_div_multiples_vanish(4294967295, INVERSE_DENOM as int);
            }
            let bx = (world_point.x_num as u64 / INVERSE_DENOM as u64) as u32;
            let by = (world_point.y_num as u64 / INVERSE_DENOM as u64) as u32;
            Some(Block { x: bx, y: by })
        }
    }

    /// The axis-aligned world rectangle spanned by the four viewport corners:
    /// every world point that shows in the viewport lies in it.
    pub fn visible_region(&self, game: &GameState) -> (r: WorldRegion)
        requires
            game.wf(),
        ensures
            ({
                let w = self.width_spec();
                let h = self.height_spec();
                let tl = self.world_at(game, 0, 0);
                let tr = self.world_at(game, w, 0);
                let bl = self.world_at(game, 0, h);
                let br = self.world_at(game, w, h);
                &&& r.min_x_num == min4(tl.0, tr.0, bl.0, br.0)
                &&& r.max_x_num == max4(tl.0, tr.0, bl.0, br.0)
                &&& r.min_y_num == min4(tl.1, tr.1, bl.1, br.1)
                &&& r.max_y_num == max4(tl.1, tr.1, bl.1, br.1)
            }),
    {
        let w = self.window_width as i64;
        let h = self.window_height as i64;
        let tl = self.compute_world_point(game, ViewportPoint { x: 0, y: 0 });
        let tr = self.compute_world_point(game, ViewportPoint { x: w, y: 0 });
        let bl = self.compute_world_point(game, ViewportPoint { x: 0, y: h });
        let br = self.compute_world_point(game, ViewportPoint { x: w, y: h });
        WorldRegion {
            min_x_num: min_i64(min_i64(tl.x_num, tr.x_num), min_i64(bl.x_num, br.x_num)),
            max_x_num: max_i64(max_i64(tl.x_num, tr.x_num), max_i64(bl.x_num, br.x_num)),
            min_y_num: min_i64(min_i64(tl.y_num, tr.y_num), min_i64(bl.y_num, br.y_num)),
            max_y_num: max_i64(max_i64(tl.y_num, tr.y_num), max_i64(bl.y_num, br.y_num)),
        }
    }

    /// Window position of grid point `(x, y)`, drawn at its ground height.
    pub open spec fn window_point_of_grid(&self, game: &GameState, x: int, y: int) -> (int, int) {
        let p = self.viewport_point_of(
            game,
            WorldPoint { x: x as i32, y: y as i32, h: ground_height(game, x, y) as u8 },
        );
        (p.0 + self.offset_left_spec(), p.1)
    }

    /// Where grid point `(x, y)` is drawn in the window.
    pub fn vertex_window_point(&self, game: &GameState, x: i32, y: i32) -> (r: (i64, i64))
        requires
            game.wf(),
        ensures
            r.0 == self.window_point_of_grid(game, x as int, y as int).0,
            r.1 == self.window_point_of_grid(game, x as int, y as int).1,
    {
        let h = if x >= 0 && y >= 0 && x as u32 <= BOARD_WIDTH && y as u32 <= BOARD_HEIGHT {
            game.board.vertex_height(Vertex { x: x as u32, y: y as u32 })
        } else {
            WATER_LEVEL
        };
        let p = self.compute_viewport_point(game, WorldPoint { x, y, h });
        self.to_window(p)
    }

    /// The outline of block `(x, y)` in window positions, as a closed walk
    /// over its corners `(x, y)`, `(x, y + 1)`, `(x + 1, y + 1)`, `(x + 1, y)`.
    pub fn block_outline(&self, game: &GameState, x: i32, y: i32) -> (r: [(i64, i64); 4])
        requires
            game.wf(),
            x < i32::MAX,
            y < i32::MAX,
        ensures
            r@[0].0 == self.window_point_of_grid(game, x as int, y as int).0,
            r@[0].1 == self.window_point_of_grid(game, x as int, y as int).1,
            r@[1].0 == self.window_point_of_grid(game, x as int, y + 1).0,
            r@[1].1 == self.window_point_of_grid(game, x as int, y + 1).1,
            r@[2].0 == self.window_point_of_grid(game, x + 1, y + 1).0,
            r@[2].1 == self.window_point_of_grid(game, x + 1, y + 1).1,
            r@[3].0 == self.window_point_of_grid(game, x + 1, y as int).0,
            r@[3].1 == self.window_point_of_grid(game, x + 1, y as int).1,
    {
        [
            self.vertex_window_point(game, x, y),
            self.vertex_window_point(game, x, y + 1),
            self.vertex_window_point(game, x + 1, y + 1),
            self.vertex_window_point(game, x + 1, y),
        ]
    }

    /// A pointer move hovers the block under it (or nothing).
    pub fn cursor_move_action(&self, game: &GameState, x: i32, y: i32) -> (r: Option<GameAction>)
        requires
            game.wf(),
        ensures
            r == Some(GameAction::Hover { block: self.block_under(game, x as int, y as int) }),
    {
        Some(GameAction::Hover { block: self.get_block_under_cursor(game, x, y) })
    }

    /// A left click applies the active tool.
    pub fn left_click_action(&self, game: &GameState) -> (r: Option<GameAction>)
        ensures
            r == Some(
                match game.player_mode {
                    PlayerMode::Focus => GameAction::Focus,
                    PlayerMode::RaiseLower { .. } => GameAction::RaiseTerrain,
                    PlayerMode::PlaceStructure { .. } => GameAction::PlaceStructure,
                },
            ),
    {
        match &game.player_mode {
            PlayerMode::Focus => Some(GameAction::Focus),
            PlayerMode::RaiseLower { .. } => Some(GameAction::RaiseTerrain),
            PlayerMode::PlaceStructure { .. } => Some(GameAction::PlaceStructure),
        }
    }

    /// A right click lowers terrain with the sculpting tool, and does nothing otherwise.
    pub fn right_click_action(&self, game: &GameState) -> (r: Option<GameAction>)
        ensures
            r == (match game.player_mode {
                PlayerMode::RaiseLower { .. } => Some(GameAction::LowerTerrain),
                _ => None,
            }),
    {
        match &game.player_mode {
            PlayerMode::RaiseLower { .. } => Some(GameAction::LowerTerrain),
            _ => None,
        }
    }

    /// The space bar rotates the structure being placed.
    pub fn spacebar_action(&self, game: &GameState) -> (r: Option<GameAction>)
        ensures
            r == Some(GameAction::RotateStructure),
    {
        Some(GameAction::RotateStructure)
    }

    /// The action an event inside the viewport asks for: a move hovers the
    /// block under the pointer, a left click applies the active tool, a right
    /// click lowers terrain with the sculpting tool, the space bar rotates.
    pub open spec fn map_player_action_spec(&self, game: &GameState, player_action: PlayerAction) -> Option<GameAction> {
        match player_action {
            PlayerAction::CursorMove { x, y, .. } => Some(
                GameAction::Hover { block: self.block_under(game, x as int, y as int) },
            ),
            PlayerAction::WindowLeftClick { .. } => Some(
                match game.player_mode {
                    PlayerMode::Focus => GameAction::Focus,
                    PlayerMode::RaiseLower { .. } => GameAction::RaiseTerrain,
                    PlayerMode::PlaceStructure { .. } => GameAction::PlaceStructure,
                },
            ),
            PlayerAction::WindowRightClick { .. } => match game.player_mode {
                PlayerMode::RaiseLower { .. } => Some(GameAction::LowerTerrain),
                _ => None,
            },
            PlayerAction::PressSpace => Some(GameAction::RotateStructure),
        }
    }

    /// The action that an event inside the viewport asks for; the panel tag is
    /// not consulted.
    pub fn map_player_action(&self, game: &GameState, player_action: PlayerAction) -> (r: Option<
        GameAction,
    >)
        requires
            game.wf(),
        ensures
            r == self.map_player_action_spec(game, player_action),
    {
        match player_action {
            PlayerAction::CursorMove { x, y, .. } => self.cursor_move_action(game, x, y),
            PlayerAction::WindowLeftClick { .. } => self.left_click_action(game),
            PlayerAction::WindowRightClick { .. } => self.right_click_action(game),
            PlayerAction::PressSpace => self.spacebar_action(game),
        }
    }

    /// Window position of a viewport point: shifted right past the side panel.
    pub fn to_window(&self, p: ViewportPoint) -> (r: (i64, i64))
        requires
            p.x <= WINDOW_LIMIT,
        ensures
            r.0 == p.x + self.offset_left_spec(),
            r.1 == p.y,
    {
        (p.x + self.offset_left as i64, p.y)
    }
}

} // verus!
