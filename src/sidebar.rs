//! The sidebar's button grid: which button lies under a pointer position, and
//! where each button is drawn.

use vstd::prelude::*;
use crate::action::GameAction;
use crate::menu::SidebarMenu;
use crate::projection::{trunc_div, trunc_div_i64};

verus! {

/// Buttons in each row of the grid.
pub const BUTTONS_PER_ROW: u32 = 5;

/// Column and row of a button on the grid.
pub open spec fn button_cell(button: SidebarMenu) -> (u32, u32) {
    match button {
        SidebarMenu::Close => (0, 0),
        SidebarMenu::Save => (1, 0),
        SidebarMenu::Music => (2, 0),
        SidebarMenu::Graphics => (3, 0),
        SidebarMenu::Help => (4, 0),
        SidebarMenu::Rotation => (0, 1),
        SidebarMenu::Metrics => (1, 1),
        SidebarMenu::Finances => (2, 1),
        SidebarMenu::News => (3, 1),
        SidebarMenu::Info => (4, 1),
        SidebarMenu::Navigation => (0, 2),
        SidebarMenu::Building => (1, 2),
        SidebarMenu::Rail => (2, 2),
        SidebarMenu::Demolish => (3, 2),
        SidebarMenu::Point => (4, 2),
    }
}

/// The button in cell `(col, row)`, if the cell is on the grid.
pub open spec fn button_in_cell(col: int, row: int) -> Option<SidebarMenu> {
    if 0 <= col < 5 && 0 <= row < 3 {
        Some(
            choose|b: SidebarMenu| button_cell(b).0 == col && button_cell(b).1 == row,
        )
    } else {
        None
    }
}

/// Each grid cell holds exactly one button, and each button one cell.
pub proof fn lemma_button_cells(b: SidebarMenu)
    ensures
        button_in_cell(button_cell(b).0 as int, button_cell(b).1 as int) == Some(b),
{
    let c = button_cell(b);
    let w = choose|w: SidebarMenu| button_cell(w).0 == c.0 && button_cell(w).1 == c.1;
    assert(button_cell(w).0 == c.0 && button_cell(w).1 == c.1);
}

/// Grid row of `button`.
pub fn button_row(button: SidebarMenu) -> (r: u32)
    ensures
        r == button_cell(button).1,
{
    match button {
        SidebarMenu::Close | SidebarMenu::Save | SidebarMenu::Music | SidebarMenu::Graphics
        | SidebarMenu::Help => 0,
        SidebarMenu::Rotation | SidebarMenu::Metrics | SidebarMenu::Finances | SidebarMenu::News
        | SidebarMenu::Info => 1,
        SidebarMenu::Navigation | SidebarMenu::Building | SidebarMenu::Rail
        | SidebarMenu::Demolish | SidebarMenu::Point => 2,
    }
}

/// Grid column of `button`.
pub fn button_column(button: SidebarMenu) -> (r: u32)
    ensures
        r == button_cell(button).0,
{
    match button {
        SidebarMenu::Close | SidebarMenu::Rotation | SidebarMenu::Navigation => 0,
        SidebarMenu::Save | SidebarMenu::Metrics | SidebarMenu::Building => 1,
        SidebarMenu::Music | SidebarMenu::Finances | SidebarMenu::Rail => 2,
        SidebarMenu::Graphics | SidebarMenu::News | SidebarMenu::Demolish => 3,
        SidebarMenu::Help | SidebarMenu::Info | SidebarMenu::Point => 4,
    }
}

/// Index of `button`'s icon among the fifteen, in row-major grid order.
pub fn button_texture_index(button: SidebarMenu) -> (r: usize)
    ensures
        r == button_cell(button).1 * 5 + button_cell(button).0,
        r < 15,
{
    match button {
        SidebarMenu::Close => 0,
        SidebarMenu::Save => 1,
        SidebarMenu::Music => 2,
        SidebarMenu::Graphics => 3,
        SidebarMenu::Help => 4,
        SidebarMenu::Rotation => 5,
        SidebarMenu::Metrics => 6,
        SidebarMenu::Finances => 7,
        SidebarMenu::News => 8,
        SidebarMenu::Info => 9,
        SidebarMenu::Navigation => 10,
        SidebarMenu::Building => 11,
        SidebarMenu::Rail => 12,
        SidebarMenu::Demolish => 13,
        SidebarMenu::Point => 14,
    }
}

/// The sidebar's geometry: `width` by `height` pixels at the window's left
/// edge, with square buttons five to a row, starting three text lines down.
pub struct Sidebar {
    width: u32,
    height: u32,
    text_height: u32,
}

impl Sidebar {
    pub closed spec fn width_spec(&self) -> int {
        self.width as int
    }

    pub closed spec fn height_spec(&self) -> int {
        self.height as int
    }

    pub closed spec fn text_height_spec(&self) -> int {
        self.text_height as int
    }

    /// Side length of a button.
    pub open spec fn button_size(&self) -> int {
        self.width_spec() / 5
    }

    /// Distance from the top of the sidebar to the button grid.
    pub open spec fn grid_top(&self) -> int {
        self.text_height_spec() * 3
    }

    /// The button under pixel `(x, y)`: the grid cell is found by dividing
    /// each offset by the button size, rounding toward zero. A sidebar too
    /// narrow for buttons has none.
    pub open spec fn button_at(&self, x: int, y: int) -> Option<SidebarMenu> {
        if self.button_size() == 0 {
            None
        } else {
            button_in_cell(
                trunc_div(x, self.button_size()),
                trunc_div(y - self.grid_top(), self.button_size()),
            )
        }
    }

    pub fn new(width: u32, height: u32, text_height: u32) -> (r: Sidebar)
        ensures
            r.width_spec() == width,
            r.height_spec() == height,
            r.text_height_spec() == text_height,
    {
        Sidebar { width, height, text_height }
    }

    pub fn size(&self) -> (r: (u32, u32))
        ensures
            r.0 == self.width_spec(),
            r.1 == self.height_spec(),
    {
        (self.width, self.height)
    }

    /// The button under pixel `(x, y)`, if any.
    pub fn button_under_cursor(&self, x: i32, y: i32) -> (r: Option<SidebarMenu>)
        ensures
            r == self.button_at(x as int, y as int),
    {
        let button_size = (self.width / BUTTONS_PER_ROW) as i64;
        if button_size == 0 {
            return None;
        }
        let grid_top = self.text_height as i64 * 3;
        let col = trunc_div_i64(x as i64, button_size);
        let row = trunc_div_i64(y as i64 - grid_top, button_size);
        let r = if row == 0 {
            if col == 0 {
                Some(SidebarMenu::Close)
            } else if col == 1 {
                Some(SidebarMenu::Save)
            } else if col == 2 {
                Some(SidebarMenu::Music)
            } else if col == 3 {
                Some(SidebarMenu::Graphics)
            } else if col == 4 {
                Some(SidebarMenu::Help)
            } else {
                None
            }
        } else if row == 1 {
            if col == 0 {
                Some(SidebarMenu::Rotation)
            } else if col == 1 {
                Some(SidebarMenu::Metrics)
            } else if col == 2 {
                Some(SidebarMenu::Finances)
            } else if col == 3 {
                Some(SidebarMenu::News)
            } else if col == 4 {
                Some(SidebarMenu::Info)
            } else {
                None
            }
        } else if row == 2 {
            if col == 0 {
                Some(SidebarMenu::Navigation)
            } else if col == 1 {
                Some(SidebarMenu::Building)
            } else if col == 2 {
                Some(SidebarMenu::Rail)
            } else if col == 3 {
                Some(SidebarMenu::Demolish)
            } else if col == 4 {
                Some(SidebarMenu::Point)
            } else {
                None
            }
        } else {
            None
        };
        proof {
            if let Some(b) = r {
                lemma_button_cells(b);
            }
        }
        r
    }

    /// Top-left corner and side length of `button`'s square.
    pub fn button_rect(&self, button: SidebarMenu) -> (r: (i64, i64, u32))
        ensures
            r.0 == button_cell(button).0 * self.button_size(),
            r.1 == button_cell(button).1 * self.button_size() + self.grid_top(),
            r.2 == self.button_size(),
    {
        let button_size = self.width / BUTTONS_PER_ROW;
        let col = button_column(button) as i64;
        let row = button_row(button) as i64;
        proof {
            assert(col * button_size <= 4 * 858993459) by (nonlinear_arith)
                requires
                    0 <= col <= 4,
                    button_size <= 858993459,
            ;
            assert(row * button_size <= 2 * 858993459) by (nonlinear_arith)
                requires
                    0 <= row <= 2,
                    button_size <= 858993459,
            ;
        }
        (col * button_size as i64, row * button_size as i64 + self.text_height as i64 * 3, button_size)
    }

    /// A pointer move over the sidebar hovers the button under it (or nothing).
    pub fn cursor_move_action(&self, x: i32, y: i32) -> (r: Option<GameAction>)
        ensures
            r == Some(GameAction::SidebarHover { button: self.button_at(x as int, y as int) }),
    {
        Some(GameAction::SidebarHover { button: self.button_under_cursor(x, y) })
    }

    /// A left click on a button opens its menu; elsewhere it does nothing.
    pub fn left_click_action(&self, x: i32, y: i32) -> (r: Option<GameAction>)
        ensures
            r == (match self.button_at(x as int, y as int) {
                Some(menu) => Some(GameAction::OpenMenu { menu }),
                None => None,
            }),
    {
        match self.button_under_cursor(x, y) {
            Some(menu) => Some(GameAction::OpenMenu { menu }),
            None => None,
        }
    }
}

} // verus!
