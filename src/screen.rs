//! Window size and the integer high-DPI scale between window and drawable pixels.

use vstd::prelude::*;

verus! {

/// Largest magnitude that survives scaling by four in an `i32`.
pub const SCALABLE_LIMIT: i32 = 536870911;

/// Drawable pixels per window pixel; fractional or uneven scales count as unscaled.
#[derive(PartialEq, Eq, Structural, Clone, Copy, Debug)]
pub enum HiDpiScale {
    X1,
    X2,
    X3,
    X4,
}

impl HiDpiScale {
    pub open spec fn factor(self) -> int {
        match self {
            HiDpiScale::X1 => 1,
            HiDpiScale::X2 => 2,
            HiDpiScale::X3 => 3,
            HiDpiScale::X4 => 4,
        }
    }

    pub fn scale(&self, input: i32) -> (r: i32)
        requires
            -SCALABLE_LIMIT <= input <= SCALABLE_LIMIT,
        ensures
            r == input * self.factor(),
    {
        match self {
            HiDpiScale::X1 => input,
            HiDpiScale::X2 => input * 2,
            HiDpiScale::X3 => input * 3,
            HiDpiScale::X4 => input * 4,
        }
    }
}

/// The scale whose factor both axes share, or none.
pub open spec fn scale_of(scale_x: int, scale_y: int) -> HiDpiScale {
    if scale_x == 2 && scale_y == 2 {
        HiDpiScale::X2
    } else if scale_x == 3 && scale_y == 3 {
        HiDpiScale::X3
    } else if scale_x == 4 && scale_y == 4 {
        HiDpiScale::X4
    } else {
        HiDpiScale::X1
    }
}

#[derive(PartialEq, Eq, Structural, Clone, Copy, Debug)]
pub struct ScreenState {
    width: u32,
    height: u32,
    hidpi_scale: HiDpiScale,
}

impl ScreenState {
    pub closed spec fn width_spec(&self) -> int {
        self.width as int
    }

    pub closed spec fn height_spec(&self) -> int {
        self.height as int
    }

    pub closed spec fn scale_spec(&self) -> HiDpiScale {
        self.hidpi_scale
    }

    pub open spec fn wf(&self) -> bool {
        self.width_spec() <= SCALABLE_LIMIT && self.height_spec() <= SCALABLE_LIMIT
    }

    /// A window of `window_width` by `window_height` whose drawable area
    /// measures `drawable_width` by `drawable_height`.
    pub fn new(window_width: u32, window_height: u32, drawable_width: u32, drawable_height: u32) -> (r:
        ScreenState)
        requires
            0 < window_width <= SCALABLE_LIMIT,
            0 < window_height <= SCALABLE_LIMIT,
        ensures
            r.wf(),
            r.width_spec() == window_width,
            r.height_spec() == window_height,
            r.scale_spec() == scale_of(
                drawable_width as int / window_width as int,
                drawable_height as int / window_height as int,
            ),
    {
        let scale_x = drawable_width / window_width;
        let scale_y = drawable_height / window_height;
        let scaling = if scale_x == 2 && scale_y == 2 {
            HiDpiScale::X2
        } else if scale_x == 3 && scale_y == 3 {
            HiDpiScale::X3
        } else if scale_x == 4 && scale_y == 4 {
            HiDpiScale::X4
        } else {
            HiDpiScale::X1
        };
        ScreenState { width: window_width, height: window_height, hidpi_scale: scaling }
    }

    /// Size in drawable pixels.
    pub fn size(&self) -> (r: (u32, u32))
        requires
            self.wf(),
        ensures
            r.0 == self.width_spec() * self.scale_spec().factor(),
            r.1 == self.height_spec() * self.scale_spec().factor(),
    {
        (self.hidpi_scale.scale(self.width as i32) as u32, self.hidpi_scale.scale(self.height as i32) as u32)
    }

    pub fn scale_x(&self, x: i32) -> (r: i32)
        requires
            -SCALABLE_LIMIT <= x <= SCALABLE_LIMIT,
        ensures
            r == x * self.scale_spec().factor(),
    {
        self.hidpi_scale.scale(x)
    }

    pub fn scale_y(&self, y: i32) -> (r: i32)
        requires
            -SCALABLE_LIMIT <= y <= SCALABLE_LIMIT,
        ensures
            r == y * self.scale_spec().factor(),
    {
        self.hidpi_scale.scale(y)
    }
}

} // verus!
