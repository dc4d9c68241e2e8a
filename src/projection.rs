//! The fixed-angle isometric map between the world plane and screen pixels.
//!
//! The angle is 26.22 degrees; its cosine and sine are carried as integers in
//! ten-thousandths, so both directions are exact integer arithmetic. Screen
//! positions are exact rationals over `TRIG_DENOM` and world positions exact
//! rationals over `INVERSE_DENOM`, so the two maps undo each other exactly;
//! only where a pixel is produced is the screen position truncated toward zero.

use vstd::prelude::*;
use vstd::arithmetic::div_mod::{lemma_fundamental_div_mod, lemma_mod_pos_bound};

verus! {

/// Pixels per world unit along each world axis, before the angle is applied.
pub const GRID_SCALE: i64 = 30;

/// Pixels that one unit of height lifts a point on screen.
pub const HEIGHT_UNIT_OFFSET: i64 = 10;

/// Fixed-point denominator of the two trigonometric constants.
pub const TRIG_DENOM: i64 = 10000;

/// `cos(26.22°)` in ten-thousandths.
pub const ISO_COS: i64 = 8971;

/// `sin(26.22°)` in ten-thousandths.
pub const ISO_SIN: i64 = 4418;

/// Denominator of inverse-mapped world coordinates: `2 cos θ sin θ S` in
/// fixed point.
pub const INVERSE_DENOM: i64 = 2 * ISO_COS * ISO_SIN * GRID_SCALE;

/// Largest pixel coordinate magnitude that the inverse map accepts.
pub const SCREEN_LIMIT: i64 = 17179869184;

/// Largest screen numerator magnitude (over `TRIG_DENOM`) that the inverse map accepts.
pub const NUMERATOR_LIMIT: i64 = SCREEN_LIMIT * TRIG_DENOM;

/// A grid-aligned point on the world surface, with the height of the ground there.
#[derive(PartialEq, Eq, Structural, Clone, Copy, Debug)]
pub struct WorldPoint {
    pub x: i32,
    pub y: i32,
    pub h: u8,
}

/// An unpanned screen position, relative to the projection of the world origin.
#[derive(PartialEq, Eq, Structural, Clone, Copy, Debug)]
pub struct ScreenPoint {
    pub x: i64,
    pub y: i64,
}

/// A point of the world plane recovered from the screen, in exact rational
/// coordinates `(x_num / INVERSE_DENOM, y_num / INVERSE_DENOM)` at height zero.
#[derive(PartialEq, Eq, Structural, Clone, Copy, Debug)]
pub struct FineWorldPoint {
    pub x_num: i64,
    pub y_num: i64,
}

/// Division rounding toward zero, as a cast from a real number to an integer does.
pub open spec fn trunc_div(a: int, d: int) -> int {
    if a >= 0 {
        a / d
    } else {
        -((-a) / d)
    }
}

/// `TRIG_DENOM` times the screen x of world point `(x, y)`: `(x S - y S) cos θ`.
pub open spec fn forward_x(x: int, y: int) -> int {
    (x - y) * (GRID_SCALE * ISO_COS)
}

/// `TRIG_DENOM` times the screen y of world point `(x, y)` at height `h`:
/// `(x S + y S) sin θ - h U`.
pub open spec fn forward_y(x: int, y: int, h: int) -> int {
    (x + y) * (GRID_SCALE * ISO_SIN) - h * (HEIGHT_UNIT_OFFSET * TRIG_DENOM)
}

/// Pixel column of world point `(x, y)`: its screen x truncated.
pub open spec fn project_x(x: int, y: int) -> int {
    trunc_div(forward_x(x, y), TRIG_DENOM as int)
}

/// Pixel row of world point `(x, y)` at height `h`: its screen y truncated.
pub open spec fn project_y(x: int, y: int, h: int) -> int {
    trunc_div(forward_y(x, y, h), TRIG_DENOM as int)
}

/// `INVERSE_DENOM` times the world x of the screen point
/// `(sx_num / TRIG_DENOM, sy_num / TRIG_DENOM)`: `(sx / (2 cos θ) + sy / (2 sin θ)) / S`.
pub open spec fn unproject_x(sx_num: int, sy_num: int) -> int {
    sx_num * ISO_SIN + sy_num * ISO_COS
}

/// `INVERSE_DENOM` times the world y of the screen point
/// `(sx_num / TRIG_DENOM, sy_num / TRIG_DENOM)`: `(-sx / (2 cos θ) + sy / (2 sin θ)) / S`.
pub open spec fn unproject_y(sx_num: int, sy_num: int) -> int {
    sy_num * ISO_COS - sx_num * ISO_SIN
}

pub open spec fn screen_in_range(sx: int, sy: int) -> bool {
    -SCREEN_LIMIT <= sx <= SCREEN_LIMIT && -SCREEN_LIMIT <= sy <= SCREEN_LIMIT
}

/// The remainder left by truncating division is smaller than the divisor and
/// has the sign of the dividend.
pub proof fn lemma_trunc_div_remainder(a: int, d: int)
    requires
        d > 0,
    ensures
        a >= 0 ==> 0 <= a - d * trunc_div(a, d) < d,
        a < 0 ==> -d < a - d * trunc_div(a, d) <= 0,
{
    if a >= 0 {
        lemma_fundamental_div_mod(a, d);
        lemma_mod_pos_bound(a, d);
    } else {
        lemma_fundamental_div_mod(-a, d);
        lemma_mod_pos_bound(-a, d);
        let q = (-a) / d;
        assert(d * (-q) == -(d * q)) by (nonlinear_arith);
    }
}

/// Truncating division by a positive divisor never grows the magnitude.
pub proof fn lemma_trunc_div_bound(a: int, d: int, m: int)
    requires
        d > 0,
        -m <= a <= m,
    ensures
        -m <= trunc_div(a, d) <= m,
{
    if a >= 0 {
        lemma_fundamental_div_mod(a, d);
        lemma_mod_pos_bound(a, d);
        let q = a / d;
        assert(q >= 0) by (nonlinear_arith)
            requires
                a == d * q + a % d,
                a % d < d,
                a >= 0,
                d >= 1,
        ;
        assert(q <= a) by (nonlinear_arith)
            requires
                a == d * q + a % d,
                a % d >= 0,
                d >= 1,
                q >= 0,
        ;
    } else {
        lemma_fundamental_div_mod(-a, d);
        lemma_mod_pos_bound(-a, d);
        let q = (-a) / d;
        assert(q >= 0) by (nonlinear_arith)
            requires
                -a == d * q + (-a) % d,
                (-a) % d < d,
                -a >= 0,
                d >= 1,
        ;
        assert(q <= -a) by (nonlinear_arith)
            requires
                -a == d * q + (-a) % d,
                (-a) % d >= 0,
                d >= 1,
                q >= 0,
        ;
    }
}

pub(crate) fn trunc_div_i64(a: i64, d: i64) -> (r: i64)
    requires
        d > 0,
        a > i64::MIN,
    ensures
        r == trunc_div(a as int, d as int),
{
    if a >= 0 {
        ((a as u64) / (d as u64)) as i64
    } else {
        -((((-a) as u64) / (d as u64)) as i64)
    }
}

impl ScreenPoint {
    /// Forward map of world point `(x, y)` at height `h` to screen offsets,
    /// exactly, as numerators over `TRIG_DENOM`.
    pub fn transform(x: i32, y: i32, h: u8) -> (r: (i64, i64))
        ensures
            r.0 == forward_x(x as int, y as int),
            r.1 == forward_y(x as int, y as int, h as int),
    {
        let dx = x as i64 - y as i64;
        let sum = x as i64 + y as i64;
        proof {
            assert(-4294967296 * 269130 <= dx * (GRID_SCALE * ISO_COS) <= 4294967296 * 269130) by (nonlinear_arith)
                requires
                    -4294967296 <= dx <= 4294967296,
                    GRID_SCALE * ISO_COS == 269130,
            ;
            assert(-4294967296 * 132540 <= sum * (GRID_SCALE * ISO_SIN) <= 4294967296 * 132540)
                by (nonlinear_arith)
                requires
                    -4294967296 <= sum <= 4294967296,
                    GRID_SCALE * ISO_SIN == 132540,
            ;
            assert(0 <= (h as i64) * (HEIGHT_UNIT_OFFSET * TRIG_DENOM) <= 255 * 100000) by (nonlinear_arith)
                requires
                    0 <= h <= 255,
                    HEIGHT_UNIT_OFFSET * TRIG_DENOM == 100000,
            ;
        }
        (dx * (GRID_SCALE * ISO_COS), sum * (GRID_SCALE * ISO_SIN) - (h as i64) * (HEIGHT_UNIT_OFFSET
            * TRIG_DENOM))
    }

    /// The pixel a world point falls on: its screen position truncated.
    pub fn from_world(p: &WorldPoint) -> (r: ScreenPoint)
        ensures
            r.x == project_x(p.x as int, p.y as int),
            r.y == project_y(p.x as int, p.y as int, p.h as int),
    {
        let (x_num, y_num) = Self::transform(p.x, p.y, p.h);
        proof {
            assert(x_num > i64::MIN && y_num > i64::MIN) by (nonlinear_arith)
                requires
                    x_num == (p.x - p.y) * (GRID_SCALE * ISO_COS),
                    y_num == (p.x + p.y) * (GRID_SCALE * ISO_SIN) - p.h * (HEIGHT_UNIT_OFFSET * TRIG_DENOM),
                    -4294967296 <= p.x - p.y <= 4294967296,
                    -4294967296 <= p.x + p.y <= 4294967296,
                    0 <= p.h <= 255,
                    GRID_SCALE * ISO_COS == 269130,
                    GRID_SCALE * ISO_SIN == 132540,
                    HEIGHT_UNIT_OFFSET * TRIG_DENOM == 100000,
            ;
        }
        ScreenPoint { x: trunc_div_i64(x_num, TRIG_DENOM), y: trunc_div_i64(y_num, TRIG_DENOM) }
    }
}

impl FineWorldPoint {
    /// Inverse map of the screen offsets `(sx_num / TRIG_DENOM, sy_num / TRIG_DENOM)`
    /// to the world plane at height zero, as numerators over `INVERSE_DENOM`.
    pub fn inverse_transform(sx_num: i64, sy_num: i64) -> (r: (i64, i64))
        requires
            -NUMERATOR_LIMIT <= sx_num <= NUMERATOR_LIMIT,
            -NUMERATOR_LIMIT <= sy_num <= NUMERATOR_LIMIT,
        ensures
            r.0 == unproject_x(sx_num as int, sy_num as int),
            r.1 == unproject_y(sx_num as int, sy_num as int),
            -NUMERATOR_LIMIT * 13389 <= r.0 <= NUMERATOR_LIMIT * 13389,
            -NUMERATOR_LIMIT * 13389 <= r.1 <= NUMERATOR_LIMIT * 13389,
    {
        proof {
            assert(-NUMERATOR_LIMIT * ISO_SIN <= sx_num * ISO_SIN <= NUMERATOR_LIMIT * ISO_SIN)
                by (nonlinear_arith)
                requires
                    -NUMERATOR_LIMIT <= sx_num <= NUMERATOR_LIMIT,
                    ISO_SIN > 0,
            ;
            assert(-NUMERATOR_LIMIT * ISO_COS <= sy_num * ISO_COS <= NUMERATOR_LIMIT * ISO_COS)
                by (nonlinear_arith)
                requires
                    -NUMERATOR_LIMIT <= sy_num <= NUMERATOR_LIMIT,
                    ISO_COS > 0,
            ;
        }
        (sx_num * ISO_SIN + sy_num * ISO_COS, sy_num * ISO_COS - sx_num * ISO_SIN)
    }

    /// The world point under a pixel.
    pub fn from_screen(p: &ScreenPoint) -> (r: FineWorldPoint)
        requires
            screen_in_range(p.x as int, p.y as int),
        ensures
            r.x_num == unproject_x(p.x * TRIG_DENOM, p.y * TRIG_DENOM),
            r.y_num == unproject_y(p.x * TRIG_DENOM, p.y * TRIG_DENOM),
            -NUMERATOR_LIMIT * 13389 <= r.x_num <= NUMERATOR_LIMIT * 13389,
            -NUMERATOR_LIMIT * 13389 <= r.y_num <= NUMERATOR_LIMIT * 13389,
    {
        proof {
            assert(-NUMERATOR_LIMIT <= p.x * TRIG_DENOM <= NUMERATOR_LIMIT) by (nonlinear_arith)
                requires
                    -SCREEN_LIMIT <= p.x <= SCREEN_LIMIT,
                    NUMERATOR_LIMIT == SCREEN_LIMIT * TRIG_DENOM,
                    TRIG_DENOM > 0,
            ;
            assert(-NUMERATOR_LIMIT <= p.y * TRIG_DENOM <= NUMERATOR_LIMIT) by (nonlinear_arith)
                requires
                    -SCREEN_LIMIT <= p.y <= SCREEN_LIMIT,
                    NUMERATOR_LIMIT == SCREEN_LIMIT * TRIG_DENOM,
                    TRIG_DENOM > 0,
            ;
        }
        let (x_num, y_num) = Self::inverse_transform(p.x * TRIG_DENOM, p.y * TRIG_DENOM);
        FineWorldPoint { x_num, y_num }
    }
}

/// Mapping a world point at height zero to the screen and back gives exactly
/// the point it started from.
pub proof fn lemma_round_trip(x: int, y: int)
    ensures
        unproject_x(forward_x(x, y), forward_y(x, y, 0)) == x * INVERSE_DENOM,
        unproject_y(forward_x(x, y), forward_y(x, y, 0)) == y * INVERSE_DENOM,
{
    let a = forward_x(x, y);
    let b = forward_y(x, y, 0);
    assert(a * ISO_SIN + b * ISO_COS == x * INVERSE_DENOM) by (nonlinear_arith)
        requires
            a == (x - y) * (GRID_SCALE * ISO_COS),
            b == (x + y) * (GRID_SCALE * ISO_SIN) - 0 * (HEIGHT_UNIT_OFFSET * TRIG_DENOM),
            INVERSE_DENOM == 2 * ISO_COS * ISO_SIN * GRID_SCALE,
    ;
    assert(b * ISO_COS - a * ISO_SIN == y * INVERSE_DENOM) by (nonlinear_arith)
        requires
            a == (x - y) * (GRID_SCALE * ISO_COS),
            b == (x + y) * (GRID_SCALE * ISO_SIN) - 0 * (HEIGHT_UNIT_OFFSET * TRIG_DENOM),
            INVERSE_DENOM == 2 * ISO_COS * ISO_SIN * GRID_SCALE,
    ;
}

/// Mapping a world point at height zero to its pixel and back lands within
/// `TRIG_DENOM * (ISO_SIN + ISO_COS) / INVERSE_DENOM` (under 0.06) of a world
/// unit of where it started, on each axis: the gap is the rounding to whole
/// pixels, which hit testing works from.
pub proof fn lemma_pixel_round_trip(x: int, y: int)
    ensures
        -TRIG_DENOM * (ISO_SIN + ISO_COS) < unproject_x(
            project_x(x, y) * TRIG_DENOM,
            project_y(x, y, 0) * TRIG_DENOM,
        ) - x * INVERSE_DENOM < TRIG_DENOM * (ISO_SIN + ISO_COS),
        -TRIG_DENOM * (ISO_SIN + ISO_COS) < unproject_y(
            project_x(x, y) * TRIG_DENOM,
            project_y(x, y, 0) * TRIG_DENOM,
        ) - y * INVERSE_DENOM < TRIG_DENOM * (ISO_SIN + ISO_COS),
{
    let a = forward_x(x, y);
    let b = forward_y(x, y, 0);
    let d = TRIG_DENOM as int;
    lemma_trunc_div_remainder(a, d);
    lemma_trunc_div_remainder(b, d);
    lemma_round_trip(x, y);
    let sx = trunc_div(a, d);
    let sy = trunc_div(b, d);
    let rx = a - d * sx;
    let ry = b - d * sy;
    assert(-d < rx < d);
    assert(-d < ry < d);
    assert(unproject_x(sx * d, sy * d) == unproject_x(a, b) - rx * ISO_SIN - ry * ISO_COS)
        by (nonlinear_arith)
        requires
            rx == a - d * sx,
            ry == b - d * sy,
    ;
    assert(unproject_y(sx * d, sy * d) == unproject_y(a, b) - ry * ISO_COS + rx * ISO_SIN)
        by (nonlinear_arith)
        requires
            rx == a - d * sx,
            ry == b - d * sy,
    ;
    assert(-d * ISO_SIN < rx * ISO_SIN < d * ISO_SIN) by (nonlinear_arith)
        requires
            -d < rx < d,
            ISO_SIN > 0,
    ;
    assert(-d * ISO_COS < ry * ISO_COS < d * ISO_COS) by (nonlinear_arith)
        requires
            -d < ry < d,
            ISO_COS > 0,
    ;
}

} // verus!
