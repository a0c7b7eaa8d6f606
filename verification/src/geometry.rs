//! The plain geometric values the game works on, and the bound that keeps
//! their arithmetic inside `i64`.

use vstd::prelude::*;

verus! {

/// Largest magnitude admitted for a coordinate, size, radius, speed or
/// velocity component. Squares of differences of such values, and sums of two
/// such squares, stay far inside `i64`.
pub const COORD_LIMIT: i64 = 100_000_000;

/// A value small enough to serve as a coordinate, size, radius or speed.
pub open spec fn coord_ok(v: int) -> bool {
    -(COORD_LIMIT as int) <= v <= COORD_LIMIT as int
}

/// A ball coordinate with room for a few steps of drift past `coord_ok`:
/// one translation and two collision replacements keep a coordinate that
/// started within `coord_ok` inside this band.
pub open spec fn coord_wide(v: int) -> bool {
    -4 * (COORD_LIMIT as int) <= v <= 4 * (COORD_LIMIT as int)
}

/// Clamping a value into `[lo, hi]`, testing the low end first.
pub open spec fn clamp_int(v: int, lo: int, hi: int) -> int {
    if v < lo {
        lo
    } else if v > hi {
        hi
    } else {
        v
    }
}

/// Absolute value.
pub open spec fn abs_int(v: int) -> int {
    if v < 0 {
        -v
    } else {
        v
    }
}

/// A point in the plane.
#[derive(Clone, Copy, Debug, PartialEq, Eq, Structural)]
pub struct Point {
    pub x: i64,
    pub y: i64,
}

/// A per-frame displacement.
#[derive(Clone, Copy, Debug, PartialEq, Eq, Structural)]
pub struct Velocity {
    pub dx: i64,
    pub dy: i64,
}

/// An axis-aligned rectangle given by its top-left corner and its size.
#[derive(Clone, Copy, Debug, PartialEq, Eq, Structural)]
pub struct Rect {
    pub x: i64,
    pub y: i64,
    pub width: i64,
    pub height: i64,
}

/// An RGBA display attribute; cosmetic only, never read by the game rules.
#[derive(Clone, Copy, Debug, PartialEq, Eq, Structural)]
pub struct Color {
    pub r: u8,
    pub g: u8,
    pub b: u8,
    pub a: u8,
}

/// The mathematical value of a rectangle.
pub ghost struct RectView {
    pub x: int,
    pub y: int,
    pub width: int,
    pub height: int,
}

impl View for Rect {
    type V = RectView;

    open spec fn view(&self) -> RectView {
        RectView {
            x: self.x as int,
            y: self.y as int,
            width: self.width as int,
            height: self.height as int,
        }
    }
}

impl RectView {
    /// A rectangle of positive size whose values the library admits.
    pub open spec fn wf(self) -> bool {
        &&& coord_ok(self.x)
        &&& coord_ok(self.y)
        &&& 0 < self.width
        &&& coord_ok(self.width)
        &&& 0 < self.height
        &&& coord_ok(self.height)
    }
}

/// The rectangle sits fully within the vertical bounds of a field of the
/// given height.
pub open spec fn in_field(r: RectView, field_height: int) -> bool {
    0 <= r.y && r.y + r.height <= field_height
}

} // verus!
