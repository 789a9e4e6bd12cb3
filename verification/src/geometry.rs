//! Sizes, rectangles and colors as whole numbers.
//!
//! Positions on the drawing surface are counted in halves of a unit, so that
//! the center of a surface of odd width is still a whole number.

use vstd::prelude::*;

verus! {

/// How many steps of a surface coordinate make one unit.
pub const HALVES_PER_UNIT: i64 = 2;

/// A size in whole pixels.
#[derive(Clone, Copy, Debug, PartialEq, Eq, Structural)]
pub struct SizeU {
    pub width: u32,
    pub height: u32,
}

/// The client area of a window, as the host reports it.
#[derive(Clone, Copy, Debug, PartialEq, Eq, Structural)]
pub struct ClientRect {
    pub left: i32,
    pub top: i32,
    pub right: i32,
    pub bottom: i32,
}

/// A position on the surface, in halves of a unit.
#[derive(Clone, Copy, Debug, PartialEq, Eq, Structural)]
pub struct Point {
    pub x: i64,
    pub y: i64,
}

/// An axis-aligned rectangle on the surface, in halves of a unit.
#[derive(Clone, Copy, Debug, PartialEq, Eq, Structural)]
pub struct Rect {
    pub left: i64,
    pub top: i64,
    pub right: i64,
    pub bottom: i64,
}

/// A color with eight bits for each of red, green, blue and opacity.
#[derive(Clone, Copy, Debug, PartialEq, Eq, Structural)]
pub struct Color {
    pub r: u8,
    pub g: u8,
    pub b: u8,
    pub a: u8,
}

/// The distance from `lo` to `hi` as an unsigned 32-bit number: `hi - lo`
/// where that is not negative, and 2^32 more where it is.
pub open spec fn span(lo: int, hi: int) -> int {
    (hi - lo) % 0x1_0000_0000
}

/// Computes `span` for two 32-bit coordinates.
pub fn span_of(lo: i32, hi: i32) -> (d: u32)
    ensures
        d == span(lo as int, hi as int),
        lo <= hi ==> d == hi - lo,
{
    let diff: i64 = hi as i64 - lo as i64;
    if diff < 0 {
        (diff + 0x1_0000_0000) as u32
    } else {
        diff as u32
    }
}

impl ClientRect {
    /// The size of the render target that covers this client area.
    pub open spec fn pixel_size_spec(&self) -> SizeU {
        SizeU {
            width: span(self.left as int, self.right as int) as u32,
            height: span(self.top as int, self.bottom as int) as u32,
        }
    }

    /// The size of the render target that covers this client area: its width
    /// is `right - left` and its height `bottom - top`.
    #[verifier::when_used_as_spec(pixel_size_spec)]
    pub fn pixel_size(&self) -> (size: SizeU)
        ensures
            size == self.pixel_size_spec(),
            self.left <= self.right ==> size.width == self.right - self.left,
            self.top <= self.bottom ==> size.height == self.bottom - self.top,
    {
        SizeU { width: span_of(self.left, self.right), height: span_of(self.top, self.bottom) }
    }
}

impl Color {
    /// The opaque color with the given red, green and blue parts of 255.
    pub open spec fn opaque(r: u8, g: u8, b: u8) -> Color {
        Color { r, g, b, a: 255 }
    }

    /// Builds the opaque color with the given red, green and blue parts of 255.
    pub fn rgb(r: u8, g: u8, b: u8) -> (color: Color)
        ensures
            color == Color::opaque(r, g, b),
    {
        Color { r, g, b, a: 255 }
    }
}

} // verus!
