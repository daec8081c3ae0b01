//! Plain value types shared by the batch, the collision check and the scene.

use vstd::prelude::*;

verus! {

/// A point, or a displacement, in whole pixels (y grows upward).
#[derive(Clone, Copy, Debug, PartialEq, Eq, Structural)]
pub struct Point {
    pub x: i32,
    pub y: i32,
}

/// A size counted in grid cells; one cell is the batch's cell size in pixels.
#[derive(Clone, Copy, Debug, PartialEq, Eq, Structural)]
pub struct Extent {
    pub w: u16,
    pub h: u16,
}

/// A flat RGB tint, one byte per channel.
#[derive(Clone, Copy, Debug, PartialEq, Eq, Structural)]
pub struct Color {
    pub r: u8,
    pub g: u8,
    pub b: u8,
}

/// One corner of a quad as handed to the presentation layer.
#[derive(Clone, Copy, Debug, PartialEq, Eq, Structural)]
pub struct Vertex {
    pub x: i64,
    pub y: i64,
    pub color: Color,
}

/// The sum of two points, as integers.
pub open spec fn offset(p: Point, d: Point) -> Point {
    Point { x: (p.x + d.x) as i32, y: (p.y + d.y) as i32 }
}

/// Whether `p + d` has both coordinates within `i32`.
pub open spec fn offset_fits(p: Point, d: Point) -> bool {
    i32::MIN <= p.x + d.x <= i32::MAX && i32::MIN <= p.y + d.y <= i32::MAX
}

/// Builds a point from its two coordinates.
pub fn point(x: i32, y: i32) -> (r: Point)
    ensures
        r.x == x,
        r.y == y,
{
    Point { x, y }
}

/// Builds an extent of `w` by `h` cells.
pub fn extent(w: u16, h: u16) -> (r: Extent)
    ensures
        r.w == w,
        r.h == h,
{
    Extent { w, h }
}

/// Builds a color from its three channels.
pub fn color(r: u8, g: u8, b: u8) -> (c: Color)
    ensures
        c.r == r,
        c.g == g,
        c.b == b,
{
    Color { r, g, b }
}

/// Adds a displacement to a point.
pub fn add_points(p: Point, d: Point) -> (r: Point)
    requires
        offset_fits(p, d),
    ensures
        r == offset(p, d),
{
    Point { x: p.x + d.x, y: p.y + d.y }
}

} // verus!
