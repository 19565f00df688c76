//! Points, sizes and rectangles on the integer pixel grid.
//!
//! Window frames, display bounds and capture source rectangles are all
//! axis-aligned pixel rectangles, so the library keeps them as exact
//! integer coordinates.

use vstd::prelude::*;

verus! {

#[derive(Copy, Clone, Debug, PartialEq, Eq, Structural)]
pub struct Point {
    pub x: i64,
    pub y: i64,
}

#[derive(Copy, Clone, Debug, PartialEq, Eq, Structural)]
pub struct Size {
    pub width: i64,
    pub height: i64,
}

#[derive(Copy, Clone, Debug, PartialEq, Eq, Structural)]
pub struct Rect {
    pub origin: Point,
    pub size: Size,
}

impl Point {
    pub fn zero() -> (r: Point)
        ensures
            r == (Point { x: 0i64, y: 0i64 }),
    {
        Point { x: 0, y: 0 }
    }
}

impl Size {
    pub fn zero() -> (r: Size)
        ensures
            r == (Size { width: 0i64, height: 0i64 }),
    {
        Size { width: 0, height: 0 }
    }
}

impl Rect {
    /// Whether `p` lies inside this rectangle, borders included.
    pub open spec fn spec_contains(self, p: Point) -> bool {
        &&& p.x >= self.origin.x
        &&& p.y >= self.origin.y
        &&& p.x <= self.origin.x + self.size.width
        &&& p.y <= self.origin.y + self.size.height
    }

    pub fn zero() -> (r: Rect)
        ensures
            r == (Rect { origin: Point { x: 0i64, y: 0i64 }, size: Size { width: 0i64, height: 0i64 } }),
    {
        Rect { origin: Point { x: 0, y: 0 }, size: Size { width: 0, height: 0 } }
    }

    pub fn contains(&self, p: Point) -> (r: bool)
        ensures
            r == self.spec_contains(p),
    {
        let px: i128 = p.x as i128;
        let py: i128 = p.y as i128;
        px >= self.origin.x as i128 && py >= self.origin.y as i128
            && px <= self.origin.x as i128 + self.size.width as i128
            && py <= self.origin.y as i128 + self.size.height as i128
    }

    /// Builds a rectangle from left/top/right/bottom edge coordinates, as
    /// window and monitor bounds are reported.
    pub fn from_bounds(left: i32, top: i32, right: i32, bottom: i32) -> (r: Rect)
        ensures
            r.origin.x == left as int,
            r.origin.y == top as int,
            r.size.width == right - left,
            r.size.height == bottom - top,
    {
        Rect {
            origin: Point { x: left as i64, y: top as i64 },
            size: Size {
                width: right as i64 - left as i64,
                height: bottom as i64 - top as i64,
            },
        }
    }
}

} // verus!
