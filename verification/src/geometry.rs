//! Integer points, sizes, and rectangles in the shared coordinate space.
//!
//! All coordinates are whole physical pixels. Logical and physical space
//! coincide here because every output runs at scale 1.

use vstd::prelude::*;

verus! {

/// A point in the shared 2-D space, in whole pixels.
#[derive(Clone, Copy, PartialEq, Eq, Structural, Debug)]
pub struct Point {
    pub x: i32,
    pub y: i32,
}

/// A width/height pair, in whole pixels.
#[derive(Clone, Copy, PartialEq, Eq, Structural, Debug)]
pub struct Size {
    pub w: i32,
    pub h: i32,
}

/// An axis-aligned rectangle: origin plus size.
#[derive(Clone, Copy, PartialEq, Eq, Structural, Debug)]
pub struct Rect {
    pub pos: Point,
    pub size: Size,
}

impl Size {
    /// A size a surface or mode can actually have: both extents positive.
    pub open spec fn positive(self) -> bool {
        self.w >= 1 && self.h >= 1
    }
}

impl Rect {
    /// Membership in the half-open pixel box `[x, x+w) x [y, y+h)`.
    pub open spec fn spec_contains(self, p: Point) -> bool {
        &&& self.pos.x <= p.x < self.pos.x + self.size.w
        &&& self.pos.y <= p.y < self.pos.y + self.size.h
    }

    /// Hit test against this rectangle.
    pub fn contains(&self, p: Point) -> (r: bool)
        ensures
            r == self.spec_contains(p),
    {
        let right: i64 = self.pos.x as i64 + self.size.w as i64;
        let bottom: i64 = self.pos.y as i64 + self.size.h as i64;
        self.pos.x <= p.x && (p.x as i64) < right && self.pos.y <= p.y && (p.y as i64) < bottom
    }
}

} // verus!
