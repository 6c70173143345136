//! Integer pixel geometry: points, rectangles and hit tests.
use vstd::prelude::*;

verus! {

/// A point on screen, in whole pixels.
#[derive(Clone, Copy, Debug, PartialEq, Eq, Structural)]
pub struct Point {
    pub x: i64,
    pub y: i64,
}

impl Point {
    pub fn new(x: i64, y: i64) -> (r: Point)
        ensures
            r == (Point { x, y }),
    {
        Point { x, y }
    }
}

/// An axis-aligned rectangle: top-left corner `(x, y)`, width `w`, height `h`.
#[derive(Clone, Copy, Debug, PartialEq, Eq, Structural)]
pub struct Rect {
    pub x: i64,
    pub y: i64,
    pub w: i64,
    pub h: i64,
}

/// A point lies in a rectangle when it is at or right of the left edge, left
/// of the right edge, at or below the top edge and above the bottom edge.
pub open spec fn rect_contains(r: Rect, p: Point) -> bool {
    r.x <= p.x && p.x < r.x + r.w && r.y <= p.y && p.y < r.y + r.h
}

impl Rect {
    pub fn new(x: i64, y: i64, w: i64, h: i64) -> (r: Rect)
        ensures
            r == (Rect { x, y, w, h }),
    {
        Rect { x, y, w, h }
    }

    pub fn contains(&self, p: Point) -> (r: bool)
        ensures
            r == rect_contains(*self, p),
    {
        let right: i128 = self.x as i128 + self.w as i128;
        let bottom: i128 = self.y as i128 + self.h as i128;
        self.x <= p.x && (p.x as i128) < right && self.y <= p.y && (p.y as i128) < bottom
    }
}

/// `p` lies strictly within distance `radius` of `c`.
pub open spec fn within_radius(c: Point, p: Point, radius: int) -> bool {
    (p.x - c.x) * (p.x - c.x) + (p.y - c.y) * (p.y - c.y) < radius * radius
}

} // verus!
