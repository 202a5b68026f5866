//! Points and rectangles in logical pixel coordinates.
//!
//! Coordinates are whole logical pixels: the backend samples cursor
//! positions and window sizes as integers, and every rule below (hit
//! testing, clipping) is stated over those integers.

use vstd::prelude::*;

verus! {

/// A 2-D point in logical pixel coordinates.
#[derive(Clone, Copy, PartialEq, Eq, Structural, Debug)]
pub struct Point {
    pub x: i32,
    pub y: i32,
}

impl Point {
    pub fn new(x: i32, y: i32) -> (p: Point)
        ensures
            p == (Point { x, y }),
    {
        Point { x, y }
    }
}

/// An axis-aligned rectangle: origin at its top-left corner, extending
/// `w` pixels right and `h` pixels down.
#[derive(Clone, Copy, PartialEq, Eq, Structural, Debug)]
pub struct Rect {
    pub x: i32,
    pub y: i32,
    pub w: i32,
    pub h: i32,
}

impl Rect {
    pub fn new(x: i32, y: i32, w: i32, h: i32) -> (r: Rect)
        ensures
            r == (Rect { x, y, w, h }),
    {
        Rect { x, y, w, h }
    }
}

/// A point lies in a rectangle when it is on or right of the left edge,
/// strictly left of the right edge, and likewise for top and bottom.
pub open spec fn rect_contains(r: Rect, p: Point) -> bool {
    &&& r.x <= p.x < r.x + r.w
    &&& r.y <= p.y < r.y + r.h
}

/// Hit test: does `p` lie in `r`?
pub fn rect_contains_point(r: &Rect, p: &Point) -> (b: bool)
    ensures
        b == rect_contains(*r, *p),
{
    let right: i64 = r.x as i64 + r.w as i64;
    let bottom: i64 = r.y as i64 + r.h as i64;
    r.x <= p.x && (p.x as i64) < right && r.y <= p.y && (p.y as i64) < bottom
}

} // verus!
