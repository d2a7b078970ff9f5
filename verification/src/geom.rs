//! Screen-space geometry: points, extents, rectangles, and the proximity
//! test that the hover resolver uses while a plug is dragged.

use vstd::prelude::*;

verus! {

/// A point in UI screen space, in whole screen units.
#[derive(Debug, Clone, Copy, PartialEq, Eq, Structural)]
pub struct Pos {
    pub x: i32,
    pub y: i32,
}

impl Pos {
    pub fn new(x: i32, y: i32) -> (r: Self)
        ensures
            r == (Pos { x, y }),
    {
        Pos { x, y }
    }
}

/// A widget extent: width and height, never negative.
#[derive(Debug, Clone, Copy, PartialEq, Eq, Structural)]
pub struct Size {
    pub w: u32,
    pub h: u32,
}

impl Size {
    pub fn new(w: u32, h: u32) -> (r: Self)
        ensures
            r == (Size { w, h }),
    {
        Size { w, h }
    }
}

/// A pointer movement accumulated during one frame of a drag gesture.
#[derive(Debug, Clone, Copy, PartialEq, Eq, Structural)]
pub struct Delta {
    pub x: i32,
    pub y: i32,
}

impl Delta {
    pub fn new(x: i32, y: i32) -> (r: Self)
        ensures
            r == (Delta { x, y }),
    {
        Delta { x, y }
    }
}

/// A rectangle given by its top-left corner and its extent.
#[derive(Debug, Clone, Copy, PartialEq, Eq, Structural)]
pub struct Rect {
    pub min: Pos,
    pub size: Size,
}

impl Rect {
    pub fn new(min: Pos, size: Size) -> (r: Self)
        ensures
            r == (Rect { min, size }),
    {
        Rect { min, size }
    }
}

/// Twice the x coordinate of the rectangle's center. Working with doubled
/// coordinates keeps the center exact even for odd extents.
pub open spec fn center2_x(rect: Rect) -> int {
    2 * rect.min.x + rect.size.w
}

/// Twice the y coordinate of the rectangle's center.
pub open spec fn center2_y(rect: Rect) -> int {
    2 * rect.min.y + rect.size.h
}

/// The smaller of an extent's width and height.
pub open spec fn min_extent(size: Size) -> int {
    if size.w <= size.h {
        size.w as int
    } else {
        size.h as int
    }
}

} // verus!
