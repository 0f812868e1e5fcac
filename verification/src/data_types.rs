//! Shared geometry value types carried inside events.
use vstd::prelude::*;

verus! {

/// An X11 screen coordinate pair.
#[derive(Debug, Clone, Copy, PartialEq, Eq, Hash)]
pub struct Point {
    /// x position
    pub x: u32,
    /// y position
    pub y: u32,
}

impl Point {
    /// Build a new point from its coordinates.
    pub fn new(x: u32, y: u32) -> (r: Point)
        ensures
            r.x == x,
            r.y == y,
    {
        Point { x, y }
    }
}

/// A rectangular region: position of its top-left corner plus extent.
#[derive(Debug, Clone, Copy, PartialEq, Eq, Hash)]
pub struct Region {
    /// x position of the top-left corner
    pub x: u32,
    /// y position of the top-left corner
    pub y: u32,
    /// width
    pub w: u32,
    /// height
    pub h: u32,
}

impl Region {
    /// Build a new region from its position and extent.
    pub fn new(x: u32, y: u32, w: u32, h: u32) -> (r: Region)
        ensures
            r.x == x,
            r.y == y,
            r.w == w,
            r.h == h,
    {
        Region { x, y, w, h }
    }
}

} // verus!
