//! Plain geometric value types: points, rectangles and per-corner rounding.
//! All coordinates are integer device units within `COORD_LIMIT`.

use vstd::prelude::*;
use crate::math::in_coord_range;

verus! {

#[derive(Debug, Clone, Copy, PartialEq, Eq, Structural)]
pub struct Point {
    pub x: i64,
    pub y: i64,
}

/// Builds a point from its two coordinates.
pub fn create_point(x: i64, y: i64) -> (p: Point)
    ensures
        p == (Point { x, y }),
{
    Point { x, y }
}

impl Point {
    pub open spec fn wf(self) -> bool {
        in_coord_range(self.x) && in_coord_range(self.y)
    }

    pub fn new(x: i64, y: i64) -> (p: Self)
        ensures
            p == (Point { x, y }),
    {
        Point { x, y }
    }
}

impl Default for Point {
    fn default() -> (p: Self)
        ensures
            p == (Point { x: 0, y: 0 }),
    {
        Point { x: 0, y: 0 }
    }
}

impl From<(i64, i64)> for Point {
    fn from(point: (i64, i64)) -> (p: Self) {
        Point { x: point.0, y: point.1 }
    }
}

impl vstd::std_specs::convert::FromSpecImpl<(i64, i64)> for Point {
    open spec fn obeys_from_spec() -> bool {
        true
    }

    open spec fn from_spec(point: (i64, i64)) -> Self {
        Point { x: point.0, y: point.1 }
    }
}

/// An axis-aligned rectangle given by its four edges, top-left inclusive of
/// `(left, top)` and bottom-right of `(right, bottom)`, y growing downwards.
#[derive(Debug, Clone, Copy, PartialEq, Eq, Structural)]
pub struct Rect {
    pub left: i64,
    pub top: i64,
    pub right: i64,
    pub bottom: i64,
}

impl Rect {
    /// A rectangle the drawing routines accept: non-degenerate orientation
    /// and every edge within the coordinate range.
    pub open spec fn wf(self) -> bool {
        &&& self.left <= self.right
        &&& self.top <= self.bottom
        &&& in_coord_range(self.left)
        &&& in_coord_range(self.top)
        &&& in_coord_range(self.right)
        &&& in_coord_range(self.bottom)
    }

    pub open spec fn width(self) -> int {
        self.right - self.left
    }

    pub open spec fn height(self) -> int {
        self.bottom - self.top
    }

    pub fn new(place: Point, width: i64, height: i64) -> (r: Self)
        requires
            place.wf(),
            0 <= width,
            0 <= height,
            in_coord_range((place.x + width) as i64),
            in_coord_range((place.y + height) as i64),
            place.x + width <= i64::MAX,
            place.y + height <= i64::MAX,
        ensures
            r == (Rect {
                left: place.x,
                top: place.y,
                right: (place.x + width) as i64,
                bottom: (place.y + height) as i64,
            }),
            r.wf(),
    {
        Rect { left: place.x, top: place.y, right: place.x + width, bottom: place.y + height }
    }
}

impl Default for Rect {
    fn default() -> (r: Self)
        ensures
            r == (Rect { left: 0, top: 0, right: 0, bottom: 0 }),
            r.wf(),
    {
        Rect { left: 0, top: 0, right: 0, bottom: 0 }
    }
}

/// Requested rounding radius for each corner of a rectangle.  Radii are
/// clamped by the outline builder; a non-positive radius means a sharp
/// corner.
#[derive(Debug, Clone, Copy, PartialEq, Eq, Structural)]
pub struct RectRound {
    pub top_left: i64,
    pub top_right: i64,
    pub bottom_right: i64,
    pub bottom_left: i64,
}

impl RectRound {
    pub open spec fn wf(self) -> bool {
        &&& in_coord_range(self.top_left)
        &&& in_coord_range(self.top_right)
        &&& in_coord_range(self.bottom_right)
        &&& in_coord_range(self.bottom_left)
    }

    pub fn new(top_left: i64, top_right: i64, bottom_right: i64, bottom_left: i64) -> (r: Self)
        ensures
            r == (RectRound { top_left, top_right, bottom_right, bottom_left }),
    {
        RectRound { top_left, top_right, bottom_right, bottom_left }
    }
}

impl Default for RectRound {
    fn default() -> (r: Self)
        ensures
            r == (RectRound { top_left: 0, top_right: 0, bottom_right: 0, bottom_left: 0 }),
    {
        RectRound { top_left: 0, top_right: 0, bottom_right: 0, bottom_left: 0 }
    }
}

} // verus!
