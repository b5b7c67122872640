//! Points and shapes of the rendering context's plane.
//!
//! A device pixel `(x, y)` is the unit square between the plane's points
//! `(x, y)` and `(x + 1, y + 1)`. Every coordinate that drawing needs is a
//! whole or a half number of pixels, so a coordinate is held as the number
//! of half pixels: twice its value.

use vstd::prelude::*;
use plotters_backend::BackendCoord;

verus! {

/// A point of the plane, in half pixels.
#[derive(Clone, Copy, Debug, PartialEq, Eq, Structural)]
pub struct Point {
    /// Twice the abscissa.
    pub x2: i64,
    /// Twice the ordinate.
    pub y2: i64,
}

/// A rectangle with sides along the axes, given by two opposite corners in
/// the order in which they were handed over.
#[derive(Clone, Copy, Debug, PartialEq, Eq, Structural)]
pub struct Rect {
    pub p0: Point,
    pub p1: Point,
}

/// The segment from `p0` to `p1`.
#[derive(Clone, Copy, Debug, PartialEq, Eq, Structural)]
pub struct Line {
    pub p0: Point,
    pub p1: Point,
}

/// A circle. The radius is in whole pixels.
#[derive(Clone, Copy, Debug, PartialEq, Eq, Structural)]
pub struct Circle {
    pub center: Point,
    pub radius: u32,
}

/// The middle of a pixel: half a pixel right of and below its corner.
pub open spec fn mid_point(point: BackendCoord) -> Point {
    Point { x2: (2 * point.0 + 1) as i64, y2: (2 * point.1 + 1) as i64 }
}

/// The upper left corner of a pixel.
pub open spec fn corner_point(point: BackendCoord) -> Point {
    Point { x2: (2 * point.0) as i64, y2: (2 * point.1) as i64 }
}

/// The rectangle that spans every pixel from `upper_left` to `bottom_right`,
/// both included: from the corner of the first to the corner of the pixel
/// that lies diagonally behind the second.
pub open spec fn inclusive_rect(upper_left: BackendCoord, bottom_right: BackendCoord) -> Rect {
    Rect {
        p0: corner_point(upper_left),
        p1: Point { x2: (2 * bottom_right.0 + 2) as i64, y2: (2 * bottom_right.1 + 2) as i64 },
    }
}

/// The rectangle whose corners are the middles of two pixels.
pub open spec fn mid_rect(upper_left: BackendCoord, bottom_right: BackendCoord) -> Rect {
    Rect { p0: mid_point(upper_left), p1: mid_point(bottom_right) }
}

impl Rect {
    /// Whether the whole square of `pixel` lies in the rectangle.
    pub open spec fn spec_covers(self, pixel: BackendCoord) -> bool {
        &&& self.p0.x2 <= 2 * pixel.0
        &&& 2 * pixel.0 + 2 <= self.p1.x2
        &&& self.p0.y2 <= 2 * pixel.1
        &&& 2 * pixel.1 + 2 <= self.p1.y2
    }

    /// Tells whether the whole square of `pixel` lies in the rectangle.
    #[verifier::when_used_as_spec(spec_covers)]
    pub fn covers(self, pixel: BackendCoord) -> (covered: bool)
        ensures
            covered == self.spec_covers(pixel),
    {
        let x2: i64 = 2 * (pixel.0 as i64);
        let y2: i64 = 2 * (pixel.1 as i64);
        self.p0.x2 <= x2 && x2 + 2 <= self.p1.x2 && self.p0.y2 <= y2 && y2 + 2 <= self.p1.y2
    }
}

/// Converts a pixel to the point in its middle, where a stroke one pixel
/// wide falls on the pixel and nowhere else.
pub fn plotters_point_to_kurbo_mid(point: BackendCoord) -> (out: Point)
    ensures
        out.x2 == 2 * point.0 + 1,
        out.y2 == 2 * point.1 + 1,
        out == mid_point(point),
{
    let (x, y) = point;
    Point { x2: 2 * (x as i64) + 1, y2: 2 * (y as i64) + 1 }
}

/// Converts a pixel to the point at its upper left corner.
pub fn plotters_point_to_kurbo_corner(point: BackendCoord) -> (out: Point)
    ensures
        out.x2 == 2 * point.0,
        out.y2 == 2 * point.1,
        out == corner_point(point),
{
    let (x, y) = point;
    Point { x2: 2 * (x as i64), y2: 2 * (y as i64) }
}

/// The rectangle that a fill from `upper_left` to `bottom_right` paints
/// covers a pixel exactly if the pixel lies between the two, both included.
pub proof fn lemma_inclusive_rect_covers(
    upper_left: BackendCoord,
    bottom_right: BackendCoord,
    pixel: BackendCoord,
)
    ensures
        inclusive_rect(upper_left, bottom_right).covers(pixel) <==> (upper_left.0 <= pixel.0
            <= bottom_right.0 && upper_left.1 <= pixel.1 <= bottom_right.1),
{
}

/// The middle of a pixel lies half a pixel right of and below its corner.
pub proof fn lemma_mid_is_half_past_corner(point: BackendCoord)
    ensures
        mid_point(point).x2 == corner_point(point).x2 + 1,
        mid_point(point).y2 == corner_point(point).y2 + 1,
{
}

} // verus!
