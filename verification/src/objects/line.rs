use vstd::prelude::*;

use crate::coordinate::{dist, Coordinate};
use crate::map_object::{Centroid, CentroidV, Rational};

verus! {

/// A one-dimensional geometry: a segment between two distinct
/// coordinates. Construction rejects a degenerate segment.
#[derive(Debug, Clone, Copy, PartialEq, Eq, Structural)]
pub struct Line {
    pub start: Coordinate,
    pub end: Coordinate,
}

/// The centroid of a segment is the midpoint of its endpoints.
pub open spec fn line_centroid(l: Line) -> CentroidV {
    CentroidV { x_num: l.start.x + l.end.x, y_num: l.start.y + l.end.y, den: 2 }
}

impl Line {
    /// Builds a segment; fails exactly when the endpoints coincide.
    pub fn new(start: Coordinate, end: Coordinate) -> (r: Result<Self, &'static str>)
        ensures
            r is Ok <==> start != end,
            r is Ok ==> r->Ok_0 == (Line { start, end }),
            r is Err ==> r->Err_0@ == "Line must have distinct points"@,
    {
        if start == end {
            return Err("Line must have distinct points");
        }
        Ok(Self { start, end })
    }

    /// A segment has no area.
    pub fn area(&self) -> (r: Rational)
        ensures
            r.num == 0,
            r.den == 2,
    {
        Rational { num: 0, den: 2 }
    }

    /// The length of a segment is the distance between its endpoints.
    pub fn length(&self) -> (r: u64)
        ensures
            r as int == dist(self.start, self.end),
            r < 0x200000000,
    {
        self.start.distance_to(&self.end)
    }

    /// The centroid of a segment is the midpoint of its endpoints.
    pub fn centroid(&self) -> (c: Centroid)
        ensures
            c@ == line_centroid(*self),
    {
        Centroid {
            x_num: self.start.x as i128 + self.end.x as i128,
            y_num: self.start.y as i128 + self.end.y as i128,
            den: 2,
        }
    }
}

} // verus!
