use vstd::prelude::*;

use crate::coordinate::Coordinate;
use crate::map_object::{Centroid, CentroidV, Rational};

verus! {

/// A zero-dimensional geometry: a single coordinate.
#[derive(Debug, Clone, Copy, PartialEq, Eq, Structural)]
pub struct Point {
    pub coordinate: Coordinate,
}

/// The centroid of a point is its own coordinate.
pub open spec fn point_centroid(c: Coordinate) -> CentroidV {
    CentroidV { x_num: c.x as int, y_num: c.y as int, den: 1 }
}

impl View for Point {
    type V = Coordinate;

    open spec fn view(&self) -> Coordinate {
        self.coordinate
    }
}

impl Point {
    /// Builds a point at the given position; never fails.
    pub fn new(x: i32, y: i32) -> (p: Self)
        ensures
            p@ == (Coordinate { x, y }),
    {
        Self { coordinate: Coordinate::new(x, y) }
    }

    /// A point has no area.
    pub fn area(&self) -> (r: Rational)
        ensures
            r.num == 0,
            r.den == 2,
    {
        Rational { num: 0, den: 2 }
    }

    /// A point has no length.
    pub fn length(&self) -> (r: u64)
        ensures
            r == 0,
    {
        0
    }

    /// The centroid of a point is its own coordinate.
    pub fn centroid(&self) -> (c: Centroid)
        ensures
            c@ == point_centroid(self@),
    {
        Centroid { x_num: self.coordinate.x as i128, y_num: self.coordinate.y as i128, den: 1 }
    }
}

} // verus!
