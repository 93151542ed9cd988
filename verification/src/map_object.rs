use vstd::prelude::*;

use crate::coordinate::{dist, Coordinate};
use crate::objects::line::{line_centroid, Line};
use crate::objects::multiline::{lines_len, multiline_centroid, Multiline};
use crate::objects::point::{point_centroid, Point};
use crate::objects::polygon::{perimeter, polygon_area2, polygon_centroid, Polygon, PolygonV};
use crate::objects::text::{Text, TextV};

verus! {

/// Upper bound on the number of parts a single geometry or layer may
/// hold (ring vertices, multiline segments, layer entries). It keeps
/// every aggregate sum comfortably inside the machine integers used
/// to compute it.
pub const MAX_ELEMS: usize = 1000000;

/// An exact rational quantity, as a numerator over a denominator.
/// Values are not reduced; callers divide (or compare cross-wise).
#[derive(Debug, Clone, Copy, PartialEq, Eq, Structural)]
pub struct Rational {
    pub num: i128,
    pub den: i128,
}

/// The mathematical value of a centroid: an exact rational point,
/// with one shared denominator. A denominator of zero marks the
/// undefined cases (a zero-length multiline, a zero-area polygon).
pub struct CentroidV {
    pub x_num: int,
    pub y_num: int,
    pub den: int,
}

/// A centroid as computed: an exact rational point with one shared
/// denominator. A denominator of zero marks the undefined cases.
#[derive(Debug, Clone, Copy, PartialEq, Eq, Structural)]
pub struct Centroid {
    pub x_num: i128,
    pub y_num: i128,
    pub den: i128,
}

impl View for Centroid {
    type V = CentroidV;

    open spec fn view(&self) -> CentroidV {
        CentroidV { x_num: self.x_num as int, y_num: self.y_num as int, den: self.den as int }
    }
}

/// The mathematical content of a geometry, one case per variant.
pub enum GeomV {
    Point(Coordinate),
    Line(Line),
    Multiline(Seq<Line>),
    Polygon(PolygonV),
    Text(TextV),
}

/// Twice the area of a geometry: zero for everything but a polygon,
/// the absolute shoelace sum over the exterior ring for a polygon.
pub open spec fn geom_area2(g: GeomV) -> int {
    match g {
        GeomV::Polygon(p) => polygon_area2(p.exterior),
        _ => 0,
    }
}

/// The length of a geometry: zero for a point or a text label, the
/// endpoint distance for a segment, the segment-length sum for a
/// multiline, the exterior perimeter for a polygon.
pub open spec fn geom_length(g: GeomV) -> int {
    match g {
        GeomV::Point(_) => 0,
        GeomV::Line(l) => dist(l.start, l.end),
        GeomV::Multiline(ls) => lines_len(ls),
        GeomV::Polygon(p) => perimeter(p.exterior),
        GeomV::Text(t) => 0,
    }
}

/// The centroid of a geometry, as an exact rational point.
pub open spec fn geom_centroid(g: GeomV) -> CentroidV {
    match g {
        GeomV::Point(c) => point_centroid(c),
        GeomV::Line(l) => line_centroid(l),
        GeomV::Multiline(ls) => multiline_centroid(ls),
        GeomV::Polygon(p) => polygon_centroid(p.exterior),
        GeomV::Text(t) => point_centroid(t.position),
    }
}

/// A segment's length is always the distance between its endpoints.
pub proof fn lemma_line_length_is_endpoint_distance(start: Coordinate, end: Coordinate)
    ensures
        geom_length(GeomV::Line(Line { start, end })) == dist(start, end),
{
}

/// A point's area and length are always zero, and its centroid is
/// its own coordinate.
pub proof fn lemma_point_metrics(c: Coordinate)
    ensures
        geom_area2(GeomV::Point(c)) == 0,
        geom_length(GeomV::Point(c)) == 0,
        geom_centroid(GeomV::Point(c)).x_num == c.x as int,
        geom_centroid(GeomV::Point(c)).y_num == c.y as int,
        geom_centroid(GeomV::Point(c)).den == 1,
{
}

/// Hole rings never enter the area: a polygon with any holes reports
/// the same area as the identical polygon without them.
pub proof fn lemma_holes_do_not_change_area(p: PolygonV, holes: Option<Seq<Seq<Coordinate>>>)
    ensures
        geom_area2(GeomV::Polygon(PolygonV { exterior: p.exterior, holes })) == geom_area2(
            GeomV::Polygon(p),
        ),
{
}

/// A geometry: one of the five closed variants. Each answers the
/// shared capability set (area, length, centroid) by dispatch.
#[derive(Debug)]
pub enum MapObject {
    Point(Point),
    Line(Line),
    Multiline(Multiline),
    Polygon(Polygon),
    Text(Text),
}

impl View for MapObject {
    type V = GeomV;

    open spec fn view(&self) -> GeomV {
        match self {
            MapObject::Point(p) => GeomV::Point(p@),
            MapObject::Line(l) => GeomV::Line(*l),
            MapObject::Multiline(m) => GeomV::Multiline(m@),
            MapObject::Polygon(p) => GeomV::Polygon(p@),
            MapObject::Text(t) => GeomV::Text(t@),
        }
    }
}

impl MapObject {
    /// The geometry's area, as an exact rational: the absolute
    /// shoelace sum over two for a polygon, zero for every other
    /// variant.
    pub fn area(&self) -> (r: Rational)
        ensures
            r.num as int == geom_area2(self@),
            r.den == 2,
            0 <= r.num <= 0x800000000000000000000,
    {
        match self {
            MapObject::Point(p) => p.area(),
            MapObject::Line(l) => l.area(),
            MapObject::Multiline(m) => m.area(),
            MapObject::Polygon(p) => p.area(),
            MapObject::Text(t) => t.area(),
        }
    }

    /// The geometry's length.
    pub fn length(&self) -> (r: u64)
        ensures
            r as int == geom_length(self@),
            r <= 0x20000000000000,
    {
        match self {
            MapObject::Point(p) => p.length(),
            MapObject::Line(l) => l.length(),
            MapObject::Multiline(m) => m.length(),
            MapObject::Polygon(p) => p.length(),
            MapObject::Text(t) => t.length(),
        }
    }

    /// The geometry's centroid, as an exact rational point.
    pub fn centroid(&self) -> (c: Centroid)
        ensures
            c@ == geom_centroid(self@),
    {
        match self {
            MapObject::Point(p) => p.centroid(),
            MapObject::Line(l) => l.centroid(),
            MapObject::Multiline(m) => m.centroid(),
            MapObject::Polygon(p) => p.centroid(),
            MapObject::Text(t) => t.centroid(),
        }
    }

    /// An independent deep copy.
    pub fn duplicate(&self) -> (r: Self)
        ensures
            r@ == self@,
    {
        match self {
            MapObject::Point(p) => MapObject::Point(*p),
            MapObject::Line(l) => MapObject::Line(*l),
            MapObject::Multiline(m) => MapObject::Multiline(m.duplicate()),
            MapObject::Polygon(p) => MapObject::Polygon(p.duplicate()),
            MapObject::Text(t) => MapObject::Text(t.duplicate()),
        }
    }
}

} // verus!
