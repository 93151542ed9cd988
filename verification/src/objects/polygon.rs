use vstd::prelude::*;

use crate::coordinate::{cross, dist, Coordinate};
use crate::map_object::{Centroid, CentroidV, Rational, MAX_ELEMS};
use vstd::math::abs;

verus! {

/// The shoelace sum of the ring `q`, summed from index `i`: each
/// vertex is paired with its cyclic successor.
pub open spec fn shoelace_from(q: Seq<Coordinate>, i: int) -> int
    decreases q.len() - i,
{
    if i < 0 || i >= q.len() {
        0
    } else {
        cross(q[i], q[(i + 1) % (q.len() as int)]) + shoelace_from(q, i + 1)
    }
}

/// The shoelace sum of the ring `q` (each vertex once, cyclically).
pub open spec fn shoelace(q: Seq<Coordinate>) -> int {
    shoelace_from(q, 0)
}

/// Twice the area of the polygon whose closed exterior ring is `ps`
/// (first vertex repeated at the end): the absolute shoelace sum over
/// the distinct vertices. Holes are not subtracted.
pub open spec fn polygon_area2(ps: Seq<Coordinate>) -> int {
    abs(shoelace(ps.take(ps.len() - 1))) as int
}

/// The sum of the distances between consecutive coordinates of `ps`,
/// summed from index `i`.
pub open spec fn dist_sum_from(ps: Seq<Coordinate>, i: int) -> int
    decreases ps.len() - i,
{
    if i < 0 || i + 1 >= ps.len() {
        0
    } else {
        dist(ps[i], ps[i + 1]) + dist_sum_from(ps, i + 1)
    }
}

/// The perimeter of the closed ring `ps`: the sum of consecutive
/// vertex distances. The closing edge is included because the first
/// vertex is repeated at the end.
pub open spec fn perimeter(ps: Seq<Coordinate>) -> int {
    dist_sum_from(ps, 0)
}

/// The centroid's x numerator terms over the ring `q`, from index `i`.
pub open spec fn cent_x_from(q: Seq<Coordinate>, i: int) -> int
    decreases q.len() - i,
{
    if i < 0 || i >= q.len() {
        0
    } else {
        (q[i].x + q[(i + 1) % (q.len() as int)].x) * cross(q[i], q[(i + 1) % (q.len() as int)])
            + cent_x_from(q, i + 1)
    }
}

/// The centroid's y numerator terms over the ring `q`, from index `i`.
pub open spec fn cent_y_from(q: Seq<Coordinate>, i: int) -> int
    decreases q.len() - i,
{
    if i < 0 || i >= q.len() {
        0
    } else {
        (q[i].y + q[(i + 1) % (q.len() as int)].y) * cross(q[i], q[(i + 1) % (q.len() as int)])
            + cent_y_from(q, i + 1)
    }
}

/// The centroid of the polygon whose closed exterior ring is `ps`:
/// the standard signed cross-product formula, kept as an exact
/// rational with denominator three times the signed shoelace sum.
/// The sign is preserved, so the value is correct for either winding;
/// a zero denominator (zero signed area) marks the undefined case.
pub open spec fn polygon_centroid(ps: Seq<Coordinate>) -> CentroidV {
    let q = ps.take(ps.len() - 1);
    CentroidV { x_num: cent_x_from(q, 0), y_num: cent_y_from(q, 0), den: 3 * shoelace(q) }
}

/// The mathematical content of a polygon: its closed exterior ring
/// and, optionally, its hole rings (stored, never validated, and not
/// entering any metric).
pub struct PolygonV {
    pub exterior: Seq<Coordinate>,
    pub holes: Option<Seq<Seq<Coordinate>>>,
}

/// A two-dimensional geometry: a closed exterior ring (at least four
/// points, first equal to last) and optional hole rings. Hole rings
/// are stored but not validated, and do not reduce the area.
#[derive(Debug)]
pub struct Polygon {
    exterior: Vec<Coordinate>,
    holes: Option<Vec<Vec<Coordinate>>>,
}

impl View for Polygon {
    type V = PolygonV;

    closed spec fn view(&self) -> PolygonV {
        PolygonV {
            exterior: self.exterior@,
            holes: match self.holes {
                Option::Some(hs) => Option::Some(hs@.map_values(|h: Vec<Coordinate>| h@)),
                Option::None => Option::None,
            },
        }
    }
}

/// The cross product of two coordinates, exactly.
fn cross_exec(a: Coordinate, b: Coordinate) -> (c: i128)
    ensures
        c as int == cross(a, b),
        -0x8000000000000000 <= c <= 0x8000000000000000,
{
    proof {
        assert(-0x4000000000000000 <= (a.x as int) * (b.y as int) <= 0x4000000000000000)
            by (nonlinear_arith)
            requires
                -0x80000000 <= a.x as int <= 0x7fffffff,
                -0x80000000 <= b.y as int <= 0x7fffffff,
        ;
        assert(-0x4000000000000000 <= (b.x as int) * (a.y as int) <= 0x4000000000000000)
            by (nonlinear_arith)
            requires
                -0x80000000 <= b.x as int <= 0x7fffffff,
                -0x80000000 <= a.y as int <= 0x7fffffff,
        ;
    }
    a.x as i128 * b.y as i128 - b.x as i128 * a.y as i128
}

/// An element-for-element copy of a coordinate list.
fn copy_coords(v: &Vec<Coordinate>) -> (r: Vec<Coordinate>)
    ensures
        r@ == v@,
{
    let n = v.len();
    let mut out: Vec<Coordinate> = Vec::new();
    let mut i: usize = 0;
    while i < n
        invariant
            n == v@.len(),
            i <= n,
            out@ == v@.subrange(0, i as int),
        decreases n - i,
    {
        out.push(v[i]);
        proof {
            assert(out@ =~= v@.subrange(0, i + 1));
        }
        i = i + 1;
    }
    proof {
        assert(out@ =~= v@);
    }
    out
}

impl Polygon {
    #[verifier::type_invariant]
    spec fn inv(self) -> bool {
        4 <= self.exterior@.len() <= MAX_ELEMS
    }

    /// Builds a polygon; fails exactly when the exterior ring has
    /// fewer than four points or is not closed (first point equal to
    /// the last).
    pub fn new(exterior: Vec<Coordinate>) -> (r: Result<Self, &'static str>)
        requires
            exterior@.len() <= MAX_ELEMS,
        ensures
            r is Ok <==> (exterior@.len() >= 4 && exterior@.first() == exterior@.last()),
            r is Ok ==> r->Ok_0@.exterior == exterior@ && r->Ok_0@.holes is None,
            r is Err && exterior@.len() < 4 ==> r->Err_0@ == "Polygon must have at least 4 points"@,
            r is Err && exterior@.len() >= 4 ==> r->Err_0@ == "Polygon must be closed"@,
    {
        if exterior.len() < 4 {
            return Err("Polygon must have at least 4 points");
        }
        if !(exterior[0] == exterior[exterior.len() - 1]) {
            return Err("Polygon must be closed");
        }
        Ok(Self { exterior, holes: None })
    }

    /// Appends a point to the exterior ring, unconditionally; the
    /// caller is responsible for keeping the ring closed.
    pub fn add_point(&mut self, point: Coordinate)
        requires
            old(self)@.exterior.len() < MAX_ELEMS,
        ensures
            final(self)@.exterior == old(self)@.exterior.push(point),
            final(self)@.holes == old(self)@.holes,
    {
        proof {
            use_type_invariant(&*self);
        }
        let mut ext: Vec<Coordinate> = vec![point, point, point, point];
        core::mem::swap(&mut self.exterior, &mut ext);
        ext.push(point);
        core::mem::swap(&mut self.exterior, &mut ext);
    }

    /// Replaces the hole rings with the given ones. Hole rings are
    /// stored as given: no containment or intersection validation.
    pub fn with_holes(self, holes: Vec<Vec<Coordinate>>) -> (r: Self)
        ensures
            r@.exterior == self@.exterior,
            r@.holes == Some(holes@.map_values(|h: Vec<Coordinate>| h@)),
    {
        proof {
            use_type_invariant(&self);
        }
        let mut s = self;
        s.holes = Some(holes);
        s
    }

    /// The exterior ring, in order.
    pub fn exterior(&self) -> (r: &Vec<Coordinate>)
        ensures
            r@ == self@.exterior,
    {
        &self.exterior
    }

    /// The hole rings, if any were given.
    pub fn holes(&self) -> (r: &Option<Vec<Vec<Coordinate>>>)
        ensures
            r is Some <==> self@.holes is Some,
            r is Some ==> r->Some_0@.map_values(|h: Vec<Coordinate>| h@) == self@.holes->Some_0,
    {
        &self.holes
    }

    /// Twice the polygon's area over the exterior ring only, as the
    /// absolute shoelace sum; the area itself is `num / den`. Holes
    /// are not subtracted.
    pub fn area(&self) -> (r: Rational)
        ensures
            r.num as int == polygon_area2(self@.exterior),
            r.den == 2,
            0 <= r.num <= 0x800000000000000000000,
    {
        proof {
            use_type_invariant(&*self);
        }
        let ghost q = self.exterior@.take(self.exterior@.len() - 1);
        let n = self.exterior.len() - 1;
        let mut sum: i128 = 0;
        let mut i: usize = 0;
        while i < n
            invariant
                n == self.exterior@.len() - 1,
                3 <= n <= MAX_ELEMS,
                q == self.exterior@.take(n as int),
                q.len() == n,
                i <= n,
                sum as int + shoelace_from(q, i as int) == shoelace(q),
                -(i as int) * 0x8000000000000000 <= sum as int <= (i as int) * 0x8000000000000000,
            decreases n - i,
        {
            let j = (i + 1) % n;
            let c = cross_exec(self.exterior[i], self.exterior[j]);
            proof {
                assert(q[i as int] == self.exterior@[i as int]);
                assert(q[(i as int + 1) % (q.len() as int)] == self.exterior@[j as int]);
            }
            sum = sum + c;
            i = i + 1;
        }
        proof {
            assert((n as int) * 0x8000000000000000 <= 1000000 * 0x8000000000000000);
            assert(-(n as int) * 0x8000000000000000 >= -1000000 * 0x8000000000000000);
        }
        let a2 = if sum < 0 { -sum } else { sum };
        Rational { num: a2, den: 2 }
    }

    /// The perimeter of the exterior ring: the sum of consecutive
    /// vertex distances, the closing edge included.
    pub fn length(&self) -> (r: u64)
        ensures
            r as int == perimeter(self@.exterior),
            r <= 0x20000000000000,
    {
        proof {
            use_type_invariant(&*self);
        }
        let n = self.exterior.len() - 1;
        let mut acc: u64 = 0;
        let mut i: usize = 0;
        while i < n
            invariant
                n == self.exterior@.len() - 1,
                3 <= n <= MAX_ELEMS,
                i <= n,
                acc as int + dist_sum_from(self.exterior@, i as int) == perimeter(self.exterior@),
                acc as int <= i as int * 0x200000000,
            decreases n - i,
        {
            let d = self.exterior[i].distance_to(&self.exterior[i + 1]);
            acc = acc + d;
            i = i + 1;
        }
        acc
    }

    /// The centroid of the polygon, as an exact rational point with
    /// denominator three times the signed shoelace sum. The sign of
    /// the shoelace sum is preserved, so the ratio is correct for
    /// either winding of the ring.
    pub fn centroid(&self) -> (c: Centroid)
        ensures
            c@ == polygon_centroid(self@.exterior),
    {
        proof {
            use_type_invariant(&*self);
        }
        let ghost q = self.exterior@.take(self.exterior@.len() - 1);
        let n = self.exterior.len() - 1;
        let mut cx: i128 = 0;
        let mut cy: i128 = 0;
        let mut sum: i128 = 0;
        let mut i: usize = 0;
        while i < n
            invariant
                n == self.exterior@.len() - 1,
                3 <= n <= MAX_ELEMS,
                q == self.exterior@.take(n as int),
                q.len() == n,
                i <= n,
                cx as int + cent_x_from(q, i as int) == cent_x_from(q, 0),
                cy as int + cent_y_from(q, i as int) == cent_y_from(q, 0),
                sum as int + shoelace_from(q, i as int) == shoelace(q),
                -(i as int) * 0x800000000000000000000000 <= cx as int <= (i as int)
                    * 0x800000000000000000000000,
                -(i as int) * 0x800000000000000000000000 <= cy as int <= (i as int)
                    * 0x800000000000000000000000,
                -(i as int) * 0x8000000000000000 <= sum as int <= (i as int) * 0x8000000000000000,
            decreases n - i,
        {
            let j = (i + 1) % n;
            let a = self.exterior[i];
            let b = self.exterior[j];
            let c = cross_exec(a, b);
            proof {
                assert(q[i as int] == self.exterior@[i as int]);
                assert(q[(i as int + 1) % (q.len() as int)] == self.exterior@[j as int]);
            }
            let sx: i128 = a.x as i128 + b.x as i128;
            let sy: i128 = a.y as i128 + b.y as i128;
            proof {
                assert(-0x800000000000000000000000 <= (sx as int) * (c as int)
                    <= 0x800000000000000000000000) by (nonlinear_arith)
                    requires
                        -0x100000000 <= sx as int <= 0x100000000,
                        -0x8000000000000000 <= c as int <= 0x8000000000000000,
                ;
                assert(-0x800000000000000000000000 <= (sy as int) * (c as int)
                    <= 0x800000000000000000000000) by (nonlinear_arith)
                    requires
                        -0x100000000 <= sy as int <= 0x100000000,
                        -0x8000000000000000 <= c as int <= 0x8000000000000000,
                ;
            }
            cx = cx + sx * c;
            cy = cy + sy * c;
            sum = sum + c;
            i = i + 1;
        }
        Centroid { x_num: cx, y_num: cy, den: 3 * sum }
    }

    /// An independent deep copy.
    pub fn duplicate(&self) -> (r: Self)
        ensures
            r@ == self@,
    {
        proof {
            use_type_invariant(&*self);
        }
        let ext = copy_coords(&self.exterior);
        let hs: Option<Vec<Vec<Coordinate>>> = match &self.holes {
            None => None,
            Some(holes) => {
                let m = holes.len();
                let mut out: Vec<Vec<Coordinate>> = Vec::new();
                let mut k: usize = 0;
                while k < m
                    invariant
                        m == holes@.len(),
                        k <= m,
                        out@.len() == k,
                        forall|t: int| 0 <= t < k ==> out@[t]@ == holes@[t]@,
                    decreases m - k,
                {
                    out.push(copy_coords(&holes[k]));
                    k = k + 1;
                }
                proof {
                    assert(out@.map_values(|h: Vec<Coordinate>| h@) =~~= holes@.map_values(
                        |h: Vec<Coordinate>| h@,
                    ));
                }
                Some(out)
            },
        };
        Self { exterior: ext, holes: hs }
    }
}

} // verus!
