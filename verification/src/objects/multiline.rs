use vstd::prelude::*;

use crate::coordinate::dist;
use crate::map_object::{Centroid, CentroidV, Rational, MAX_ELEMS};
use crate::objects::line::Line;

verus! {

/// The total length of a sequence of segments, summed from index `i`.
pub open spec fn lines_len_from(ls: Seq<Line>, i: int) -> int
    decreases ls.len() - i,
{
    if i < 0 || i >= ls.len() {
        0
    } else {
        dist(ls[i].start, ls[i].end) + lines_len_from(ls, i + 1)
    }
}

/// The total length of a sequence of segments.
pub open spec fn lines_len(ls: Seq<Line>) -> int {
    lines_len_from(ls, 0)
}

/// The length-weighted sum of the doubled midpoint x components,
/// summed from index `i`.
pub open spec fn wsum_x_from(ls: Seq<Line>, i: int) -> int
    decreases ls.len() - i,
{
    if i < 0 || i >= ls.len() {
        0
    } else {
        dist(ls[i].start, ls[i].end) * (ls[i].start.x + ls[i].end.x) + wsum_x_from(ls, i + 1)
    }
}

/// The length-weighted sum of the doubled midpoint y components,
/// summed from index `i`.
pub open spec fn wsum_y_from(ls: Seq<Line>, i: int) -> int
    decreases ls.len() - i,
{
    if i < 0 || i >= ls.len() {
        0
    } else {
        dist(ls[i].start, ls[i].end) * (ls[i].start.y + ls[i].end.y) + wsum_y_from(ls, i + 1)
    }
}

/// The centroid of a multiline: the length-weighted average of the
/// segment midpoints. The denominator is zero exactly when every
/// segment has zero (floored) length, where the centroid is undefined.
pub open spec fn multiline_centroid(ls: Seq<Line>) -> CentroidV {
    CentroidV { x_num: wsum_x_from(ls, 0), y_num: wsum_y_from(ls, 0), den: 2 * lines_len(ls) }
}

/// A chain of segments. Construction rejects an empty chain.
#[derive(Debug)]
pub struct Multiline {
    lines: Vec<Line>,
}

impl View for Multiline {
    type V = Seq<Line>;

    closed spec fn view(&self) -> Seq<Line> {
        self.lines@
    }
}

impl Multiline {
    #[verifier::type_invariant]
    spec fn inv(self) -> bool {
        1 <= self.lines@.len() <= MAX_ELEMS
    }

    /// Builds a multiline; fails exactly when the segment list is empty.
    pub fn new(lines: Vec<Line>) -> (r: Result<Self, &'static str>)
        requires
            lines@.len() <= MAX_ELEMS,
        ensures
            r is Ok <==> lines@.len() >= 1,
            r is Ok ==> r->Ok_0@ == lines@,
            r is Err ==> r->Err_0@ == "Multiline must contain at least one line"@,
    {
        if lines.is_empty() {
            return Err("Multiline must contain at least one line");
        }
        Ok(Self { lines })
    }

    /// A multiline has no area.
    pub fn area(&self) -> (r: Rational)
        ensures
            r.num == 0,
            r.den == 2,
    {
        Rational { num: 0, den: 2 }
    }

    /// The length of a multiline is the sum of its segment lengths.
    pub fn length(&self) -> (r: u64)
        ensures
            r as int == lines_len(self@),
            r <= 0x20000000000000,
    {
        proof {
            use_type_invariant(&*self);
        }
        let n = self.lines.len();
        let mut acc: u64 = 0;
        let mut i: usize = 0;
        while i < n
            invariant
                n == self.lines@.len(),
                i <= n,
                n <= MAX_ELEMS,
                acc as int + lines_len_from(self.lines@, i as int) == lines_len(self.lines@),
                acc as int <= i as int * 0x200000000,
            decreases n - i,
        {
            let d = self.lines[i].length();
            acc = acc + d;
            i = i + 1;
        }
        acc
    }

    /// The centroid of a multiline: the length-weighted average of the
    /// segment midpoints, as an exact rational point.
    pub fn centroid(&self) -> (c: Centroid)
        ensures
            c@ == multiline_centroid(self@),
    {
        proof {
            use_type_invariant(&*self);
        }
        let total = self.length();
        let n = self.lines.len();
        let mut wx: i128 = 0;
        let mut wy: i128 = 0;
        let mut i: usize = 0;
        while i < n
            invariant
                n == self.lines@.len(),
                i <= n,
                n <= MAX_ELEMS,
                wx + wsum_x_from(self.lines@, i as int) == wsum_x_from(self.lines@, 0),
                wy + wsum_y_from(self.lines@, i as int) == wsum_y_from(self.lines@, 0),
                -(i as int) * 0x20000000000000000 <= wx as int <= (i as int) * 0x20000000000000000,
                -(i as int) * 0x20000000000000000 <= wy as int <= (i as int) * 0x20000000000000000,
            decreases n - i,
        {
            let l = self.lines[i];
            let d = l.length();
            let sx: i128 = l.start.x as i128 + l.end.x as i128;
            let sy: i128 = l.start.y as i128 + l.end.y as i128;
            proof {
                assert(-0x20000000000000000 <= (d as int) * (sx as int) <= 0x20000000000000000)
                    by (nonlinear_arith)
                    requires
                        0 <= d < 0x200000000,
                        -0x100000000 <= sx <= 0x100000000,
                ;
                assert(-0x20000000000000000 <= (d as int) * (sy as int) <= 0x20000000000000000)
                    by (nonlinear_arith)
                    requires
                        0 <= d < 0x200000000,
                        -0x100000000 <= sy <= 0x100000000,
                ;
            }
            let tx: i128 = d as i128 * sx;
            let ty: i128 = d as i128 * sy;
            wx = wx + tx;
            wy = wy + ty;
            i = i + 1;
        }
        Centroid { x_num: wx, y_num: wy, den: 2 * (total as i128) }
    }

    /// The segments, in order.
    pub fn lines(&self) -> (r: &Vec<Line>)
        ensures
            r@ == self@,
    {
        &self.lines
    }

    /// An independent deep copy.
    pub fn duplicate(&self) -> (r: Self)
        ensures
            r@ == self@,
    {
        proof {
            use_type_invariant(&*self);
        }
        let n = self.lines.len();
        let mut ls: Vec<Line> = Vec::new();
        let mut i: usize = 0;
        while i < n
            invariant
                n == self.lines@.len(),
                i <= n,
                ls@ == self.lines@.subrange(0, i as int),
            decreases n - i,
        {
            ls.push(self.lines[i]);
            proof {
                assert(ls@ =~= self.lines@.subrange(0, i + 1));
            }
            i = i + 1;
        }
        proof {
            assert(ls@ =~= self.lines@);
        }
        Self { lines: ls }
    }
}

} // verus!
