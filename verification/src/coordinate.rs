use vstd::prelude::*;

verus! {

/// A planar coordinate in exact integer units.
///
/// Coordinates are kept as integers so that every derived quantity
/// (squared distances, shoelace sums, centroid numerators) is exact.
/// A Euclidean distance is reported as the floor of the true square
/// root; on Pythagorean configurations it is the true distance.
#[derive(Debug, Clone, Copy, PartialEq, Eq, Structural)]
pub struct Coordinate {
    pub x: i32,
    pub y: i32,
}

/// The squared Euclidean distance between two coordinates.
pub open spec fn dist_sq(a: Coordinate, b: Coordinate) -> int {
    (a.x - b.x) * (a.x - b.x) + (a.y - b.y) * (a.y - b.y)
}

/// The cross product of two coordinates taken as vectors from the
/// origin, as used by the shoelace formula.
pub open spec fn cross(a: Coordinate, b: Coordinate) -> int {
    a.x * b.y - b.x * a.y
}

/// `r` is the floor of the square root of `n`.
pub open spec fn is_floor_sqrt(n: int, r: int) -> bool {
    0 <= r && r * r <= n && n < (r + 1) * (r + 1)
}

/// The floor of the square root of `n` (meaningful for `n >= 0`).
pub open spec fn floor_sqrt(n: int) -> int {
    choose|r: int| is_floor_sqrt(n, r)
}

/// The distance between two coordinates: the floor of the square root
/// of the exact squared distance.
pub open spec fn dist(a: Coordinate, b: Coordinate) -> int {
    floor_sqrt(dist_sq(a, b))
}

/// Every non-negative integer has a floor square root.
pub proof fn lemma_floor_sqrt_exists(n: int)
    requires
        0 <= n,
    ensures
        is_floor_sqrt(n, floor_sqrt(n)),
    decreases n,
{
    if n == 0 {
        assert(is_floor_sqrt(0, 0));
    } else {
        lemma_floor_sqrt_exists(n - 1);
        let r0 = floor_sqrt(n - 1);
        if n < (r0 + 1) * (r0 + 1) {
            assert(is_floor_sqrt(n, r0));
        } else {
            assert(n == (r0 + 1) * (r0 + 1));
            assert(is_floor_sqrt(n, r0 + 1)) by (nonlinear_arith)
                requires
                    n == (r0 + 1) * (r0 + 1),
                    0 <= r0,
            ;
        }
    }
}

/// The floor square root is unique.
pub proof fn lemma_floor_sqrt_unique(n: int, r: int)
    requires
        is_floor_sqrt(n, r),
    ensures
        floor_sqrt(n) == r,
{
    assert(0 <= n) by (nonlinear_arith)
        requires
            0 <= r && r * r <= n,
    ;
    lemma_floor_sqrt_exists(n);
    let s = floor_sqrt(n);
    assert(s == r) by (nonlinear_arith)
        requires
            is_floor_sqrt(n, r),
            is_floor_sqrt(n, s),
    ;
}

/// The squared distance is non-negative and below `2^65`.
pub proof fn lemma_dist_sq_bounds(a: Coordinate, b: Coordinate)
    ensures
        0 <= dist_sq(a, b),
        dist_sq(a, b) < 0x20000000000000000,
{
    let dx = a.x - b.x;
    let dy = a.y - b.y;
    assert(0 <= dx * dx + dy * dy < 0x20000000000000000) by (nonlinear_arith)
        requires
            -0xffffffff <= dx <= 0xffffffff,
            -0xffffffff <= dy <= 0xffffffff,
    ;
}

/// The distance is non-negative and below `2^33`.
pub proof fn lemma_dist_bounds(a: Coordinate, b: Coordinate)
    ensures
        is_floor_sqrt(dist_sq(a, b), dist(a, b)),
        0 <= dist(a, b),
        dist(a, b) < 0x200000000,
{
    lemma_dist_sq_bounds(a, b);
    lemma_floor_sqrt_exists(dist_sq(a, b));
    let r = dist(a, b);
    assert(r < 0x200000000) by (nonlinear_arith)
        requires
            0 <= r,
            r * r <= dist_sq(a, b),
            dist_sq(a, b) < 0x20000000000000000,
    ;
}

/// Distance is symmetric.
pub proof fn lemma_distance_symmetric(a: Coordinate, b: Coordinate)
    ensures
        dist(a, b) == dist(b, a),
{
    assert(dist_sq(a, b) == dist_sq(b, a)) by (nonlinear_arith);
}

/// The distance from a coordinate to itself is zero.
pub proof fn lemma_distance_to_self_zero(a: Coordinate)
    ensures
        dist(a, a) == 0,
{
    assert(dist_sq(a, a) == 0) by (nonlinear_arith);
    assert(is_floor_sqrt(0, 0));
    lemma_floor_sqrt_unique(0, 0);
}

/// The floor of the square root of `n`, by binary search.
pub fn isqrt(n: u128) -> (r: u64)
    ensures
        is_floor_sqrt(n as int, r as int),
{
    let mut lo: u64 = 0;
    let mut hi: u64 = u64::MAX;
    while lo < hi
        invariant
            lo <= hi,
            (lo as int) * (lo as int) <= n as int,
            (n as int) < (hi as int + 1) * (hi as int + 1),
        decreases hi - lo,
    {
        let gap: u64 = hi - lo;
        let mid: u64 = lo + gap / 2 + gap % 2;
        assert(lo < mid <= hi);
        assert((mid as int) * (mid as int) < 0x100000000000000000000000000000000) by (nonlinear_arith)
            requires
                mid <= 0xffffffffffffffffu64,
        ;
        let sq: u128 = (mid as u128) * (mid as u128);
        if sq <= n {
            lo = mid;
        } else {
            hi = mid - 1;
        }
    }
    lo
}

impl Coordinate {
    /// Builds a coordinate from its two components; never fails.
    pub fn new(x: i32, y: i32) -> (c: Self)
        ensures
            c == (Coordinate { x, y }),
    {
        Self { x, y }
    }

    /// The Euclidean distance to `other`, as the floor of the true
    /// square root of the exact squared distance.
    pub fn distance_to(&self, other: &Coordinate) -> (d: u64)
        ensures
            d as int == dist(*self, *other),
            d < 0x200000000,
    {
        let dx: i64 = self.x as i64 - other.x as i64;
        let dy: i64 = self.y as i64 - other.y as i64;
        assert(0 <= dx * dx && dx * dx < 0x10000000000000000) by (nonlinear_arith)
            requires
                -0xffffffff <= dx <= 0xffffffff,
        ;
        assert(0 <= dy * dy && dy * dy < 0x10000000000000000) by (nonlinear_arith)
            requires
                -0xffffffff <= dy <= 0xffffffff,
        ;
        let sq: u128 = (dx as i128 * dx as i128 + dy as i128 * dy as i128) as u128;
        assert(sq as int == dist_sq(*self, *other));
        let r = isqrt(sq);
        proof {
            lemma_floor_sqrt_unique(dist_sq(*self, *other), r as int);
            lemma_dist_bounds(*self, *other);
        }
        r
    }
}

} // verus!
