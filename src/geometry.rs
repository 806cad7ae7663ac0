//! Points of the simulation plane and the conversion into viewport space.
use vstd::prelude::*;

verus! {

/// Length units per pixel: positions are held in thousandths of a pixel.
pub const UNITS_PER_PIXEL: i64 = 1000;

/// Every coordinate of the simulation plane lies in `[-COORD_LIMIT, COORD_LIMIT]`.
pub const COORD_LIMIT: i64 = 1073741824;

/// A point (or a displacement) of the simulation plane, in length units.
#[derive(Clone, Copy, Debug, PartialEq, Eq, Structural)]
pub struct Point {
    pub x: i64,
    pub y: i64,
}

/// The size of the viewport, in length units.
#[derive(Clone, Copy, Debug, PartialEq, Eq, Structural)]
pub struct FrameSize {
    pub width: i64,
    pub height: i64,
}

pub open spec fn coord_in_bounds(c: int) -> bool {
    -COORD_LIMIT <= c <= COORD_LIMIT
}

impl Point {
    /// Both coordinates lie within the simulation plane.
    pub open spec fn in_bounds(self) -> bool {
        coord_in_bounds(self.x as int) && coord_in_bounds(self.y as int)
    }

    pub fn new(x: i64, y: i64) -> (r: Point)
        ensures
            r.x == x,
            r.y == y,
    {
        Point { x, y }
    }
}

impl FrameSize {
    /// A frame is at most as wide and as high as the simulation plane.
    pub open spec fn valid(self) -> bool {
        0 <= self.width <= COORD_LIMIT && 0 <= self.height <= COORD_LIMIT
    }
}

/// The square of the Euclidean distance between two points.
pub open spec fn dist_sq(a: Point, b: Point) -> int {
    (a.x - b.x) * (a.x - b.x) + (a.y - b.y) * (a.y - b.y)
}

/// The viewport position of an absolute position: the simulation origin is
/// the centre of the frame.
pub open spec fn viewport_of(p: Point, frame: FrameSize) -> Point {
    Point { x: (p.x + frame.width / 2) as i64, y: (p.y + frame.height / 2) as i64 }
}

/// Converts an absolute position into viewport coordinates.
pub fn to_viewport(p: Point, frame: FrameSize) -> (v: Point)
    requires
        p.in_bounds(),
        frame.valid(),
    ensures
        v.x == p.x + frame.width / 2,
        v.y == p.y + frame.height / 2,
        v == viewport_of(p, frame),
{
    Point { x: p.x + frame.width / 2, y: p.y + frame.height / 2 }
}

/// The squared distance between two points of the plane, computed exactly.
pub fn distance_sq(a: Point, b: Point) -> (r: u128)
    requires
        a.in_bounds(),
        b.in_bounds(),
    ensures
        r == dist_sq(a, b),
{
    let dx: i128 = a.x as i128 - b.x as i128;
    let dy: i128 = a.y as i128 - b.y as i128;
    assert(dx * dx <= 0x4000_0000_0000_0000) by (nonlinear_arith)
        requires -0x8000_0000 <= dx <= 0x8000_0000;
    assert(dy * dy <= 0x4000_0000_0000_0000) by (nonlinear_arith)
        requires -0x8000_0000 <= dy <= 0x8000_0000;
    assert(dx * dx >= 0 && dy * dy >= 0) by (nonlinear_arith);
    (dx * dx + dy * dy) as u128
}

/// Integer square root: the largest `r` with `r * r <= n`.
pub fn isqrt(n: u128) -> (r: u64)
    ensures
        r * r <= n,
        n < (r + 1) * (r + 1),
{
    let mut lo: u128 = 0;
    let mut hi: u128 = 0x1_0000_0000_0000_0000;
    assert(n < hi * hi) by (nonlinear_arith)
        requires hi == 0x1_0000_0000_0000_0000, n <= u128::MAX;
    while hi - lo > 1
        invariant
            lo < hi <= 0x1_0000_0000_0000_0000,
            lo * lo <= n,
            n < hi * hi,
        decreases hi - lo,
    {
        let mid: u128 = lo + (hi - lo) / 2;
        assert(mid < 0x1_0000_0000_0000_0000);
        assert(mid * mid <= u128::MAX) by (nonlinear_arith)
            requires mid < 0x1_0000_0000_0000_0000;
        if mid * mid <= n {
            lo = mid;
        } else {
            hi = mid;
        }
    }
    assert(lo + 1 == hi);
    lo as u64
}

} // verus!
