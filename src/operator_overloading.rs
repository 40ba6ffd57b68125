//! A two-dimensional point with a field-wise addition operator.
use vstd::prelude::*;

verus! {

/// A point with signed 32-bit coordinates.
#[derive(Debug, Clone, Copy, PartialEq, Eq, Structural)]
pub struct Point {
    pub x: i32,
    pub y: i32,
}

/// The field-wise sum of two points. Each coordinate wraps around on
/// overflow, as two's-complement addition does.
pub open spec fn point_sum(a: Point, b: Point) -> Point {
    Point { x: a.x.wrapping_add(b.x), y: a.y.wrapping_add(b.y) }
}

impl core::ops::Add for Point {
    type Output = Point;

    /// Adds the coordinates pairwise, wrapping on overflow.
    fn add(self, other: Point) -> (r: Point)
        ensures
            r == point_sum(self, other),
    {
        Point { x: self.x.wrapping_add(other.x), y: self.y.wrapping_add(other.y) }
    }
}

impl vstd::std_specs::ops::AddSpecImpl for Point {
    open spec fn obeys_add_spec() -> bool {
        true
    }

    open spec fn add_req(self, rhs: Point) -> bool {
        true
    }

    open spec fn add_spec(self, rhs: Point) -> Point {
        point_sum(self, rhs)
    }
}

/// Combines the points (1, 2) and (3, 4) with `+`.
pub fn run() -> (r: Point)
    ensures
        r == (Point { x: 4, y: 6 }),
{
    let p1 = Point { x: 1, y: 2 };
    let p2 = Point { x: 3, y: 4 };
    let r = p1 + p2;
    r
}

} // verus!
