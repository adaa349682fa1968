//! Grid positions.

use std::ops::Add;
use vstd::prelude::*;
use vstd::std_specs::cmp::PartialEqSpecImpl;
use vstd::std_specs::ops::AddSpecImpl;

verus! {

/// A cell of the grid, or a step between two cells: column first, row second.
#[derive(Copy, Clone, Debug)]
pub struct Point(pub i32, pub i32);

impl View for Point {
    type V = (int, int);

    /// The position as a pair of mathematical integers.
    open spec fn view(&self) -> (int, int) {
        (self.0 as int, self.1 as int)
    }
}

/// Whether a pair of integers can be held in a [`Point`].
pub open spec fn representable(cell: (int, int)) -> bool {
    &&& i32::MIN <= cell.0 <= i32::MAX
    &&& i32::MIN <= cell.1 <= i32::MAX
}

/// Component-wise sum of two pairs.
pub open spec fn cell_sum(a: (int, int), b: (int, int)) -> (int, int) {
    (a.0 + b.0, a.1 + b.1)
}

/// The point that holds `cell`, for a pair that is representable.
pub open spec fn point_at(cell: (int, int)) -> Point
    recommends
        representable(cell),
{
    Point(cell.0 as i32, cell.1 as i32)
}

impl Add<Point> for Point {
    type Output = Point;

    /// Component-wise addition. Both sums must fit in an `i32`.
    fn add(self, rhs: Point) -> (sum: Point) {
        Point(self.0 + rhs.0, self.1 + rhs.1)
    }
}

impl AddSpecImpl<Point> for Point {
    open spec fn obeys_add_spec() -> bool {
        true
    }

    open spec fn add_req(self, rhs: Point) -> bool {
        representable(cell_sum(self@, rhs@))
    }

    open spec fn add_spec(self, rhs: Point) -> Point {
        point_at(cell_sum(self@, rhs@))
    }
}

impl PartialEq for Point {
    /// Two points are equal when both coordinates are.
    fn eq(self: &Point, rhs: &Point) -> (same: bool) {
        self.0 == rhs.0 && self.1 == rhs.1
    }
}

impl PartialEqSpecImpl for Point {
    open spec fn obeys_eq_spec() -> bool {
        true
    }

    open spec fn eq_spec(&self, rhs: &Point) -> bool {
        self.0 == rhs.0 && self.1 == rhs.1
    }
}

} // verus!
