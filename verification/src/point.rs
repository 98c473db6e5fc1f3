//! Grid coordinates and the eight compass offsets around a cell.

use std::ops::Add;
use vstd::prelude::*;
use vstd::std_specs::ops::AddSpecImpl;

verus! {

/// A coordinate: `x` counts columns from the left, `y` counts rows from the top.
#[derive(Copy, Clone, Debug, Eq, PartialEq, Structural)]
pub struct Point {
    /// Column
    pub x: i32,
    /// Row
    pub y: i32,
}

/// The eight offsets to the cells around a cell, clockwise from north.
pub open spec fn compass() -> Seq<Point> {
    seq![
        offset(0, -1),
        offset(1, -1),
        offset(1, 0),
        offset(1, 1),
        offset(0, 1),
        offset(-1, 1),
        offset(-1, 0),
        offset(-1, -1),
    ]
}

/// The point with the given components, for components that fit the
/// coordinate type.
pub open spec fn offset(x: int, y: int) -> Point
    recommends
        i32::MIN <= x <= i32::MAX,
        i32::MIN <= y <= i32::MAX,
{
    Point { x: x as i32, y: y as i32 }
}

/// The `k`-th offset of the compass.
pub fn direction(k: usize) -> (d: Point)
    requires
        k < 8,
    ensures
        d == compass()[k as int],
{
    match k {
        0 => Point::new(0, -1),
        1 => Point::new(1, -1),
        2 => Point::new(1, 0),
        3 => Point::new(1, 1),
        4 => Point::new(0, 1),
        5 => Point::new(-1, 1),
        6 => Point::new(-1, 0),
        _ => Point::new(-1, -1),
    }
}

impl Point {
    /// The coordinate of column `x` and row `y`.
    #[inline]
    #[must_use]
    pub fn new(x: i32, y: i32) -> (p: Self)
        ensures
            p == (Point { x, y }),
    {
        Point { x, y }
    }

    /// Whether the sum of `self` and `d` is a coordinate again, that is,
    /// whether both of its components fit the coordinate type.
    pub open spec fn can_shift(self, d: Point) -> bool {
        &&& i32::MIN <= self.x + d.x <= i32::MAX
        &&& i32::MIN <= self.y + d.y <= i32::MAX
    }

    /// The sum of `self` and `d`, component by component.
    pub open spec fn shifted(self, d: Point) -> Point
        recommends
            self.can_shift(d),
    {
        offset(self.x + d.x, self.y + d.y)
    }

    /// The map that sends an offset `d` to `self` shifted by `d`.
    pub open spec fn shift(self) -> spec_fn(Point) -> Point {
        |d: Point| self.shifted(d)
    }

    /// The sum of `self` and `d` where it is a coordinate, and nothing where
    /// a component of it would overflow.
    pub fn checked_add(self, d: Point) -> (sum: Option<Point>)
        ensures
            sum == (if self.can_shift(d) {
                Some(self.shifted(d))
            } else {
                None::<Point>
            }),
    {
        match (self.x.checked_add(d.x), self.y.checked_add(d.y)) {
            (Some(x), Some(y)) => Some(Point::new(x, y)),
            _ => None,
        }
    }
}

impl AddSpecImpl for Point {
    open spec fn obeys_add_spec() -> bool {
        true
    }

    open spec fn add_req(self, rhs: Point) -> bool {
        self.can_shift(rhs)
    }

    open spec fn add_spec(self, rhs: Point) -> Point {
        self.shifted(rhs)
    }
}

impl Add for Point {
    type Output = Self;

    /// The sum of two coordinates, component by component. Neither
    /// component may overflow.
    #[inline]
    fn add(self, rhs: Self) -> (sum: Self)
        ensures
            sum == self.shifted(rhs),
    {
        Point::new(self.x + rhs.x, self.y + rhs.y)
    }
}

} // verus!
