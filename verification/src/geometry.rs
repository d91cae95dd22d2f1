//! Grid cells and single-step displacements.

use vstd::prelude::*;

verus! {

/// One cell of the grid, or a position next to it.
#[derive(Clone, Copy, Debug, PartialEq, Eq, Structural)]
pub struct Point {
    pub x: i32,
    pub y: i32,
}

/// A displacement between two cells.
#[derive(Clone, Copy, Debug, PartialEq, Eq, Structural)]
pub struct Vector {
    pub x: i32,
    pub y: i32,
}

impl Point {
    pub fn new(x: i32, y: i32) -> (point: Point)
        ensures
            point == (Point { x, y }),
    {
        Point { x, y }
    }

    /// The point that lies `vector` away from this one.
    pub open spec fn plus(self, vector: Vector) -> Point {
        Point { x: (self.x + vector.x) as i32, y: (self.y + vector.y) as i32 }
    }

    /// Whether `self.plus(vector)` can be held in `i32` coordinates.
    pub open spec fn can_add(self, vector: Vector) -> bool {
        &&& i32::MIN <= self.x + vector.x <= i32::MAX
        &&& i32::MIN <= self.y + vector.y <= i32::MAX
    }

    /// Whether the point is one of the cells of a `width` by `height` grid.
    pub open spec fn in_grid(self, width: u32, height: u32) -> bool {
        &&& 0 <= self.x < width
        &&& 0 <= self.y < height
    }
}

impl Vector {
    pub fn new(x: i32, y: i32) -> (vector: Vector)
        ensures
            vector == (Vector { x, y }),
    {
        Vector { x, y }
    }
}

/// Adds a vector to a point with euclid's `Add<Vector2D<i32, U>>` for
/// `Point2D<i32, U>`, which adds the two `x` and the two `y` with `+` on `i32`.
/// Trusted: the sums are taken component by component. Inputs whose sum
/// leaves `i32` are left out, since `+` may panic on them.
#[verifier::external_body]
pub(crate) fn shifted(point: Point, vector: Vector) -> (moved: Point)
    requires
        point.can_add(vector),
    ensures
        moved.x == point.x + vector.x,
        moved.y == point.y + vector.y,
{
    let from: euclid::default::Point2D<i32> = euclid::Point2D::new(point.x, point.y);
    let by: euclid::default::Vector2D<i32> = euclid::Vector2D::new(vector.x, vector.y);
    let to = from + by;
    Point { x: to.x, y: to.y }
}

} // verus!
