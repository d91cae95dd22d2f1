//! Food placement: a random cell of the grid that the snake does not cover.

use vstd::prelude::*;
use crate::geometry::Point;

verus! {

/// How many random cells `rand_point` tries before it scans the grid.
pub const MAX_DRAWS: u32 = 1024;

/// A cell of the grid that `exclude` does not hold.
pub open spec fn is_free_cell(cell: Point, width: u32, height: u32, exclude: Seq<Point>) -> bool {
    cell.in_grid(width, height) && !exclude.contains(cell)
}

/// Whether `exclude` leaves at least one cell of the grid free.
pub open spec fn has_free_cell(width: u32, height: u32, exclude: Seq<Point>) -> bool {
    exists|cell: Point| is_free_cell(cell, width, height, exclude)
}

/// Reading order of the grid: row by row from the top, each row from the left.
pub open spec fn reads_before(a: Point, b: Point) -> bool {
    a.y < b.y || (a.y == b.y && a.x < b.x)
}

/// The free cell that comes first in reading order.
pub open spec fn is_first_free_cell(
    cell: Point,
    width: u32,
    height: u32,
    exclude: Seq<Point>,
) -> bool {
    &&& is_free_cell(cell, width, height, exclude)
    &&& forall|other: Point|
        other.in_grid(width, height) && reads_before(other, cell) ==> #[trigger] exclude.contains(
            other,
        )
}

/// Draws a number from `0..bound` with `fastrand::i32`, which panics on an
/// empty range and otherwise returns a member of the range it is given.
/// Trusted: the result lies in `0..bound`. Which member comes back is left
/// open, so two calls may differ.
#[verifier::external_body]
pub(crate) fn random_below(bound: i32) -> (drawn: i32)
    requires
        0 < bound,
    ensures
        0 <= drawn < bound,
{
    fastrand::i32(0..bound)
}

/// Whether `point` is one of `points`.
pub fn contains(points: &[Point], point: Point) -> (found: bool)
    ensures
        found == points@.contains(point),
{
    let mut i: usize = 0;
    while i < points.len()
        invariant
            i <= points@.len(),
            forall|j: int| 0 <= j < i ==> points@[j] != point,
        decreases points@.len() - i,
    {
        if points[i] == point {
            return true;
        }
        i += 1;
    }
    false
}

/// The first cell in reading order that `exclude` leaves free, if there is one.
pub fn first_free(width: u32, height: u32, exclude: &[Point]) -> (cell: Option<Point>)
    requires
        width <= i32::MAX,
        height <= i32::MAX,
    ensures
        match cell {
            Some(found) => is_first_free_cell(found, width, height, exclude@),
            None => !has_free_cell(width, height, exclude@),
        },
{
    let columns: i32 = width as i32;
    let rows: i32 = height as i32;
    let mut y: i32 = 0;
    while y < rows
        invariant
            columns == width,
            rows == height,
            0 <= y <= rows,
            forall|other: Point|
                other.in_grid(width, height) && other.y < y ==> #[trigger] exclude@.contains(other),
        decreases rows - y,
    {
        let mut x: i32 = 0;
        while x < columns
            invariant
                columns == width,
                rows == height,
                0 <= y < rows,
                0 <= x <= columns,
                forall|other: Point|
                    other.in_grid(width, height) && reads_before(other, Point { x, y })
                        ==> #[trigger] exclude@.contains(other),
            decreases columns - x,
        {
            let cell = Point::new(x, y);
            if !contains(exclude, cell) {
                return Some(cell);
            }
            x += 1;
        }
        y += 1;
    }
    None
}

/// A cell of the grid that is not in `exclude`.
///
/// Cells are drawn at random and the first one outside `exclude` is taken.
/// After `MAX_DRAWS` misses the grid is scanned instead, so the search ends on
/// every input: with a free cell whenever one exists, with `None` only when
/// `exclude` covers the whole grid.
pub fn rand_point(width: u32, height: u32, exclude: &[Point]) -> (cell: Option<Point>)
    requires
        width <= i32::MAX,
        height <= i32::MAX,
    ensures
        match cell {
            Some(found) => is_free_cell(found, width, height, exclude@),
            None => !has_free_cell(width, height, exclude@),
        },
{
    if width == 0 || height == 0 {
        return None;
    }
    let mut draws: u32 = 0;
    while draws < MAX_DRAWS
        invariant
            0 < width <= i32::MAX,
            0 < height <= i32::MAX,
        decreases MAX_DRAWS - draws,
    {
        let x: i32 = random_below(width as i32);
        let y: i32 = random_below(height as i32);
        let cell = Point::new(x, y);
        if !contains(exclude, cell) {
            return Some(cell);
        }
        draws += 1;
    }
    first_free(width, height, exclude)
}

} // verus!
