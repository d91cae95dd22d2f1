//! The four directions a snake can travel in.

use vstd::prelude::*;
use crate::geometry::Vector;

verus! {

#[derive(Clone, Copy, Debug, PartialEq, Eq, Structural)]
pub enum Direction {
    Up,
    Down,
    Left,
    Right,
}

impl Direction {
    pub open spec fn spec_opposite(&self) -> Direction {
        match self {
            Direction::Up => Direction::Down,
            Direction::Down => Direction::Up,
            Direction::Left => Direction::Right,
            Direction::Right => Direction::Left,
        }
    }

    /// The unit step of the direction; `y` grows downwards.
    pub open spec fn spec_to_vector(&self) -> Vector {
        match self {
            Direction::Up => Vector { x: 0, y: (-1) as i32 },
            Direction::Down => Vector { x: 0, y: 1 },
            Direction::Left => Vector { x: (-1) as i32, y: 0 },
            Direction::Right => Vector { x: 1, y: 0 },
        }
    }

    /// The reverse direction.
    #[verifier::when_used_as_spec(spec_opposite)]
    pub fn opposite(&self) -> (reverse: Direction)
        ensures
            reverse == self.spec_opposite(),
    {
        match self {
            Direction::Up => Direction::Down,
            Direction::Down => Direction::Up,
            Direction::Left => Direction::Right,
            Direction::Right => Direction::Left,
        }
    }

    /// The displacement of one step in this direction.
    #[verifier::when_used_as_spec(spec_to_vector)]
    pub fn to_vector(&self) -> (step: Vector)
        ensures
            step == self.spec_to_vector(),
    {
        match self {
            Direction::Up => Vector::new(0, -1),
            Direction::Down => Vector::new(0, 1),
            Direction::Left => Vector::new(-1, 0),
            Direction::Right => Vector::new(1, 0),
        }
    }
}

/// Reversing a direction twice gives the direction back.
pub proof fn opposite_is_involution(d: Direction)
    ensures
        d.opposite().opposite() == d,
{
}

/// No direction is its own reverse.
pub proof fn opposite_differs(d: Direction)
    ensures
        d.opposite() != d,
{
}

/// Every step is one cell long and runs along exactly one axis.
pub proof fn to_vector_is_unit(d: Direction)
    ensures
        ({
            let step = d.to_vector();
            ||| step.x == 0 && (step.y == 1 || step.y == -1)
            ||| step.y == 0 && (step.x == 1 || step.x == -1)
        }),
{
}

/// Distinct directions have distinct steps.
pub proof fn to_vector_is_injective(a: Direction, b: Direction)
    requires
        a.to_vector() == b.to_vector(),
    ensures
        a == b,
{
}

/// The step of the reverse direction is the negated step.
pub proof fn opposite_negates_vector(d: Direction)
    ensures
        d.opposite().to_vector().x == -d.to_vector().x,
        d.opposite().to_vector().y == -d.to_vector().y,
{
}

} // verus!
