//! The snake: its body, how it moves and grows, and when it dies.

use vstd::prelude::*;
use vstd::slice::slice_to_vec;
use vstd::slice::slice_subrange;
use crate::direction::Direction;
use crate::food::contains;
use crate::food::has_free_cell;
use crate::food::is_free_cell;
use crate::food::rand_point;
use crate::geometry::shifted;
use crate::geometry::Point;

verus! {

/// What a snake is, as plain mathematics.
pub struct SnekView {
    /// The cells of the body from tail to head: the last one is the head.
    pub body: Seq<Point>,
    /// The length of the body at creation.
    pub start_len: nat,
    pub direction: Direction,
    /// Set only for the moment between landing on food and growing.
    pub eating: bool,
    pub alive: bool,
}

impl SnekView {
    /// A snake always has a head, never is shorter than it began, and is not
    /// left in the middle of a meal.
    pub open spec fn wf(self) -> bool {
        &&& self.body.len() >= 1
        &&& self.start_len <= self.body.len()
        &&& !self.eating
    }

    pub open spec fn head(self) -> Point {
        self.body.last()
    }

    /// Where the head goes with the next step.
    pub open spec fn next_head(self) -> Point {
        self.head().plus(self.direction.to_vector())
    }

    /// Whether the next head still has `i32` coordinates.
    pub open spec fn can_advance(self) -> bool {
        self.head().can_add(self.direction.to_vector())
    }

    /// The head lies on another segment of the body.
    pub open spec fn hits_itself(self) -> bool {
        exists|i: int| 0 <= i < self.body.len() - 1 && self.body[i] == self.head()
    }

    /// The head lies on another segment or outside the grid.
    pub open spec fn is_dead(self, width: u32, height: u32) -> bool {
        self.hits_itself() || !self.head().in_grid(width, height)
    }

    pub open spec fn score(self) -> int {
        self.body.len() - self.start_len
    }

    /// The snake after a request to travel in `direction`: a request to
    /// reverse is ignored.
    pub open spec fn turned(self, direction: Direction) -> SnekView {
        SnekView {
            direction: if direction == self.direction.opposite() {
                self.direction
            } else {
                direction
            },
            ..self
        }
    }

    /// The snake after a step that found no food: every segment moves up by
    /// one and the oldest cell is given up.
    pub open spec fn crawled(self) -> SnekView {
        SnekView { body: self.body.push(self.next_head()).drop_first(), ..self }
    }

    /// The snake after a step onto food: the new head is added and the tail
    /// stays.
    pub open spec fn grown(self) -> SnekView {
        SnekView { body: self.body.push(self.next_head()), ..self }
    }

    /// The snake after one step towards `food`.
    pub open spec fn stepped(self, food: Option<Point>) -> SnekView {
        if food == Some(self.next_head()) {
            self.grown()
        } else {
            self.crawled()
        }
    }
}

/// A step that finds no food keeps the length of the body: the head moves one
/// cell in the direction of travel, every other segment takes the place of
/// the one before it, and the oldest cell is given up.
pub proof fn crawling_keeps_length(snek: SnekView)
    requires
        snek.wf(),
    ensures
        snek.crawled().wf(),
        snek.crawled().body.len() == snek.body.len(),
        snek.crawled().head() == snek.head().plus(snek.direction.to_vector()),
        forall|i: int| 0 <= i < snek.body.len() - 1 ==> snek.crawled().body[i] == snek.body[i + 1],
        snek.crawled().score() == snek.score(),
{
}

/// A step onto food makes the body one cell longer: the head is new and
/// every old cell, the tail included, stays where it was.
pub proof fn growing_keeps_tail(snek: SnekView)
    requires
        snek.wf(),
    ensures
        snek.grown().wf(),
        snek.grown().body.len() == snek.body.len() + 1,
        snek.grown().head() == snek.head().plus(snek.direction.to_vector()),
        forall|i: int| 0 <= i < snek.body.len() ==> snek.grown().body[i] == snek.body[i],
        snek.grown().score() == snek.score() + 1,
{
}

/// The score is never negative, and a step changes it only by growth.
pub proof fn score_counts_growth(snek: SnekView, food: Option<Point>)
    requires
        snek.wf(),
    ensures
        snek.score() >= 0,
        snek.stepped(food).score() == if food == Some(snek.next_head()) {
            snek.score() + 1
        } else {
            snek.score()
        },
{
}

/// A request to reverse changes nothing, so the next step still leads the
/// head in the old direction of travel.
pub proof fn reversal_is_ignored(snek: SnekView, food: Option<Point>)
    requires
        snek.wf(),
    ensures
        snek.turned(snek.direction.opposite()) == snek,
        snek.turned(snek.direction.opposite()).stepped(food).head() == snek.head().plus(
            snek.direction.to_vector(),
        ),
{
}

/// Any request but one to reverse sets the direction, and nothing else.
pub proof fn turn_is_taken(snek: SnekView, direction: Direction)
    requires
        direction != snek.direction.opposite(),
    ensures
        snek.turned(direction).direction == direction,
        snek.turned(direction).body == snek.body,
        snek.turned(direction).start_len == snek.start_len,
        snek.turned(direction).alive == snek.alive,
        snek.turned(direction).eating == snek.eating,
{
}

/// A step that leads the head out of the grid leaves the snake dead.
pub proof fn leaving_the_grid_is_deadly(
    snek: SnekView,
    food: Option<Point>,
    width: u32,
    height: u32,
)
    requires
        snek.wf(),
        !snek.next_head().in_grid(width, height),
    ensures
        snek.stepped(food).is_dead(width, height),
{
}

/// A snake that travels right from the rightmost column has its head in
/// column `width` after the step, and is dead.
pub proof fn right_edge_is_deadly(snek: SnekView, food: Option<Point>, width: u32, height: u32)
    requires
        snek.wf(),
        snek.can_advance(),
        snek.direction == Direction::Right,
        snek.head().x == width - 1,
    ensures
        snek.stepped(food).head().x == width,
        snek.stepped(food).is_dead(width, height),
{
}

/// A step onto a cell that the body still covers after the step leaves the
/// snake dead. The cell that the tail gives up does not count, unless the
/// snake grows.
pub proof fn running_into_the_body_is_deadly(
    snek: SnekView,
    food: Option<Point>,
    width: u32,
    height: u32,
    i: int,
)
    requires
        snek.wf(),
        0 <= i < snek.body.len(),
        snek.body[i] == snek.next_head(),
        i >= 1 || food == Some(snek.next_head()),
    ensures
        snek.stepped(food).is_dead(width, height),
{
    let after = snek.stepped(food);
    if food == Some(snek.next_head()) {
        assert(after.body[i] == after.head());
    } else {
        assert(after.body[i - 1] == after.head());
    }
}


pub struct Snek {
    body: Vec<Point>,
    start_len: usize,
    direction: Direction,
    eating: bool,
    alive: bool,
}

impl View for Snek {
    type V = SnekView;

    closed spec fn view(&self) -> SnekView {
        SnekView {
            body: self.body@,
            start_len: self.start_len as nat,
            direction: self.direction,
            eating: self.eating,
            alive: self.alive,
        }
    }
}

impl Snek {
    /// A living snake with the given body, about to travel right.
    pub fn new(starting_body: &[Point]) -> (snek: Snek)
        requires
            starting_body@.len() >= 1,
        ensures
            snek@ == (SnekView {
                body: starting_body@,
                start_len: starting_body@.len(),
                direction: Direction::Right,
                eating: false,
                alive: true,
            }),
            snek@.wf(),
            snek@.score() == 0,
    {
        Snek {
            body: slice_to_vec(starting_body),
            start_len: starting_body.len(),
            direction: Direction::Right,
            eating: false,
            alive: true,
        }
    }

    /// The cells of the body from tail to head.
    pub fn body(&self) -> (cells: &[Point])
        ensures
            cells@ == self@.body,
    {
        self.body.as_slice()
    }

    pub fn head(&self) -> (head: Point)
        requires
            self@.wf(),
        ensures
            head == self@.head(),
    {
        self.body[self.body.len() - 1]
    }

    pub fn direction(&self) -> (direction: Direction)
        ensures
            direction == self@.direction,
    {
        self.direction
    }

    pub fn alive(&self) -> (alive: bool)
        ensures
            alive == self@.alive,
    {
        self.alive
    }

    /// Moves the snake one cell in its direction.
    ///
    /// If the new head lands on `food` the snake grows by that cell and `food`
    /// is placed anew on a cell that the grown body leaves free, or taken off
    /// the board if there is none. Otherwise the tail cell is given up and
    /// `food` stays.
    pub fn slither(&mut self, food: &mut Option<Point>, width: u32, height: u32)
        requires
            old(self)@.wf(),
            old(self)@.can_advance(),
            width <= i32::MAX,
            height <= i32::MAX,
        ensures
            final(self)@.wf(),
            final(self)@ == old(self)@.stepped(*old(food)),
            final(self)@.head() == old(self)@.head().plus(old(self)@.direction.to_vector()),
            *old(food) != Some(old(self)@.next_head()) ==> {
                &&& final(self)@.body.len() == old(self)@.body.len()
                &&& final(self)@.body == old(self)@.body.drop_first().push(old(self)@.next_head())
                &&& *final(food) == *old(food)
            },
            *old(food) == Some(old(self)@.next_head()) ==> {
                &&& final(self)@.body.len() == old(self)@.body.len() + 1
                &&& final(self)@.body == old(self)@.body.push(old(self)@.next_head())
                &&& match *final(food) {
                    Some(placed) => is_free_cell(placed, width, height, final(self)@.body),
                    None => !has_free_cell(width, height, final(self)@.body),
                }
            },
    {
        let head = shifted(self.body[self.body.len() - 1], self.direction.to_vector());
        self.body.push(head);
        match *food {
            Some(cell) => {
                self.eat(cell);
            },
            None => {},
        }
        if !self.eating {
            self.body.remove(0);
            assert(self.body@ =~= old(self)@.body.drop_first().push(head));
        } else {
            self.eating = false;
            *food = rand_point(width, height, self.body.as_slice());
        }
    }

    /// Whether the head lies on another segment of the body or outside the
    /// `width` by `height` grid.
    pub fn dead(&self, width: u32, height: u32) -> (dead: bool)
        requires
            self@.wf(),
        ensures
            dead == self@.is_dead(width, height),
            dead <==> !self@.head().in_grid(width, height) || exists|i: int|
                0 <= i < self@.body.len() - 1 && self@.body[i] == self@.head(),
    {
        let last = self.body[self.body.len() - 1];
        proof {
            let rest = self.body@.subrange(0, self.body@.len() - 1);
            if self@.hits_itself() {
                let i = choose|i: int| 0 <= i < self.body@.len() - 1 && self.body@[i] == last;
                assert(rest[i] == last);
            }
            if rest.contains(last) {
                let i = choose|i: int| 0 <= i < rest.len() && rest[i] == last;
                assert(self.body@[i] == last);
            }
            assert(self@.hits_itself() <==> rest.contains(last));
        }
        contains(slice_subrange(self.body.as_slice(), 0, self.body.len() - 1), last) || last.x < 0
            || last.y < 0 || last.x as i64 > width as i64 - 1 || last.y as i64 > height as i64 - 1
    }

    /// Turns the snake towards `direction`, unless that would reverse it.
    pub fn change_direction(&mut self, direction: Direction)
        ensures
            final(self)@ == old(self)@.turned(direction),
            direction == old(self)@.direction.opposite() ==> final(self)@.direction == old(
                self,
            )@.direction,
            direction != old(self)@.direction.opposite() ==> final(self)@.direction == direction,
            old(self)@.wf() ==> final(self)@.wf(),
    {
        if self.direction != direction.opposite() {
            self.direction = direction;
        }
    }

    /// How many cells the snake has grown by since it was made.
    pub fn score(&self) -> (score: usize)
        requires
            self@.wf(),
        ensures
            score == self@.score(),
            score == self@.body.len() - self@.start_len,
    {
        self.body.len() - self.start_len
    }

    /// Notes that a meal has begun if the head lies on `food`.
    fn eat(&mut self, food: Point)
        requires
            old(self)@.body.len() >= 1,
        ensures
            final(self)@ == (SnekView {
                eating: old(self)@.eating || old(self)@.head() == food,
                ..old(self)@
            }),
    {
        if self.body[self.body.len() - 1] == food {
            self.eating = true;
        }
    }

    /// Settles whether the snake lives on: it does unless it is dead already,
    /// has just died, or the player has asked to quit.
    pub fn settle(&mut self, quit_requested: bool, width: u32, height: u32) -> (alive: bool)
        requires
            old(self)@.wf(),
        ensures
            final(self)@ == (SnekView {
                alive: old(self)@.alive && !(quit_requested || old(self)@.is_dead(width, height)),
                ..old(self)@
            }),
            alive == final(self)@.alive,
    {
        let dead = self.dead(width, height);
        self.alive = self.alive && !(quit_requested || dead);
        self.alive
    }
}

} // verus!
