//! The game: a snake, the food, and the rules of one frame.
//!
//! A frame has two halves. `begin_frame` settles whether the snake is still
//! alive and composes what is to be shown. Once that is on the screen and the
//! keys have been polled, `end_frame` applies at most one command and moves
//! the snake, if it is alive and the game is not paused.

use vstd::prelude::*;
use vstd::string::StrSliceExecFns;
use vstd::string::StringExecFns;
use crate::direction::Direction;
use crate::food::has_free_cell;
use crate::food::is_free_cell;
use crate::food::rand_point;
use crate::geometry::Point;
use crate::render::body_layer;
use crate::render::cell_fits;
use crate::render::food_layer;
use crate::render::map_layer;
use crate::render::ops_view;
use crate::render::prompt_layer;
use crate::render::push_cell;
use crate::render::pxl_bg;
use crate::render::pxl_fbg;
use crate::render::score_text;
use crate::render::screen_fits;
use crate::render::screen_height;
use crate::render::screen_width;
use crate::render::snek_layer;
use crate::render::Color;
use crate::render::DrawOp;
use crate::render::DrawOpView;
use crate::render::BORDER_COLOR;
use crate::render::DEAD_EYE_CHAR;
use crate::render::EYE_CHAR;
use crate::render::FOOD_COLOR;
use crate::render::GAME_PROMPT;
use crate::render::HEAD_COLOR;
use crate::render::MAP_COLOR;
use crate::render::PAUSE_PROMPT;
use crate::render::SCORE_PROMPT;
use crate::render::SNEK_COLOR;
use crate::snek::Snek;
use crate::snek::SnekView;
use crate::text::decimal_len_of_usize;
use crate::text::decimal_text;

verus! {

/// The width of the standard grid, in cells.
pub const WIDTH: u32 = 17;

/// The height of the standard grid, in cells.
pub const HEIGHT: u32 = 15;

/// The frames shown per second, and so the steps of the snake per second.
pub const FPS: u32 = 8;

/// The body of the snake at the start of a standard game: four cells in the
/// top row, the head rightmost.
pub open spec fn spec_starting_body() -> Seq<Point> {
    seq![Point { x: 0, y: 0 }, Point { x: 1, y: 0 }, Point { x: 2, y: 0 }, Point { x: 3, y: 0 }]
}

pub fn starting_body() -> (body: Vec<Point>)
    ensures
        body@ == spec_starting_body(),
{
    let mut body: Vec<Point> = Vec::new();
    body.push(Point::new(0, 0));
    body.push(Point::new(1, 0));
    body.push(Point::new(2, 0));
    body.push(Point::new(3, 0));
    assert(body@ =~= spec_starting_body());
    body
}

/// The keys that were found pressed when the keyboard was polled.
#[derive(Clone, Copy, Debug, PartialEq, Eq, Structural)]
pub struct Keys {
    pub pause: bool,
    pub up: bool,
    pub down: bool,
    pub left: bool,
    pub right: bool,
}

/// What the player asks for in one frame.
#[derive(Clone, Copy, Debug, PartialEq, Eq, Structural)]
pub enum Command {
    TogglePause,
    Turn(Direction),
    Idle,
}

impl Keys {
    pub open spec fn spec_command(&self) -> Command {
        if self.pause {
            Command::TogglePause
        } else if self.up {
            Command::Turn(Direction::Up)
        } else if self.down {
            Command::Turn(Direction::Down)
        } else if self.left {
            Command::Turn(Direction::Left)
        } else if self.right {
            Command::Turn(Direction::Right)
        } else {
            Command::Idle
        }
    }

    /// The one command that the pressed keys stand for: pause comes first,
    /// then up, down, left and right.
    #[verifier::when_used_as_spec(spec_command)]
    pub fn command(&self) -> (command: Command)
        ensures
            command == self.spec_command(),
    {
        if self.pause {
            Command::TogglePause
        } else if self.up {
            Command::Turn(Direction::Up)
        } else if self.down {
            Command::Turn(Direction::Down)
        } else if self.left {
            Command::Turn(Direction::Left)
        } else if self.right {
            Command::Turn(Direction::Right)
        } else {
            Command::Idle
        }
    }
}

/// What a game is, as plain mathematics.
pub struct GameView {
    pub snek: SnekView,
    /// The cell the food lies on, if any is on the board.
    pub food: Option<Point>,
    pub paused: bool,
    pub width: u32,
    pub height: u32,
}

impl GameView {
    pub open spec fn wf(self) -> bool {
        &&& self.snek.wf()
        &&& screen_fits(self.width, self.height)
        &&& forall|i: int| 0 <= i < self.snek.body.len() ==> cell_fits(#[trigger] self.snek.body[i])
        &&& self.food matches Some(cell) ==> is_free_cell(
            cell,
            self.width,
            self.height,
            self.snek.body,
        )
    }

    /// Everything that is drawn for this state, in drawing order: the map,
    /// the two lines of text, the food, the snake.
    pub open spec fn frame(self) -> Seq<DrawOpView> {
        map_layer(self.width, self.height) + prompt_layer(
            self.width,
            self.height,
            self.paused,
            self.snek.score() as nat,
        ) + food_layer(self.food) + snek_layer(self.snek.body, self.snek.alive)
    }

    /// The game once it is settled whether the snake lives on.
    pub open spec fn settled(self, quit_requested: bool) -> GameView {
        GameView {
            snek: SnekView {
                alive: self.snek.alive && !(quit_requested || self.snek.is_dead(
                    self.width,
                    self.height,
                )),
                ..self.snek
            },
            ..self
        }
    }

    /// The game after a command of the player.
    pub open spec fn commanded(self, command: Command) -> GameView {
        match command {
            Command::TogglePause => GameView { paused: !self.paused, ..self },
            Command::Turn(direction) => GameView { snek: self.snek.turned(direction), ..self },
            Command::Idle => self,
        }
    }

    /// Whether the snake moves at the end of the frame: only while the game is
    /// not paused and the snake is alive. A snake that has run into itself or
    /// left the grid stays where it died, even before that has been settled.
    pub open spec fn moves(self) -> bool {
        !self.paused && self.snek.alive && !self.snek.is_dead(self.width, self.height)
    }

    /// Whether `next` is this game one step of the snake later. The snake's
    /// step is fixed; new food may come to lie on any free cell.
    pub open spec fn steps_to(self, next: GameView) -> bool {
        &&& next.snek == self.snek.stepped(self.food)
        &&& next.paused == self.paused
        &&& next.width == self.width
        &&& next.height == self.height
        &&& if self.food == Some(self.snek.next_head()) {
            match next.food {
                Some(cell) => is_free_cell(cell, self.width, self.height, next.snek.body),
                None => !has_free_cell(self.width, self.height, next.snek.body),
            }
        } else {
            next.food == self.food
        }
    }
}

pub struct Game {
    snek: Snek,
    food: Option<Point>,
    paused: bool,
    width: u32,
    height: u32,
}

impl View for Game {
    type V = GameView;

    closed spec fn view(&self) -> GameView {
        GameView {
            snek: self.snek@,
            food: self.food,
            paused: self.paused,
            width: self.width,
            height: self.height,
        }
    }
}

impl Game {
    /// A game on a `width` by `height` grid, with a fresh snake and food on a
    /// free cell, if the snake leaves one.
    pub fn new(width: u32, height: u32, starting_body: &[Point]) -> (game: Game)
        requires
            starting_body@.len() >= 1,
            screen_fits(width, height),
            forall|i: int| 0 <= i < starting_body@.len() ==> cell_fits(#[trigger] starting_body@[i]),
        ensures
            game@.wf(),
            game@.snek == (SnekView {
                body: starting_body@,
                start_len: starting_body@.len(),
                direction: Direction::Right,
                eating: false,
                alive: true,
            }),
            !game@.paused,
            game@.width == width,
            game@.height == height,
            game@.food is None ==> !has_free_cell(width, height, starting_body@),
    {
        Game {
            snek: Snek::new(starting_body),
            food: rand_point(width, height, starting_body),
            paused: false,
            width,
            height,
        }
    }

    /// The standard game: a `WIDTH` by `HEIGHT` grid and the standard snake.
    pub fn standard() -> (game: Game)
        ensures
            game@.wf(),
            game@.snek == (SnekView {
                body: spec_starting_body(),
                start_len: 4,
                direction: Direction::Right,
                eating: false,
                alive: true,
            }),
            !game@.paused,
            game@.width == WIDTH,
            game@.height == HEIGHT,
            game@.food is Some,
    {
        let body = starting_body();
        assert(is_free_cell(Point { x: 0, y: 1 }, WIDTH, HEIGHT, body@));
        Game::new(WIDTH, HEIGHT, body.as_slice())
    }

    pub fn snek(&self) -> (snek: &Snek)
        ensures
            snek@ == self@.snek,
    {
        &self.snek
    }

    pub fn food(&self) -> (food: Option<Point>)
        ensures
            food == self@.food,
    {
        self.food
    }

    pub fn paused(&self) -> (paused: bool)
        ensures
            paused == self@.paused,
    {
        self.paused
    }

    pub fn width(&self) -> (width: u32)
        ensures
            width == self@.width,
    {
        self.width
    }

    pub fn height(&self) -> (height: u32)
        ensures
            height == self@.height,
    {
        self.height
    }

    /// The columns and rows of the screen that shows the game.
    pub fn screen_size(&self) -> (size: (u32, u32))
        requires
            screen_fits(self@.width, self@.height),
        ensures
            size.0 == screen_width(self@.width),
            size.1 == screen_height(self@.height),
    {
        (self.width * 2 + 4, self.height + 2)
    }

    /// Whether the game goes on.
    pub fn alive(&self) -> (alive: bool)
        ensures
            alive == self@.snek.alive,
    {
        self.snek.alive()
    }

    /// How many cells the snake has grown by.
    pub fn score(&self) -> (score: usize)
        requires
            self@.snek.wf(),
        ensures
            score == self@.snek.score(),
    {
        self.snek.score()
    }

    /// Composes the frame that shows the game as it stands.
    pub fn draw(&self) -> (frame: Vec<DrawOp>)
        requires
            self@.wf(),
        ensures
            ops_view(frame@) == self@.frame(),
    {
        let mut frame: Vec<DrawOp> = Vec::new();
        assert(ops_view(frame@) =~= Seq::empty());
        self.draw_map(&mut frame);
        self.draw_prompts(&mut frame);
        self.draw_food(&mut frame);
        self.draw_snek(&mut frame);
        assert(ops_view(frame@) =~= self@.frame());
        frame
    }

    /// Adds the border and the map to a frame.
    pub fn draw_map(&self, frame: &mut Vec<DrawOp>)
        requires
            screen_fits(self@.width, self@.height),
        ensures
            ops_view(final(frame)@) == ops_view(old(frame)@) + map_layer(
                self@.width,
                self@.height,
            ),
    {
        let columns: i32 = (self.width * 2 + 4) as i32;
        let rows: i32 = (self.height + 2) as i32;
        frame.push(DrawOp::Fill { pixel: pxl_bg(' ', BORDER_COLOR) });
        frame.push(
            DrawOp::FillRect {
                start_x: 2,
                start_y: 1,
                end_x: columns - 3,
                end_y: rows - 2,
                pixel: pxl_bg(' ', MAP_COLOR),
            },
        );
        assert(ops_view(frame@) =~= ops_view(old(frame)@) + map_layer(self@.width, self@.height));
    }

    /// Adds the score line and the status line to a frame, each centred.
    pub fn draw_prompts(&self, frame: &mut Vec<DrawOp>)
        requires
            self@.snek.wf(),
            screen_fits(self@.width, self@.height),
        ensures
            ops_view(final(frame)@) == ops_view(old(frame)@) + prompt_layer(
                self@.width,
                self@.height,
                self@.paused,
                self@.snek.score() as nat,
            ),
    {
        let points: usize = self.snek.score();
        proof {
            reveal_strlit("SNEK");
            reveal_strlit("PAUSED");
            reveal_strlit("SCORE: ");
            decimal_len_of_usize(points);
        }
        let half: u32 = (self.width * 2 + 4) / 2;
        let mut score = String::from_str(SCORE_PROMPT);
        score.append(decimal_text(points).as_str());
        assert(score@ == score_text(self@.snek.score() as nat));
        let mid: i32 = half as i32 - (score.as_str().unicode_len() / 2) as i32;
        frame.push(
            DrawOp::Print {
                x: mid,
                y: (self.height + 2) as i32 - 1,
                text: score,
                fg: Color::Reset,
                bg: BORDER_COLOR,
            },
        );
        let prompt = if self.paused {
            PAUSE_PROMPT
        } else {
            GAME_PROMPT
        };
        let mid: i32 = half as i32 - (prompt.unicode_len() / 2) as i32;
        frame.push(
            DrawOp::Print {
                x: mid,
                y: 0,
                text: String::from_str(prompt),
                fg: Color::Reset,
                bg: BORDER_COLOR,
            },
        );
        assert(ops_view(frame@) =~= ops_view(old(frame)@) + prompt_layer(
            self@.width,
            self@.height,
            self@.paused,
            self@.snek.score() as nat,
        ));
    }

    /// Adds the food to a frame, if there is any on the board.
    pub fn draw_food(&self, frame: &mut Vec<DrawOp>)
        requires
            self@.food matches Some(cell) ==> cell_fits(cell),
        ensures
            ops_view(final(frame)@) == ops_view(old(frame)@) + food_layer(self@.food),
    {
        match self.food {
            Some(cell) => {
                push_cell(frame, cell, pxl_bg(' ', FOOD_COLOR));
            },
            None => {
                assert(ops_view(frame@) =~= ops_view(old(frame)@) + food_layer(self@.food));
            },
        }
    }

    /// Adds the snake to a frame: each segment from tail to head, then the
    /// head once more with its eye, open while the snake lives.
    pub fn draw_snek(&self, frame: &mut Vec<DrawOp>)
        requires
            self@.snek.wf(),
            forall|i: int|
                0 <= i < self@.snek.body.len() ==> cell_fits(#[trigger] self@.snek.body[i]),
        ensures
            ops_view(final(frame)@) == ops_view(old(frame)@) + snek_layer(
                self@.snek.body,
                self@.snek.alive,
            ),
    {
        let body = self.snek.body();
        let mut i: usize = 0;
        assert(body@.take(0) =~= Seq::empty());
        assert(ops_view(frame@) =~= ops_view(old(frame)@) + body_layer(body@.take(0)));
        while i < body.len()
            invariant
                i <= body@.len(),
                body@ == self@.snek.body,
                forall|j: int| 0 <= j < body@.len() ==> cell_fits(#[trigger] body@[j]),
                ops_view(frame@) == ops_view(old(frame)@) + body_layer(body@.take(i as int)),
            decreases body@.len() - i,
        {
            push_cell(frame, body[i], pxl_bg(' ', SNEK_COLOR));
            proof {
                let next = body@.take(i + 1);
                assert(next.drop_last() =~= body@.take(i as int));
                assert(next.last() == body@[i as int]);
                assert(ops_view(frame@) =~= ops_view(old(frame)@) + body_layer(next));
            }
            i += 1;
        }
        assert(body@.take(i as int) =~= body@);
        let eye = if self.snek.alive() {
            EYE_CHAR
        } else {
            DEAD_EYE_CHAR
        };
        push_cell(frame, self.snek.head(), pxl_fbg(eye, HEAD_COLOR, SNEK_COLOR));
        assert(ops_view(frame@) =~= ops_view(old(frame)@) + snek_layer(
            self@.snek.body,
            self@.snek.alive,
        ));
    }

    /// Applies what the pressed keys ask for: at most one of a pause toggle
    /// and a turn.
    pub fn input(&mut self, keys: Keys)
        ensures
            final(self)@ == old(self)@.commanded(keys.command()),
            old(self)@.wf() ==> final(self)@.wf(),
    {
        match keys.command() {
            Command::TogglePause => {
                self.paused = !self.paused;
            },
            Command::Turn(direction) => {
                self.snek.change_direction(direction);
            },
            Command::Idle => {},
        }
    }

    /// The first half of a frame: settles whether the snake lives on, and
    /// composes the frame that shows the outcome.
    pub fn begin_frame(&mut self, quit_requested: bool) -> (frame: Vec<DrawOp>)
        requires
            old(self)@.wf(),
        ensures
            final(self)@ == old(self)@.settled(quit_requested),
            final(self)@.wf(),
            ops_view(frame@) == final(self)@.frame(),
    {
        self.snek.settle(quit_requested, self.width, self.height);
        self.draw()
    }

    /// The second half of a frame: applies the pressed keys, then moves the
    /// snake one step if the game is not paused and the snake is alive and
    /// has neither run into itself nor left the grid.
    pub fn end_frame(&mut self, keys: Keys)
        requires
            old(self)@.wf(),
        ensures
            final(self)@.wf(),
            ({
                let commanded = old(self)@.commanded(keys.command());
                if commanded.moves() {
                    commanded.steps_to(final(self)@)
                } else {
                    final(self)@ == commanded
                }
            }),
    {
        self.input(keys);
        if !self.paused && self.snek.alive() && !self.snek.dead(self.width, self.height) {
            self.snek.slither(&mut self.food, self.width, self.height);
        }
    }
}

} // verus!
