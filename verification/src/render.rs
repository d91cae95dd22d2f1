//! What a frame is made of: coloured cells, and the operations that put them
//! on a screen of character cells.
//!
//! Each grid cell is two screen columns wide, and the grid sits inside a
//! border: two columns left and right, one row above and below.

use vstd::prelude::*;
use crate::geometry::Point;
use crate::text::decimal;

verus! {

/// The colours the game paints with. `Reset` is the terminal's own colour.
#[derive(Clone, Copy, Debug, PartialEq, Eq, Structural)]
pub enum Color {
    Reset,
    Black,
    Red,
    Green,
    Blue,
}

pub const MAP_COLOR: Color = Color::Green;

pub const BORDER_COLOR: Color = Color::Black;

pub const FOOD_COLOR: Color = Color::Red;

pub const SNEK_COLOR: Color = Color::Blue;

pub const HEAD_COLOR: Color = Color::Black;

/// The eye of a living snake.
pub const EYE_CHAR: char = '^';

/// The eye of a dead snake.
pub const DEAD_EYE_CHAR: char = 'x';

pub const GAME_PROMPT: &'static str = "SNEK";

pub const PAUSE_PROMPT: &'static str = "PAUSED";

pub const SCORE_PROMPT: &'static str = "SCORE: ";

/// One character cell of the screen.
#[derive(Clone, Copy, Debug, PartialEq, Eq, Structural)]
pub struct Pixel {
    pub bg: Color,
    pub fg: Color,
    pub chr: char,
}

pub open spec fn spec_pxl_bg(chr: char, bg: Color) -> Pixel {
    Pixel { bg, fg: Color::Reset, chr }
}

pub open spec fn spec_pxl_fbg(chr: char, fg: Color, bg: Color) -> Pixel {
    Pixel { bg, fg, chr }
}

/// A character on a coloured background, in the terminal's own foreground.
#[verifier::when_used_as_spec(spec_pxl_bg)]
pub fn pxl_bg(chr: char, bg: Color) -> (pixel: Pixel)
    ensures
        pixel == spec_pxl_bg(chr, bg),
{
    Pixel { bg, fg: Color::Reset, chr }
}

/// A character with both colours given.
#[verifier::when_used_as_spec(spec_pxl_fbg)]
pub fn pxl_fbg(chr: char, fg: Color, bg: Color) -> (pixel: Pixel)
    ensures
        pixel == spec_pxl_fbg(chr, fg, bg),
{
    Pixel { bg, fg, chr }
}

/// One request to the screen. Coordinates are screen columns and rows, and
/// may lie off the screen.
#[derive(Debug, PartialEq, Eq)]
pub enum DrawOp {
    /// Paint the whole screen.
    Fill { pixel: Pixel },
    /// Paint the rectangle between two corners, both included.
    FillRect { start_x: i32, start_y: i32, end_x: i32, end_y: i32, pixel: Pixel },
    /// Write `text` from the given cell to the right.
    Print { x: i32, y: i32, text: String, fg: Color, bg: Color },
    /// Paint one cell.
    SetPxl { x: i32, y: i32, pixel: Pixel },
}

/// A `DrawOp` with its text as a sequence of characters.
pub enum DrawOpView {
    Fill { pixel: Pixel },
    FillRect { start_x: i32, start_y: i32, end_x: i32, end_y: i32, pixel: Pixel },
    Print { x: i32, y: i32, text: Seq<char>, fg: Color, bg: Color },
    SetPxl { x: i32, y: i32, pixel: Pixel },
}

impl View for DrawOp {
    type V = DrawOpView;

    open spec fn view(&self) -> DrawOpView {
        match *self {
            DrawOp::Fill { pixel } => DrawOpView::Fill { pixel },
            DrawOp::FillRect { start_x, start_y, end_x, end_y, pixel } => DrawOpView::FillRect {
                start_x,
                start_y,
                end_x,
                end_y,
                pixel,
            },
            DrawOp::Print { x, y, text, fg, bg } => DrawOpView::Print { x, y, text: text@, fg, bg },
            DrawOp::SetPxl { x, y, pixel } => DrawOpView::SetPxl { x, y, pixel },
        }
    }
}

/// A list of operations with every text as a sequence of characters.
pub open spec fn ops_view(ops: Seq<DrawOp>) -> Seq<DrawOpView> {
    ops.map_values(|op: DrawOp| op@)
}

/// The screen columns that a grid of `width` cells takes.
pub open spec fn screen_width(width: u32) -> int {
    2 * width + 4
}

/// The screen rows that a grid of `height` cells takes.
pub open spec fn screen_height(height: u32) -> int {
    height + 2
}

/// Whether the screen of a grid can be addressed with `i32` coordinates.
pub open spec fn screen_fits(width: u32, height: u32) -> bool {
    screen_width(width) <= i32::MAX && screen_height(height) <= i32::MAX
}

/// Whether the two screen cells of a grid cell have `i32` coordinates.
pub open spec fn cell_fits(cell: Point) -> bool {
    &&& i32::MIN <= 2 * cell.x + 2
    &&& 2 * cell.x + 3 <= i32::MAX
    &&& cell.y + 1 <= i32::MAX
}

/// A grid cell on the screen: two cells side by side.
pub open spec fn cell_ops(cell: Point, pixel: Pixel) -> Seq<DrawOpView> {
    seq![
        DrawOpView::SetPxl { x: (2 * cell.x + 2) as i32, y: (cell.y + 1) as i32, pixel },
        DrawOpView::SetPxl { x: (2 * cell.x + 3) as i32, y: (cell.y + 1) as i32, pixel },
    ]
}

/// The border, and the map laid into it.
pub open spec fn map_layer(width: u32, height: u32) -> Seq<DrawOpView> {
    seq![
        DrawOpView::Fill { pixel: pxl_bg(' ', BORDER_COLOR) },
        DrawOpView::FillRect {
            start_x: 2,
            start_y: 1,
            end_x: (screen_width(width) - 3) as i32,
            end_y: (screen_height(height) - 2) as i32,
            pixel: pxl_bg(' ', MAP_COLOR),
        },
    ]
}

/// The column at which a text of `len` characters starts when it is centred
/// on a screen of `columns` columns: half the screen less half the text.
pub open spec fn centred(columns: int, len: int) -> int {
    columns / 2 - len / 2
}

/// The line that shows the score.
pub open spec fn score_text(score: nat) -> Seq<char> {
    SCORE_PROMPT@ + decimal(score)
}

/// The line at the top: the game's name, or that the game is paused.
pub open spec fn status_text(paused: bool) -> Seq<char> {
    if paused {
        PAUSE_PROMPT@
    } else {
        GAME_PROMPT@
    }
}

/// A line of text centred in a row of the border.
pub open spec fn prompt_op(width: u32, y: int, text: Seq<char>) -> DrawOpView {
    DrawOpView::Print {
        x: centred(screen_width(width), text.len() as int) as i32,
        y: y as i32,
        text,
        fg: Color::Reset,
        bg: BORDER_COLOR,
    }
}

/// The score in the bottom row, then the status in the top row.
pub open spec fn prompt_layer(width: u32, height: u32, paused: bool, score: nat) -> Seq<
    DrawOpView,
> {
    seq![
        prompt_op(width, screen_height(height) - 1, score_text(score)),
        prompt_op(width, 0, status_text(paused)),
    ]
}

/// The food, if there is any on the board.
pub open spec fn food_layer(food: Option<Point>) -> Seq<DrawOpView> {
    match food {
        Some(cell) => cell_ops(cell, pxl_bg(' ', FOOD_COLOR)),
        None => Seq::empty(),
    }
}

/// Every segment of the body, from tail to head.
pub open spec fn body_layer(body: Seq<Point>) -> Seq<DrawOpView>
    decreases body.len(),
{
    if body.len() == 0 {
        Seq::empty()
    } else {
        body_layer(body.drop_last()) + cell_ops(body.last(), pxl_bg(' ', SNEK_COLOR))
    }
}

/// The eye that marks the head.
pub open spec fn eye(alive: bool) -> char {
    if alive {
        EYE_CHAR
    } else {
        DEAD_EYE_CHAR
    }
}

/// The head, drawn over the last segment.
pub open spec fn head_layer(head: Point, alive: bool) -> Seq<DrawOpView> {
    cell_ops(head, pxl_fbg(eye(alive), HEAD_COLOR, SNEK_COLOR))
}

/// The body with the head drawn over its last segment.
pub open spec fn snek_layer(body: Seq<Point>, alive: bool) -> Seq<DrawOpView> {
    body_layer(body) + head_layer(body.last(), alive)
}

/// Adds the two screen cells of a grid cell to a frame.
pub fn push_cell(frame: &mut Vec<DrawOp>, cell: Point, pixel: Pixel)
    requires
        cell_fits(cell),
    ensures
        ops_view(final(frame)@) == ops_view(old(frame)@) + cell_ops(cell, pixel),
{
    let x: i32 = (cell.x + 1) * 2;
    let y: i32 = cell.y + 1;
    frame.push(DrawOp::SetPxl { x, y, pixel });
    frame.push(DrawOp::SetPxl { x: x + 1, y, pixel });
    assert(ops_view(frame@) =~= ops_view(old(frame)@) + cell_ops(cell, pixel));
}

} // verus!
