use snek::game::Game;
use snek::game::Keys;
use snek::geometry::Point;
use snek::render::pxl_bg;
use snek::render::pxl_fbg;
use snek::render::Color;
use snek::render::DrawOp;
use snek::render::Pixel;
use snek::render::BORDER_COLOR;
use snek::render::DEAD_EYE_CHAR;
use snek::render::EYE_CHAR;
use snek::render::FOOD_COLOR;
use snek::render::GAME_PROMPT;
use snek::render::HEAD_COLOR;
use snek::render::MAP_COLOR;
use snek::render::PAUSE_PROMPT;
use snek::render::SCORE_PROMPT;
use snek::render::SNEK_COLOR;

const NO_KEYS: Keys = Keys { pause: false, up: false, down: false, left: false, right: false };

fn points(cells: &[(i32, i32)]) -> Vec<Point> {
    cells.iter().map(|&(x, y)| Point::new(x, y)).collect()
}

fn cell(x: i32, y: i32, pixel: Pixel) -> [DrawOp; 2] {
    [DrawOp::SetPxl { x: 2 * x + 2, y: y + 1, pixel }, DrawOp::SetPxl { x: 2 * x + 3, y: y + 1, pixel }]
}

fn print(x: i32, y: i32, text: &str) -> DrawOp {
    DrawOp::Print { x, y, text: text.to_string(), fg: Color::Reset, bg: Color::Black }
}

#[test]
fn pixels_are_built_from_their_parts() {
    assert_eq!(pxl_bg(' ', Color::Green), Pixel { bg: Color::Green, fg: Color::Reset, chr: ' ' });
    assert_eq!(
        pxl_fbg('^', Color::Black, Color::Blue),
        Pixel { bg: Color::Blue, fg: Color::Black, chr: '^' }
    );
}

#[test]
fn palette_and_glyphs_are_fixed() {
    assert_eq!(MAP_COLOR, Color::Green);
    assert_eq!(BORDER_COLOR, Color::Black);
    assert_eq!(FOOD_COLOR, Color::Red);
    assert_eq!(SNEK_COLOR, Color::Blue);
    assert_eq!(HEAD_COLOR, Color::Black);
    assert_eq!(EYE_CHAR, '^');
    assert_eq!(DEAD_EYE_CHAR, 'x');
    assert_eq!(GAME_PROMPT, "SNEK");
    assert_eq!(PAUSE_PROMPT, "PAUSED");
    assert_eq!(SCORE_PROMPT, "SCORE: ");
}

#[test]
fn draw_composes_map_prompts_food_and_snake_in_order() {
    let game = Game::new(5, 5, &points(&[(0, 0), (1, 0), (2, 0), (3, 0)]));
    let food = game.food().expect("the grid has free cells");
    let body = pxl_bg(' ', Color::Blue);
    let eye = pxl_fbg('^', Color::Black, Color::Blue);
    let mut expected = vec![
        DrawOp::Fill { pixel: pxl_bg(' ', Color::Black) },
        DrawOp::FillRect { start_x: 2, start_y: 1, end_x: 11, end_y: 5, pixel: pxl_bg(' ', Color::Green) },
        print(3, 6, "SCORE: 0"),
        print(5, 0, "SNEK"),
    ];
    expected.extend(cell(food.x, food.y, pxl_bg(' ', Color::Red)));
    expected.extend(cell(0, 0, body));
    expected.extend(cell(1, 0, body));
    expected.extend(cell(2, 0, body));
    expected.extend(cell(3, 0, body));
    expected.extend(cell(3, 0, eye));
    assert_eq!(game.draw(), expected);
}

#[test]
fn draw_of_the_standard_game_fills_the_standard_screen() {
    let game = Game::standard();
    let frame = game.draw();
    assert_eq!(frame.len(), 16);
    assert_eq!(
        frame[1],
        DrawOp::FillRect { start_x: 2, start_y: 1, end_x: 35, end_y: 15, pixel: pxl_bg(' ', Color::Green) }
    );
    assert_eq!(frame[2], print(15, 16, "SCORE: 0"));
    assert_eq!(frame[3], print(17, 0, "SNEK"));
    assert_eq!(frame[14], DrawOp::SetPxl { x: 8, y: 1, pixel: pxl_fbg('^', Color::Black, Color::Blue) });
    assert_eq!(frame[15], DrawOp::SetPxl { x: 9, y: 1, pixel: pxl_fbg('^', Color::Black, Color::Blue) });
}

#[test]
fn draw_map_paints_the_border_then_the_map() {
    let game = Game::new(17, 15, &points(&[(0, 0)]));
    let mut frame = Vec::new();
    game.draw_map(&mut frame);
    assert_eq!(
        frame,
        vec![
            DrawOp::Fill { pixel: Pixel { bg: Color::Black, fg: Color::Reset, chr: ' ' } },
            DrawOp::FillRect {
                start_x: 2,
                start_y: 1,
                end_x: 35,
                end_y: 15,
                pixel: Pixel { bg: Color::Green, fg: Color::Reset, chr: ' ' },
            },
        ]
    );
}

#[test]
fn draw_map_adds_to_what_the_frame_holds() {
    let game = Game::new(3, 2, &points(&[(0, 0)]));
    let mut frame = vec![print(0, 0, "kept")];
    game.draw_map(&mut frame);
    assert_eq!(frame.len(), 3);
    assert_eq!(frame[0], print(0, 0, "kept"));
    assert_eq!(
        frame[2],
        DrawOp::FillRect { start_x: 2, start_y: 1, end_x: 7, end_y: 2, pixel: pxl_bg(' ', Color::Green) }
    );
}

#[test]
fn draw_prompts_centres_score_and_name() {
    let game = Game::new(17, 15, &points(&[(0, 0)]));
    let mut frame = Vec::new();
    game.draw_prompts(&mut frame);
    assert_eq!(frame, vec![print(19 - 4, 16, "SCORE: 0"), print(19 - 2, 0, "SNEK")]);
}

#[test]
fn draw_prompts_shows_the_pause() {
    let mut game = Game::new(17, 15, &points(&[(0, 0)]));
    game.input(Keys { pause: true, ..NO_KEYS });
    let mut frame = Vec::new();
    game.draw_prompts(&mut frame);
    assert_eq!(frame, vec![print(15, 16, "SCORE: 0"), print(19 - 3, 0, "PAUSED")]);
}

#[test]
fn draw_prompts_may_start_left_of_the_screen() {
    let game = Game::new(0, 0, &points(&[(0, 0)]));
    let mut frame = Vec::new();
    game.draw_prompts(&mut frame);
    assert_eq!(frame, vec![print(2 - 4, 1, "SCORE: 0"), print(2 - 2, 0, "SNEK")]);
    let mut game = Game::new(0, 0, &points(&[(0, 0)]));
    game.input(Keys { pause: true, ..NO_KEYS });
    let mut frame = Vec::new();
    game.draw_prompts(&mut frame);
    assert_eq!(frame[1], print(-1, 0, "PAUSED"));
}

#[test]
fn draw_food_paints_two_columns() {
    let body = points(&[(0, 0), (1, 0), (0, 1)]);
    let game = Game::new(2, 2, &body);
    assert_eq!(game.food(), Some(Point::new(1, 1)));
    let mut frame = Vec::new();
    game.draw_food(&mut frame);
    let food = Pixel { bg: Color::Red, fg: Color::Reset, chr: ' ' };
    assert_eq!(
        frame,
        vec![DrawOp::SetPxl { x: 4, y: 2, pixel: food }, DrawOp::SetPxl { x: 5, y: 2, pixel: food }]
    );
}

#[test]
fn draw_food_paints_nothing_without_food() {
    let game = Game::new(2, 1, &points(&[(0, 0), (1, 0)]));
    assert_eq!(game.food(), None);
    let mut frame = Vec::new();
    game.draw_food(&mut frame);
    assert!(frame.is_empty());
}

#[test]
fn draw_snek_paints_the_body_then_the_eye() {
    let game = Game::new(9, 9, &points(&[(2, 5), (2, 6)]));
    let mut frame = Vec::new();
    game.draw_snek(&mut frame);
    let body = Pixel { bg: Color::Blue, fg: Color::Reset, chr: ' ' };
    let eye = Pixel { bg: Color::Blue, fg: Color::Black, chr: '^' };
    assert_eq!(
        frame,
        vec![
            DrawOp::SetPxl { x: 6, y: 6, pixel: body },
            DrawOp::SetPxl { x: 7, y: 6, pixel: body },
            DrawOp::SetPxl { x: 6, y: 7, pixel: body },
            DrawOp::SetPxl { x: 7, y: 7, pixel: body },
            DrawOp::SetPxl { x: 6, y: 7, pixel: eye },
            DrawOp::SetPxl { x: 7, y: 7, pixel: eye },
        ]
    );
}

#[test]
fn draw_snek_closes_the_eye_of_a_dead_snake() {
    let mut game = Game::new(9, 9, &points(&[(2, 5), (2, 6)]));
    game.begin_frame(true);
    let mut frame = Vec::new();
    game.draw_snek(&mut frame);
    let eye = Pixel { bg: Color::Blue, fg: Color::Black, chr: 'x' };
    assert_eq!(frame.len(), 6);
    assert_eq!(frame[4], DrawOp::SetPxl { x: 6, y: 7, pixel: eye });
    assert_eq!(frame[5], DrawOp::SetPxl { x: 7, y: 7, pixel: eye });
}

#[test]
fn draw_snek_paints_cells_off_the_grid_too() {
    let game = Game::new(3, 3, &points(&[(0, 0), (-1, 0)]));
    let mut frame = Vec::new();
    game.draw_snek(&mut frame);
    let eye = Pixel { bg: Color::Blue, fg: Color::Black, chr: '^' };
    assert_eq!(frame[4], DrawOp::SetPxl { x: 0, y: 1, pixel: eye });
    assert_eq!(frame[5], DrawOp::SetPxl { x: 1, y: 1, pixel: eye });
}
