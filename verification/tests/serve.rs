use pong::abs;
use pong::middle;
use pong::orient;
use pong::randomize_vec;
use pong::score_pos;
use pong::units::BALL_SIZE;
use pong::units::BALL_SPEED;
use pong::units::MIDDLE_LINE_WIDTH;
use pong::units::RACKET_HEIGHT;
use pong::units::RACKET_WIDTH;
use pong::units::UNITS_PER_PIXEL;
use pong::MainState;
use pong::Point;
use pong::Rect;
use pong::Screen;
use pong::Vector;

fn units(n: i64) -> i64 {
    n * UNITS_PER_PIXEL
}

fn window() -> Screen {
    Screen { width: units(800), height: units(600) }
}

#[test]
fn orient_keeps_or_negates_each_component() {
    let mut v = Vector { x: 0, y: 0 };
    orient(&mut v, 3, 4, true, true);
    assert_eq!(v, Vector { x: 3, y: 4 });
    orient(&mut v, 3, 4, true, false);
    assert_eq!(v, Vector { x: 3, y: -4 });
    orient(&mut v, 3, 4, false, true);
    assert_eq!(v, Vector { x: -3, y: 4 });
    orient(&mut v, -3, 0, false, false);
    assert_eq!(v, Vector { x: 3, y: 0 });
}

#[test]
fn randomize_vec_gives_each_component_a_sign() {
    let mut v = Vector { x: 7, y: 7 };
    for _ in 0..100 {
        randomize_vec(&mut v, 100, 30);
        assert!(v.x == 100 || v.x == -100);
        assert!(v.y == 30 || v.y == -30);
    }
}

#[test]
fn randomize_vec_reaches_all_four_directions() {
    let mut seen: [bool; 4] = [false; 4];
    let mut v = Vector { x: 0, y: 0 };
    for _ in 0..1_000 {
        randomize_vec(&mut v, 100, 100);
        let i: usize = (if v.x > 0 { 2 } else { 0 }) + (if v.y > 0 { 1 } else { 0 });
        seen[i] = true;
    }
    assert_eq!(seen, [true; 4]);
}

#[test]
fn game_starts_with_rackets_at_mid_height_and_the_ball_in_the_middle() {
    let state = MainState::start(window(), true, false);
    assert_eq!(
        state,
        MainState {
            player_1_pos: Point { x: units(40), y: units(250) },
            player_2_pos: Point { x: units(740), y: units(250) },
            ball_pos: Point { x: units(400), y: units(300) },
            ball_vel: Vector { x: 100, y: -100 },
            player_1_score: 0,
            player_2_score: 0,
        }
    );
    assert!(state.is_wf());
}

#[test]
fn new_game_differs_from_a_started_one_in_the_serve_only() {
    for _ in 0..50 {
        let state = MainState::new(window());
        assert_eq!(state.ball_vel.x.abs(), BALL_SPEED);
        assert_eq!(state.ball_vel.y.abs(), BALL_SPEED);
        let same = MainState::start(window(), state.ball_vel.x > 0, state.ball_vel.y > 0);
        assert_eq!(state, same);
        assert_eq!((state.player_1_score, state.player_2_score), (0, 0));
    }
}

#[test]
fn game_on_an_odd_screen_rounds_the_middle_down() {
    let odd = Screen { width: 7, height: 5 };
    let state = MainState::start(odd, false, false);
    assert_eq!(state.ball_pos, Point { x: 3, y: 2 });
    assert_eq!(middle(odd), Point { x: 3, y: 2 });
    assert_eq!(state.player_1_pos, Point { x: units(40), y: 2 - units(50) });
    assert_eq!(state.player_2_pos, Point { x: 7 - units(60), y: 2 - units(50) });
    assert_eq!(state.ball_vel, Vector { x: -100, y: -100 });
}

#[test]
fn abs_is_the_magnitude() {
    assert_eq!(abs(0), 0);
    assert_eq!(abs(5), 5);
    assert_eq!(abs(-5), 5);
    assert_eq!(abs(i64::MAX), i64::MAX);
    assert_eq!(abs(i64::MIN + 1), i64::MAX);
}

#[test]
fn draw_lists_the_boxes_and_the_scores() {
    let mut state = MainState::start(window(), true, true);
    state.player_1_score = 2;
    state.player_2_score = 9;
    state.ball_pos = Point { x: units(123), y: units(45) };
    let scene = state.draw(window());
    assert_eq!(
        scene.player_1,
        Rect { x: units(40), y: units(250), w: units(20), h: units(100) }
    );
    assert_eq!(
        scene.player_2,
        Rect { x: units(740), y: units(250), w: RACKET_WIDTH, h: RACKET_HEIGHT }
    );
    assert_eq!(scene.ball, Rect { x: units(123), y: units(45), w: BALL_SIZE, h: BALL_SIZE });
    assert_eq!(scene.ball.w, units(30));
    assert_eq!(
        scene.middle_line,
        Rect { x: units(400), y: 0, w: MIDDLE_LINE_WIDTH, h: units(600) }
    );
    assert_eq!(scene.middle_line.w, units(2));
    assert_eq!((scene.player_1_score, scene.player_2_score), (2, 9));
}

#[test]
fn score_line_is_centred_on_the_middle_line() {
    assert_eq!(score_pos(window(), units(120), units(16)), Point { x: units(340), y: units(32) });
    assert_eq!(score_pos(window(), 0, 0), Point { x: units(400), y: units(40) });
    assert_eq!(score_pos(window(), 3, 5), Point { x: units(400) - 1, y: units(40) - 2 });
    assert_eq!(
        score_pos(window(), units(1_000), units(100)),
        Point { x: units(-100), y: units(-10) }
    );
}

#[test]
fn screen_must_have_positive_extents_within_the_limit() {
    assert!(window().is_wf());
    assert!(Screen { width: 1, height: 1 }.is_wf());
    assert!(!Screen { width: 0, height: 1 }.is_wf());
    assert!(!Screen { width: 1, height: 0 }.is_wf());
    assert!(!Screen { width: -1, height: 5 }.is_wf());
    assert!(!Screen { width: units(1_000_000) + 1, height: 5 }.is_wf());
    assert!(Screen { width: units(1_000_000), height: units(1_000_000) }.is_wf());
}
