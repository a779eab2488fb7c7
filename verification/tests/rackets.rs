use pong::clamp;
use pong::intersects;
use pong::move_racket;
use pong::units::MAX_DT;
use pong::units::PLAYER_SPEED;
use pong::units::RACKET_HEIGHT;
use pong::units::UNITS_PER_PIXEL;
use pong::Keys;
use pong::MainState;
use pong::Point;
use pong::Screen;

const FIELD_W: i64 = 800 * UNITS_PER_PIXEL;
const FIELD_H: i64 = 600 * UNITS_PER_PIXEL;

fn pixels(n: i64) -> i64 {
    n * UNITS_PER_PIXEL
}

fn field() -> Screen {
    Screen { width: FIELD_W, height: FIELD_H }
}

fn keys(p1_up: bool, p1_down: bool, p2_up: bool, p2_down: bool) -> Keys {
    Keys { player_1_up: p1_up, player_1_down: p1_down, player_2_up: p2_up, player_2_down: p2_down }
}

#[test]
fn clamp_brings_a_value_into_the_range() {
    let mut v: i64 = -5;
    clamp(&mut v, 0, 10);
    assert_eq!(v, 0);
    let mut v: i64 = 15;
    clamp(&mut v, 0, 10);
    assert_eq!(v, 10);
    let mut v: i64 = 7;
    clamp(&mut v, 0, 10);
    assert_eq!(v, 7);
    let mut v: i64 = 0;
    clamp(&mut v, 0, 10);
    assert_eq!(v, 0);
    let mut v: i64 = 10;
    clamp(&mut v, 0, 10);
    assert_eq!(v, 10);
    let mut v: i64 = i64::MIN;
    clamp(&mut v, i64::MIN, i64::MAX);
    assert_eq!(v, i64::MIN);
}

#[test]
fn clamp_with_an_empty_range_tests_the_lower_bound_first() {
    let mut v: i64 = -5;
    clamp(&mut v, 0, -60);
    assert_eq!(v, 0);
    let mut v: i64 = 0;
    clamp(&mut v, 0, -60);
    assert_eq!(v, -60);
    let mut v: i64 = 100;
    clamp(&mut v, 0, -60);
    assert_eq!(v, -60);
}

#[test]
fn held_key_moves_the_racket_by_speed_times_time() {
    let mut pos = Point { x: pixels(40), y: pixels(250) };
    move_racket(&mut pos, true, 1, 100_000, FIELD_H);
    assert_eq!(pos, Point { x: pixels(40), y: pixels(190) });
    move_racket(&mut pos, true, -1, 16_667, FIELD_H);
    assert_eq!(pos, Point { x: pixels(40), y: 190_000_000 + 600 * 16_667 });
    assert_eq!(pos.y, 200_000_200);
    assert_eq!(PLAYER_SPEED, 600);
}

#[test]
fn key_not_held_leaves_a_racket_on_the_screen_where_it_is() {
    let mut pos = Point { x: pixels(40), y: pixels(250) };
    move_racket(&mut pos, false, 1, 100_000, FIELD_H);
    assert_eq!(pos, Point { x: pixels(40), y: pixels(250) });
    move_racket(&mut pos, true, 0, 100_000, FIELD_H);
    assert_eq!(pos, Point { x: pixels(40), y: pixels(250) });
}

#[test]
fn racket_stops_at_the_top_and_at_the_bottom() {
    let mut pos = Point { x: pixels(40), y: pixels(10) };
    move_racket(&mut pos, true, 1, 100_000, FIELD_H);
    assert_eq!(pos.y, 0);
    let mut pos = Point { x: pixels(40), y: pixels(490) };
    move_racket(&mut pos, true, -1, 100_000, FIELD_H);
    assert_eq!(pos.y, FIELD_H - RACKET_HEIGHT);
    assert_eq!(pos.y, pixels(500));
}

#[test]
fn racket_off_the_screen_is_brought_back_even_without_a_key() {
    let mut pos = Point { x: pixels(40), y: pixels(-30) };
    move_racket(&mut pos, false, 1, 0, FIELD_H);
    assert_eq!(pos.y, 0);
    let mut pos = Point { x: pixels(40), y: pixels(900) };
    move_racket(&mut pos, false, -1, 0, FIELD_H);
    assert_eq!(pos.y, pixels(500));
}

#[test]
fn up_key_is_looked_at_before_the_down_key() {
    let mut state = MainState::start(field(), true, true);
    state.player_1_pos.y = 0;
    state.player_2_pos.y = pixels(500);
    state.ball_vel.x = 0;
    state.ball_vel.y = 0;
    state.update(100_000, keys(true, true, true, true), field());
    assert_eq!(state.player_1_pos.y, pixels(60));
    assert_eq!(state.player_2_pos.y, pixels(500));

    state.player_1_pos.y = pixels(250);
    state.update(100_000, keys(true, true, false, false), field());
    assert_eq!(state.player_1_pos.y, pixels(250));
}

#[test]
fn each_player_moves_only_the_own_racket() {
    let mut state = MainState::start(field(), true, true);
    state.update(100_000, keys(true, false, false, true), field());
    assert_eq!(state.player_1_pos, Point { x: pixels(40), y: pixels(190) });
    assert_eq!(state.player_2_pos, Point { x: pixels(740), y: pixels(310) });
    state.update(100_000, keys(false, true, true, false), field());
    assert_eq!(state.player_1_pos, Point { x: pixels(40), y: pixels(250) });
    assert_eq!(state.player_2_pos, Point { x: pixels(740), y: pixels(250) });
}

#[test]
fn rackets_stay_on_the_screen_whatever_the_keys() {
    let mut state = MainState::start(field(), false, true);
    let mut frame: u64 = 0;
    while frame < 3_000 {
        let held = keys(frame % 7 < 5, frame % 11 < 3, frame % 13 < 4, frame % 5 < 4);
        let dt: u64 = (frame * 7_919) % 200_000;
        assert!(state.can_update(dt, field()));
        state.update(dt, held, field());
        assert!(0 <= state.player_1_pos.y && state.player_1_pos.y <= FIELD_H - RACKET_HEIGHT);
        assert!(0 <= state.player_2_pos.y && state.player_2_pos.y <= FIELD_H - RACKET_HEIGHT);
        assert_eq!(state.player_1_pos.x, pixels(40));
        assert_eq!(state.player_2_pos.x, pixels(740));
        frame += 1;
    }
}

#[test]
fn racket_far_off_is_on_the_screen_after_one_frame() {
    let mut state = MainState::start(field(), true, true);
    state.player_1_pos.y = pixels(-1_000);
    state.player_2_pos.y = pixels(100_000);
    state.update(MAX_DT, keys(false, true, true, false), field());
    assert_eq!(state.player_1_pos.y, pixels(500));
    assert_eq!(state.player_2_pos.y, 0);
}

#[test]
fn racket_on_a_screen_lower_than_itself_ends_below_zero() {
    let low = Screen { width: FIELD_W, height: pixels(50) };
    let mut state = MainState::start(low, true, true);
    state.ball_pos = Point { x: pixels(400), y: pixels(15) };
    state.ball_vel.x = 0;
    state.ball_vel.y = 0;
    state.player_1_pos.y = 0;
    state.player_2_pos.y = pixels(-50);
    state.update(0, keys(false, false, false, false), low);
    assert_eq!(state.player_1_pos.y, 0);
    assert_eq!(state.player_2_pos.y, pixels(-50));
    state.player_1_pos.y = pixels(-10);
    state.update(0, keys(false, false, false, false), low);
    assert_eq!(state.player_1_pos.y, pixels(-50));
}

#[test]
fn boxes_that_only_touch_do_not_intersect() {
    let racket = Point { x: pixels(40), y: pixels(250) };
    assert!(intersects(&Point { x: pixels(40), y: pixels(250) }, &racket));
    assert!(intersects(&Point { x: pixels(65) - 1, y: pixels(250) }, &racket));
    assert!(!intersects(&Point { x: pixels(65), y: pixels(250) }, &racket));
    assert!(intersects(&Point { x: pixels(15) + 1, y: pixels(250) }, &racket));
    assert!(!intersects(&Point { x: pixels(15), y: pixels(250) }, &racket));
    assert!(intersects(&Point { x: pixels(40), y: pixels(315) - 1 }, &racket));
    assert!(!intersects(&Point { x: pixels(40), y: pixels(315) }, &racket));
    assert!(intersects(&Point { x: pixels(40), y: pixels(185) + 1 }, &racket));
    assert!(!intersects(&Point { x: pixels(40), y: pixels(185) }, &racket));
}
