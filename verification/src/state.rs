//! The game's state and the frame that advances it.

use vstd::prelude::*;
use crate::chance::orient;
use crate::chance::randomize_vec;
use crate::court::centre;
use crate::court::opening;
use crate::court::overlaps;
use crate::court::racket_moved;
use crate::court::racket_on_screen;
use crate::court::Court;
use crate::court::Frame;
use crate::court::Keys;
use crate::geometry::abs;
use crate::geometry::clamp;
use crate::geometry::magnitude;
use crate::geometry::Point;
use crate::geometry::Screen;
use crate::geometry::Vector;
use crate::units::BALL_SIZE;
use crate::units::BALL_SIZE_HALF;
use crate::units::BALL_SPEED;
use crate::units::MAX_COORD;
use crate::units::MAX_DT;
use crate::units::MAX_REACH;
use crate::units::MAX_SPEED;
use crate::units::PADDING;
use crate::units::PLAYER_SPEED;
use crate::units::RACKET_HEIGHT;
use crate::units::RACKET_HEIGHT_HALF;
use crate::units::RACKET_WIDTH;
use crate::units::RACKET_WIDTH_HALF;

verus! {

/// Two rackets, a ball and the score.
#[derive(Clone, Copy, Debug, PartialEq, Eq, Structural)]
pub struct MainState {
    pub player_1_pos: Point,
    pub player_2_pos: Point,
    pub ball_pos: Point,
    pub ball_vel: Vector,
    pub player_1_score: i32,
    pub player_2_score: i32,
}

impl View for MainState {
    type V = Court;

    open spec fn view(&self) -> Court {
        Court {
            player_1_pos: self.player_1_pos@,
            player_2_pos: self.player_2_pos@,
            ball_pos: self.ball_pos@,
            ball_vel: self.ball_vel@,
            player_1_score: self.player_1_score as int,
            player_2_score: self.player_2_score as int,
        }
    }
}

/// The frame that `dt` microseconds, the keys, the screen and two tosses make.
pub open spec fn frame_of(dt: u64, keys: Keys, screen: Screen, keep_x: bool, keep_y: bool) -> Frame {
    Frame {
        dt: dt as int,
        keys,
        screen_w: screen.width as int,
        screen_h: screen.height as int,
        keep_x,
        keep_y,
    }
}

/// A distance covered at a bounded speed in a bounded time is bounded.
proof fn lemma_travel_bounded(speed: int, dt: int)
    by (nonlinear_arith)
    requires
        -1_000_000 <= speed <= 1_000_000,
        0 <= dt <= 1_000_000_000_000,
    ensures
        -1_000_000_000_000_000_000 <= speed * dt <= 1_000_000_000_000_000_000,
{
}

/// Looks at one key of a racket: if it is held, the racket moves against
/// `y_dir` at `PLAYER_SPEED` for `dt` microseconds; held or not, the racket is
/// then kept on a screen of height `screen_h`.
pub fn move_racket(pos: &mut Point, pressed: bool, y_dir: i64, dt: u64, screen_h: i64)
    requires
        old(pos).wf(),
        -MAX_SPEED <= y_dir * PLAYER_SPEED <= MAX_SPEED,
        dt <= MAX_DT,
        0 < screen_h <= MAX_COORD,
    ensures
        final(pos).x == old(pos).x,
        final(pos).y == racket_moved(
            old(pos).y as int,
            pressed,
            y_dir as int,
            dt as int,
            screen_h as int,
        ),
        final(pos).wf(),
{
    if pressed {
        let speed: i64 = y_dir * PLAYER_SPEED;
        proof {
            lemma_travel_bounded(speed as int, dt as int);
        }
        pos.y = pos.y - speed * (dt as i64);
    }
    clamp(&mut pos.y, 0, screen_h - RACKET_HEIGHT);
}

/// Whether the ball's box and a racket's box overlap.
pub fn intersects(ball: &Point, racket: &Point) -> (hit: bool)
    requires
        -MAX_REACH <= ball.x <= MAX_REACH,
        -MAX_REACH <= ball.y <= MAX_REACH,
        racket.wf(),
    ensures
        hit == overlaps(ball@, racket@),
{
    ball.x - BALL_SIZE_HALF < racket.x + RACKET_WIDTH_HALF
        && ball.x + BALL_SIZE_HALF > racket.x - RACKET_WIDTH_HALF
        && ball.y - BALL_SIZE_HALF < racket.y + RACKET_HEIGHT_HALF
        && ball.y + BALL_SIZE_HALF > racket.y - RACKET_HEIGHT_HALF
}

/// The middle of the screen.
pub fn middle(screen: Screen) -> (point: Point)
    requires
        screen.wf(),
    ensures
        point@ == centre(screen.width as int, screen.height as int),
        point.wf(),
{
    Point { x: screen.width / 2, y: screen.height / 2 }
}

impl MainState {
    /// Rackets and ball are within `MAX_COORD` of the origin, the ball is no
    /// faster than `MAX_SPEED`, and no score is negative.
    pub open spec fn wf(&self) -> bool {
        &&& self.player_1_pos.wf()
        &&& self.player_2_pos.wf()
        &&& self.ball_pos.wf()
        &&& self.ball_vel.wf()
        &&& 0 <= self.player_1_score
        &&& 0 <= self.player_2_score
    }

    /// As `wf`, but for a ball that has just flown for a frame and may be as
    /// far out as `MAX_REACH`.
    spec fn aloft(&self) -> bool {
        &&& self.player_1_pos.wf()
        &&& self.player_2_pos.wf()
        &&& -MAX_REACH <= self.ball_pos.x <= MAX_REACH
        &&& -MAX_REACH <= self.ball_pos.y <= MAX_REACH
        &&& self.ball_vel.wf()
        &&& 0 <= self.player_1_score
        &&& 0 <= self.player_2_score
    }

    /// A frame can be played from this state: state and screen are well
    /// formed, the frame is no longer than `MAX_DT`, and a player about to
    /// score has room for one more point.
    pub open spec fn can_step(&self, dt: u64, screen: Screen) -> bool {
        &&& self.wf()
        &&& screen.wf()
        &&& dt <= MAX_DT
        &&& self@.advance(dt as int).missed_left() ==> self.player_2_score < i32::MAX
        &&& self@.advance(dt as int).missed_right(screen.width as int) ==> self.player_1_score
            < i32::MAX
    }

    /// The state at the start of a game, the ball served as the two tosses say.
    pub fn start(screen: Screen, keep_x: bool, keep_y: bool) -> (state: MainState)
        requires
            screen.wf(),
        ensures
            state@ == opening(screen.width as int, screen.height as int, keep_x, keep_y),
            state.wf(),
    {
        let mut ball_vel = Vector { x: 0, y: 0 };
        orient(&mut ball_vel, BALL_SPEED, BALL_SPEED, keep_x, keep_y);
        MainState::lay_out(screen, ball_vel)
    }

    /// The state at the start of a game, the ball served in a direction of
    /// chance.
    pub fn new(screen: Screen) -> (state: MainState)
        requires
            screen.wf(),
        ensures
            exists|keep_x: bool, keep_y: bool|
                state@ == opening(screen.width as int, screen.height as int, keep_x, keep_y),
            state.wf(),
    {
        let mut ball_vel = Vector { x: 0, y: 0 };
        randomize_vec(&mut ball_vel, BALL_SPEED, BALL_SPEED);
        let state = MainState::lay_out(screen, ball_vel);
        assert(state@ == opening(
            screen.width as int,
            screen.height as int,
            ball_vel.x == BALL_SPEED,
            ball_vel.y == BALL_SPEED,
        ));
        state
    }

    /// Rackets at mid-height, ball in the middle with the given velocity, no
    /// points.
    fn lay_out(screen: Screen, ball_vel: Vector) -> (state: MainState)
        requires
            screen.wf(),
            ball_vel.wf(),
        ensures
            state.player_1_pos@ == opening(
                screen.width as int,
                screen.height as int,
                true,
                true,
            ).player_1_pos,
            state.player_2_pos@ == opening(
                screen.width as int,
                screen.height as int,
                true,
                true,
            ).player_2_pos,
            state.ball_pos@ == centre(screen.width as int, screen.height as int),
            state.ball_vel == ball_vel,
            state.player_1_score == 0,
            state.player_2_score == 0,
            state.wf(),
    {
        let screen_h_half: i64 = screen.height / 2;
        MainState {
            player_1_pos: Point { x: PADDING, y: screen_h_half - RACKET_HEIGHT_HALF },
            player_2_pos: Point {
                x: screen.width - RACKET_WIDTH - PADDING,
                y: screen_h_half - RACKET_HEIGHT_HALF,
            },
            ball_pos: middle(screen),
            ball_vel,
            player_1_score: 0,
            player_2_score: 0,
        }
    }

    /// Both rackets follow their keys: for each, the up key and then the down
    /// key.
    fn move_rackets(&mut self, dt: u64, keys: Keys, screen_h: i64)
        requires
            old(self).wf(),
            dt <= MAX_DT,
            0 < screen_h <= MAX_COORD,
        ensures
            final(self)@ == old(self)@.steer(dt as int, keys, screen_h as int),
            final(self).wf(),
    {
        move_racket(&mut self.player_1_pos, keys.player_1_up, 1, dt, screen_h);
        move_racket(&mut self.player_1_pos, keys.player_1_down, -1, dt, screen_h);
        move_racket(&mut self.player_2_pos, keys.player_2_up, 1, dt, screen_h);
        move_racket(&mut self.player_2_pos, keys.player_2_down, -1, dt, screen_h);
    }

    /// The ball flies on for `dt` microseconds.
    fn move_ball(&mut self, dt: u64)
        requires
            old(self).wf(),
            dt <= MAX_DT,
        ensures
            final(self)@ == old(self)@.advance(dt as int),
            final(self).aloft(),
    {
        proof {
            lemma_travel_bounded(self.ball_vel.x as int, dt as int);
            lemma_travel_bounded(self.ball_vel.y as int, dt as int);
        }
        self.ball_pos.y = self.ball_pos.y + self.ball_vel.y * (dt as i64);
        self.ball_pos.x = self.ball_pos.x + self.ball_vel.x * (dt as i64);
    }

    /// A ball over the top or the bottom wall is set onto it and sent back.
    fn bounce_off_walls(&mut self, screen_h: i64)
        requires
            old(self).aloft(),
            0 < screen_h <= MAX_COORD,
        ensures
            final(self)@ == old(self)@.rebound(screen_h as int),
            final(self).aloft(),
            -MAX_COORD <= old(self).ball_pos.x <= MAX_COORD ==> final(self).wf(),
    {
        if self.ball_pos.y < BALL_SIZE_HALF {
            self.ball_pos.y = BALL_SIZE_HALF;
            self.ball_vel.y = abs(self.ball_vel.y);
        } else if self.ball_pos.y > screen_h - BALL_SIZE {
            self.ball_pos.y = screen_h - BALL_SIZE;
            self.ball_vel.y = -abs(self.ball_vel.y);
        }
    }

    /// A ball that overlaps a racket is sent away from it: to the right by
    /// the left racket, then to the left by the right racket.
    fn bounce_off_rackets(&mut self)
        requires
            old(self).aloft(),
        ensures
            final(self)@ == old(self)@.deflect(),
            final(self).aloft(),
            old(self).wf() ==> final(self).wf(),
    {
        let intersects_player_1 = intersects(&self.ball_pos, &self.player_1_pos);
        if intersects_player_1 {
            self.ball_vel.x = abs(self.ball_vel.x);
        }
        let intersects_player_2 = intersects(&self.ball_pos, &self.player_2_pos);
        if intersects_player_2 {
            self.ball_vel.x = -abs(self.ball_vel.x);
        }
    }

    /// Whether a frame of `dt` microseconds can be played on `screen`.
    pub fn can_update(&self, dt: u64, screen: Screen) -> (ok: bool)
        ensures
            ok == self.can_step(dt, screen),
    {
        if !(self.is_wf() && screen.is_wf() && dt <= MAX_DT) {
            return false;
        }
        proof {
            lemma_travel_bounded(self.ball_vel.x as int, dt as int);
        }
        let x: i64 = self.ball_pos.x + self.ball_vel.x * (dt as i64);
        if x < 0 {
            self.player_2_score < i32::MAX
        } else if x > screen.width {
            self.player_1_score < i32::MAX
        } else {
            true
        }
    }

    /// Whether this state is well formed.
    pub fn is_wf(&self) -> (ok: bool)
        ensures
            ok == self.wf(),
    {
        self.player_1_pos.is_wf() && self.player_2_pos.is_wf() && self.ball_pos.is_wf()
            && self.ball_vel.is_wf() && 0 <= self.player_1_score && 0 <= self.player_2_score
    }

    /// Plays one frame of `dt` microseconds, a miss being followed by the
    /// serve that the two tosses describe.
    pub fn update_with(&mut self, dt: u64, keys: Keys, screen: Screen, keep_x: bool, keep_y: bool)
        requires
            old(self).can_step(dt, screen),
        ensures
            final(self)@ == old(self)@.step(frame_of(dt, keys, screen, keep_x, keep_y)),
            final(self).wf(),
    {
        self.move_rackets(dt, keys, screen.height);
        self.move_ball(dt);
        if self.ball_pos.x < 0 {
            self.ball_pos = middle(screen);
            orient(&mut self.ball_vel, BALL_SPEED, BALL_SPEED, keep_x, keep_y);
            self.player_2_score += 1;
        } else if self.ball_pos.x > screen.width {
            self.ball_pos = middle(screen);
            orient(&mut self.ball_vel, BALL_SPEED, BALL_SPEED, keep_x, keep_y);
            self.player_1_score += 1;
        }
        self.bounce_off_walls(screen.height);
        self.bounce_off_rackets();
    }

    /// Plays one frame of `dt` microseconds, a miss being followed by a serve
    /// in a direction of chance.
    ///
    /// The new state is the one that `update_with` gives for some pair of
    /// tosses; where the ball stays on the screen no toss is made and the
    /// state is that for any pair. The further clauses say what holds of the
    /// new state whatever the tosses were: where the rackets are, what a miss
    /// does to ball and score, and which way the ball moves after a wall or a
    /// racket.
    pub fn update(&mut self, dt: u64, keys: Keys, screen: Screen)
        requires
            old(self).can_step(dt, screen),
        ensures
            exists|keep_x: bool, keep_y: bool|
                final(self)@ == old(self)@.step(frame_of(dt, keys, screen, keep_x, keep_y)),
            final(self).wf(),
            !old(self)@.advance(dt as int).missed_left() && !old(self)@.advance(
                dt as int,
            ).missed_right(screen.width as int) ==> final(self)@ == old(self)@.step(
                frame_of(dt, keys, screen, true, true),
            ),
            screen.height >= RACKET_HEIGHT ==> {
                &&& racket_on_screen(final(self).player_1_pos.y as int, screen.height as int)
                &&& racket_on_screen(final(self).player_2_pos.y as int, screen.height as int)
            },
            old(self)@.advance(dt as int).missed_left() ==> {
                &&& final(self).player_2_score == old(self).player_2_score + 1
                &&& final(self).player_1_score == old(self).player_1_score
            },
            old(self)@.advance(dt as int).missed_right(screen.width as int) ==> {
                &&& final(self).player_1_score == old(self).player_1_score + 1
                &&& final(self).player_2_score == old(self).player_2_score
            },
            old(self)@.advance(dt as int).missed_left() || old(self)@.advance(
                dt as int,
            ).missed_right(screen.width as int) ==> {
                &&& final(self).ball_pos.x == screen.width / 2
                &&& BALL_SIZE_HALF <= screen.height / 2 <= screen.height - BALL_SIZE
                    ==> final(self).ball_pos.y == screen.height / 2
                &&& magnitude(final(self).ball_vel.x as int) == BALL_SPEED
                &&& magnitude(final(self).ball_vel.y as int) == BALL_SPEED
            },
            ({
                let met = old(self)@.approach(frame_of(dt, keys, screen, true, true));
                &&& met.hits_top() ==> {
                    &&& final(self).ball_pos.y == BALL_SIZE_HALF
                    &&& final(self).ball_vel.y >= 0
                }
                &&& met.hits_bottom(screen.height as int) ==> {
                    &&& final(self).ball_pos.y == screen.height - BALL_SIZE
                    &&& final(self).ball_vel.y <= 0
                }
            }),
            ({
                let met = old(self)@.contact(frame_of(dt, keys, screen, true, true));
                let on_left = overlaps(met.ball_pos, met.player_1_pos);
                let on_right = overlaps(met.ball_pos, met.player_2_pos);
                &&& on_right ==> final(self).ball_vel.x <= 0
                &&& on_left && !on_right ==> final(self).ball_vel.x >= 0
            }),
    {
        self.move_rackets(dt, keys, screen.height);
        self.move_ball(dt);
        if self.ball_pos.x < 0 {
            self.ball_pos = middle(screen);
            randomize_vec(&mut self.ball_vel, BALL_SPEED, BALL_SPEED);
            self.player_2_score += 1;
        } else if self.ball_pos.x > screen.width {
            self.ball_pos = middle(screen);
            randomize_vec(&mut self.ball_vel, BALL_SPEED, BALL_SPEED);
            self.player_1_score += 1;
        }
        let ghost keep_x = self.ball_vel.x == BALL_SPEED;
        let ghost keep_y = self.ball_vel.y == BALL_SPEED;
        self.bounce_off_walls(screen.height);
        self.bounce_off_rackets();
        assert(self@ == old(self)@.step(frame_of(dt, keys, screen, keep_x, keep_y)));
    }
}

} // verus!
