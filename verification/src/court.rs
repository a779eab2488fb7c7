//! The game as mathematics: a court of unbounded integers and the frame that
//! takes one court to the next.

use vstd::prelude::*;
use crate::chance::signed;
use crate::geometry::clamped;
use crate::geometry::magnitude;
use crate::geometry::Coords;
use crate::units::BALL_SIZE;
use crate::units::BALL_SIZE_HALF;
use crate::units::BALL_SPEED;
use crate::units::PADDING;
use crate::units::PLAYER_SPEED;
use crate::units::RACKET_HEIGHT;
use crate::units::RACKET_HEIGHT_HALF;
use crate::units::RACKET_WIDTH;
use crate::units::RACKET_WIDTH_HALF;

verus! {

/// Which of the four keys are held down during a frame.
#[derive(Clone, Copy, Debug, PartialEq, Eq, Structural)]
pub struct Keys {
    pub player_1_up: bool,
    pub player_1_down: bool,
    pub player_2_up: bool,
    pub player_2_down: bool,
}

/// The view of a game: positions, velocity and scores as mathematical integers.
pub struct Court {
    pub player_1_pos: Coords,
    pub player_2_pos: Coords,
    pub ball_pos: Coords,
    pub ball_vel: Coords,
    pub player_1_score: int,
    pub player_2_score: int,
}

/// Everything that one frame is given from outside: the time that passed, the
/// keys, the screen, and the two tosses that a serve would use.
pub struct Frame {
    pub dt: int,
    pub keys: Keys,
    pub screen_w: int,
    pub screen_h: int,
    pub keep_x: bool,
    pub keep_y: bool,
}

/// A racket's height lies on a screen of height `screen_h`.
pub open spec fn racket_on_screen(y: int, screen_h: int) -> bool {
    0 <= y <= screen_h - RACKET_HEIGHT
}

/// Height of a racket after one key was looked at: moved against `y_dir` for
/// `dt` if the key is held, then kept on a screen of height `screen_h`.
pub open spec fn racket_moved(y: int, pressed: bool, y_dir: int, dt: int, screen_h: int) -> int {
    clamped(
        if pressed {
            y - y_dir * PLAYER_SPEED * dt
        } else {
            y
        },
        0,
        screen_h - RACKET_HEIGHT,
    )
}

/// Height of a racket after a frame: the up key is looked at first, then the
/// down key, each followed by the clamp.
pub open spec fn racket_steered(y: int, up: bool, down: bool, dt: int, screen_h: int) -> int {
    racket_moved(racket_moved(y, up, 1, dt, screen_h), down, -1, dt, screen_h)
}

/// Whether the ball's box and a racket's box overlap, both taken about their
/// positions with their half extents.
pub open spec fn overlaps(ball: Coords, racket: Coords) -> bool {
    &&& ball.x - BALL_SIZE_HALF < racket.x + RACKET_WIDTH_HALF
    &&& ball.x + BALL_SIZE_HALF > racket.x - RACKET_WIDTH_HALF
    &&& ball.y - BALL_SIZE_HALF < racket.y + RACKET_HEIGHT_HALF
    &&& ball.y + BALL_SIZE_HALF > racket.y - RACKET_HEIGHT_HALF
}

/// The middle of a screen.
pub open spec fn centre(screen_w: int, screen_h: int) -> Coords {
    Coords { x: screen_w / 2, y: screen_h / 2 }
}

/// The velocity of a served ball: `BALL_SPEED` along each axis, its sign
/// decided by a toss.
pub open spec fn service(keep_x: bool, keep_y: bool) -> Coords {
    Coords { x: signed(keep_x, BALL_SPEED as int), y: signed(keep_y, BALL_SPEED as int) }
}

/// The court at the start of a game on the given screen: the rackets at
/// mid-height, `PADDING` away from their sides, the ball served from the
/// middle, no points yet.
pub open spec fn opening(screen_w: int, screen_h: int, keep_x: bool, keep_y: bool) -> Court {
    Court {
        player_1_pos: Coords { x: PADDING as int, y: screen_h / 2 - RACKET_HEIGHT_HALF },
        player_2_pos: Coords {
            x: screen_w - RACKET_WIDTH - PADDING,
            y: screen_h / 2 - RACKET_HEIGHT_HALF,
        },
        ball_pos: centre(screen_w, screen_h),
        ball_vel: service(keep_x, keep_y),
        player_1_score: 0,
        player_2_score: 0,
    }
}

impl Court {
    /// Both rackets follow their keys.
    pub open spec fn steer(self, dt: int, keys: Keys, screen_h: int) -> Court {
        Court {
            player_1_pos: Coords {
                x: self.player_1_pos.x,
                y: racket_steered(
                    self.player_1_pos.y,
                    keys.player_1_up,
                    keys.player_1_down,
                    dt,
                    screen_h,
                ),
            },
            player_2_pos: Coords {
                x: self.player_2_pos.x,
                y: racket_steered(
                    self.player_2_pos.y,
                    keys.player_2_up,
                    keys.player_2_down,
                    dt,
                    screen_h,
                ),
            },
            ..self
        }
    }

    /// The ball flies on for `dt`.
    pub open spec fn advance(self, dt: int) -> Court {
        Court {
            ball_pos: Coords {
                x: self.ball_pos.x + self.ball_vel.x * dt,
                y: self.ball_pos.y + self.ball_vel.y * dt,
            },
            ..self
        }
    }

    /// The ball has left the screen on the left: player 1 missed it.
    pub open spec fn missed_left(self) -> bool {
        self.ball_pos.x < 0
    }

    /// The ball has left the screen on the right: player 2 missed it.
    pub open spec fn missed_right(self, screen_w: int) -> bool {
        !self.missed_left() && self.ball_pos.x > screen_w
    }

    /// The ball is put back in the middle with the given velocity.
    pub open spec fn serve(self, screen_w: int, screen_h: int, vel: Coords) -> Court {
        Court { ball_pos: centre(screen_w, screen_h), ball_vel: vel, ..self }
    }

    /// A miss gives the other player a point and serves the ball anew; a ball
    /// still on the screen changes nothing.
    pub open spec fn settle(self, screen_w: int, screen_h: int, keep_x: bool, keep_y: bool) -> Court {
        if self.missed_left() {
            Court {
                player_2_score: self.player_2_score + 1,
                ..self.serve(screen_w, screen_h, service(keep_x, keep_y))
            }
        } else if self.missed_right(screen_w) {
            Court {
                player_1_score: self.player_1_score + 1,
                ..self.serve(screen_w, screen_h, service(keep_x, keep_y))
            }
        } else {
            self
        }
    }

    /// The ball is over the top wall.
    pub open spec fn hits_top(self) -> bool {
        self.ball_pos.y < BALL_SIZE_HALF
    }

    /// The ball is over the bottom wall, and not over the top one.
    pub open spec fn hits_bottom(self, screen_h: int) -> bool {
        !self.hits_top() && self.ball_pos.y > screen_h - BALL_SIZE
    }

    /// A ball over a wall is set onto it and sent back towards the screen.
    pub open spec fn rebound(self, screen_h: int) -> Court {
        if self.hits_top() {
            Court {
                ball_pos: Coords { x: self.ball_pos.x, y: BALL_SIZE_HALF as int },
                ball_vel: Coords { x: self.ball_vel.x, y: magnitude(self.ball_vel.y) },
                ..self
            }
        } else if self.hits_bottom(screen_h) {
            Court {
                ball_pos: Coords { x: self.ball_pos.x, y: screen_h - BALL_SIZE },
                ball_vel: Coords { x: self.ball_vel.x, y: -magnitude(self.ball_vel.y) },
                ..self
            }
        } else {
            self
        }
    }

    /// Horizontal speed of the ball after the rackets had their say: the left
    /// racket sends it right, then the right racket sends it left.
    pub open spec fn deflected_speed(self) -> int {
        let after_left = if overlaps(self.ball_pos, self.player_1_pos) {
            magnitude(self.ball_vel.x)
        } else {
            self.ball_vel.x
        };
        if overlaps(self.ball_pos, self.player_2_pos) {
            -magnitude(after_left)
        } else {
            after_left
        }
    }

    /// A ball that overlaps a racket is sent away from it.
    pub open spec fn deflect(self) -> Court {
        Court { ball_vel: Coords { x: self.deflected_speed(), y: self.ball_vel.y }, ..self }
    }

    /// The court as the ball meets the walls in a frame: the rackets have
    /// moved, the ball has flown, and a miss has been settled.
    pub open spec fn approach(self, frame: Frame) -> Court {
        self.steer(frame.dt, frame.keys, frame.screen_h).advance(frame.dt).settle(
            frame.screen_w,
            frame.screen_h,
            frame.keep_x,
            frame.keep_y,
        )
    }

    /// The court as the ball meets the rackets in a frame: after the walls.
    pub open spec fn contact(self, frame: Frame) -> Court {
        self.approach(frame).rebound(frame.screen_h)
    }

    /// One frame: rackets, flight, score, walls, rackets' faces, in this order.
    pub open spec fn step(self, frame: Frame) -> Court {
        self.contact(frame).deflect()
    }

    /// The court after all of `frames`, the first of them played first.
    pub open spec fn play(self, frames: Seq<Frame>) -> Court
        decreases frames.len(),
    {
        if frames.len() == 0 {
            self
        } else {
            self.play(frames.drop_last()).step(frames.last())
        }
    }
}

} // verus!
