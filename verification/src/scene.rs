//! What a frame shows: the boxes to fill and where the score goes.

use vstd::prelude::*;
use crate::geometry::Point;
use crate::geometry::Screen;
use crate::state::MainState;
use crate::units::BALL_SIZE;
use crate::units::MAX_COORD;
use crate::units::MIDDLE_LINE_WIDTH;
use crate::units::RACKET_HEIGHT;
use crate::units::RACKET_WIDTH;
use crate::units::SCORE_HEIGHT;

verus! {

/// A box to fill: its top-left corner and its extent, in length units.
#[derive(Clone, Copy, Debug, PartialEq, Eq, Structural)]
pub struct Rect {
    pub x: i64,
    pub y: i64,
    pub w: i64,
    pub h: i64,
}

/// Everything that is drawn in a frame.
#[derive(Clone, Copy, Debug, PartialEq, Eq, Structural)]
pub struct Scene {
    pub player_1: Rect,
    pub player_2: Rect,
    pub ball: Rect,
    pub middle_line: Rect,
    pub player_1_score: i32,
    pub player_2_score: i32,
}

impl MainState {
    /// The boxes and scores to draw for this state on `screen`: each racket
    /// and the ball as a box of its size with its position as the top-left
    /// corner, and the dividing line from the top of the screen to its bottom,
    /// starting at the middle of its width.
    pub fn draw(&self, screen: Screen) -> (scene: Scene)
        requires
            screen.wf(),
        ensures
            scene.player_1 == (Rect {
                x: self.player_1_pos.x,
                y: self.player_1_pos.y,
                w: RACKET_WIDTH,
                h: RACKET_HEIGHT,
            }),
            scene.player_2 == (Rect {
                x: self.player_2_pos.x,
                y: self.player_2_pos.y,
                w: RACKET_WIDTH,
                h: RACKET_HEIGHT,
            }),
            scene.ball == (Rect {
                x: self.ball_pos.x,
                y: self.ball_pos.y,
                w: BALL_SIZE,
                h: BALL_SIZE,
            }),
            scene.middle_line.x == screen.width / 2,
            scene.middle_line.y == 0,
            scene.middle_line.w == MIDDLE_LINE_WIDTH,
            scene.middle_line.h == screen.height,
            scene.player_1_score == self.player_1_score,
            scene.player_2_score == self.player_2_score,
    {
        Scene {
            player_1: Rect {
                x: self.player_1_pos.x,
                y: self.player_1_pos.y,
                w: RACKET_WIDTH,
                h: RACKET_HEIGHT,
            },
            player_2: Rect {
                x: self.player_2_pos.x,
                y: self.player_2_pos.y,
                w: RACKET_WIDTH,
                h: RACKET_HEIGHT,
            },
            ball: Rect { x: self.ball_pos.x, y: self.ball_pos.y, w: BALL_SIZE, h: BALL_SIZE },
            middle_line: Rect {
                x: screen.width / 2,
                y: 0,
                w: MIDDLE_LINE_WIDTH,
                h: screen.height,
            },
            player_1_score: self.player_1_score,
            player_2_score: self.player_2_score,
        }
    }
}

/// Top-left corner of a score line of the given extent, so that the line is
/// centred on the middle of the screen's width at `SCORE_HEIGHT`.
pub fn score_pos(screen: Screen, text_w: i64, text_h: i64) -> (pos: Point)
    requires
        screen.wf(),
        0 <= text_w <= MAX_COORD,
        0 <= text_h <= MAX_COORD,
    ensures
        pos.x == screen.width / 2 - text_w / 2,
        pos.y == SCORE_HEIGHT - text_h / 2,
{
    Point { x: screen.width / 2 - text_w / 2, y: SCORE_HEIGHT - text_h / 2 }
}

} // verus!
