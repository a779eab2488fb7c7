//! What holds of every frame and of every game, proved of the mathematical
//! court and so of every state that `update` and `update_with` produce.

use vstd::prelude::*;
use crate::court::centre;
use crate::court::opening;
use crate::court::overlaps;
use crate::court::racket_on_screen;
use crate::court::Court;
use crate::court::Frame;
use crate::geometry::magnitude;
use crate::units::BALL_SIZE;
use crate::units::BALL_SIZE_HALF;
use crate::units::BALL_SPEED;
use crate::units::RACKET_HEIGHT;

verus! {

/// All of `frames` are played on a screen of height `screen_h`.
pub open spec fn all_on_screen_height(frames: Seq<Frame>, screen_h: int) -> bool {
    forall|i: int| 0 <= i < frames.len() ==> (#[trigger] frames[i]).screen_h == screen_h
}

/// After a frame on a screen that is at least as high as a racket, both
/// rackets lie on the screen, wherever they were before and whatever the keys
/// and the time passed.
pub proof fn lemma_rackets_stay_on_screen(court: Court, frame: Frame)
    requires
        frame.screen_h >= RACKET_HEIGHT,
    ensures
        racket_on_screen(court.step(frame).player_1_pos.y, frame.screen_h),
        racket_on_screen(court.step(frame).player_2_pos.y, frame.screen_h),
        court.step(frame).player_1_pos.x == court.player_1_pos.x,
        court.step(frame).player_2_pos.x == court.player_2_pos.x,
{
}

/// After any number of frames, one at least, both rackets lie on the screen
/// of the last frame, if that screen is at least as high as a racket.
pub proof fn lemma_rackets_stay_on_screen_throughout(court: Court, frames: Seq<Frame>)
    requires
        frames.len() > 0,
        frames.last().screen_h >= RACKET_HEIGHT,
    ensures
        racket_on_screen(court.play(frames).player_1_pos.y, frames.last().screen_h),
        racket_on_screen(court.play(frames).player_2_pos.y, frames.last().screen_h),
{
    lemma_rackets_stay_on_screen(court.play(frames.drop_last()), frames.last());
}

/// From the start of a game and through any number of frames, none included,
/// both rackets lie on the screen, if its height stays the same and is at
/// least that of a racket.
pub proof fn lemma_rackets_on_screen_all_game(
    screen_w: int,
    screen_h: int,
    keep_x: bool,
    keep_y: bool,
    frames: Seq<Frame>,
)
    requires
        screen_h >= RACKET_HEIGHT,
        all_on_screen_height(frames, screen_h),
    ensures
        racket_on_screen(
            opening(screen_w, screen_h, keep_x, keep_y).play(frames).player_1_pos.y,
            screen_h,
        ),
        racket_on_screen(
            opening(screen_w, screen_h, keep_x, keep_y).play(frames).player_2_pos.y,
            screen_h,
        ),
{
    if frames.len() > 0 {
        lemma_rackets_stay_on_screen_throughout(
            opening(screen_w, screen_h, keep_x, keep_y),
            frames,
        );
    }
}

/// A ball that flies out on the left gives player 2 one point and player 1
/// none, and comes back at `BALL_SPEED` along each axis from the middle of the
/// screen's width; from the middle of its height too, if the middle lies
/// between the walls.
pub proof fn lemma_left_miss(court: Court, frame: Frame)
    requires
        court.ball_pos.x + court.ball_vel.x * frame.dt < 0,
    ensures
        court.step(frame).player_2_score == court.player_2_score + 1,
        court.step(frame).player_1_score == court.player_1_score,
        court.step(frame).ball_pos.x == frame.screen_w / 2,
        BALL_SIZE_HALF <= frame.screen_h / 2 <= frame.screen_h - BALL_SIZE ==> court.step(
            frame,
        ).ball_pos == centre(frame.screen_w, frame.screen_h),
        magnitude(court.step(frame).ball_vel.x) == BALL_SPEED,
        magnitude(court.step(frame).ball_vel.y) == BALL_SPEED,
{
}

/// A ball that flies out on the right of a screen gives player 1 one point
/// and player 2 none, and comes back as after a miss on the left.
pub proof fn lemma_right_miss(court: Court, frame: Frame)
    requires
        frame.screen_w >= 0,
        court.ball_pos.x + court.ball_vel.x * frame.dt > frame.screen_w,
    ensures
        court.step(frame).player_1_score == court.player_1_score + 1,
        court.step(frame).player_2_score == court.player_2_score,
        court.step(frame).ball_pos.x == frame.screen_w / 2,
        BALL_SIZE_HALF <= frame.screen_h / 2 <= frame.screen_h - BALL_SIZE ==> court.step(
            frame,
        ).ball_pos == centre(frame.screen_w, frame.screen_h),
        magnitude(court.step(frame).ball_vel.x) == BALL_SPEED,
        magnitude(court.step(frame).ball_vel.y) == BALL_SPEED,
{
}

/// A ball that stays on the screen leaves the score as it is and keeps its
/// speed along each axis, and the tosses are not looked at.
pub proof fn lemma_no_miss(court: Court, frame: Frame, other: Frame)
    requires
        0 <= court.ball_pos.x + court.ball_vel.x * frame.dt <= frame.screen_w,
        other == (Frame { keep_x: other.keep_x, keep_y: other.keep_y, ..frame }),
    ensures
        court.step(frame).player_1_score == court.player_1_score,
        court.step(frame).player_2_score == court.player_2_score,
        magnitude(court.step(frame).ball_vel.x) == magnitude(court.ball_vel.x),
        magnitude(court.step(frame).ball_vel.y) == magnitude(court.ball_vel.y),
        court.step(other) == court.step(frame),
{
}

/// A ball found over the top wall ends the frame on that wall, moving down
/// as fast as it moved before; one found over the bottom wall ends it on that
/// wall, moving up as fast. A ball between the walls keeps its height and its
/// vertical speed. The horizontal position is never touched by a wall.
pub proof fn lemma_wall_bounce(court: Court, frame: Frame)
    ensures
        ({
            let met = court.approach(frame);
            let next = court.step(frame);
            &&& met.hits_top() ==> {
                &&& next.ball_pos.y == BALL_SIZE_HALF
                &&& next.ball_vel.y == magnitude(met.ball_vel.y)
                &&& next.ball_vel.y >= 0
            }
            &&& met.hits_bottom(frame.screen_h) ==> {
                &&& next.ball_pos.y == frame.screen_h - BALL_SIZE
                &&& next.ball_vel.y == -magnitude(met.ball_vel.y)
                &&& next.ball_vel.y <= 0
            }
            &&& !met.hits_top() && !met.hits_bottom(frame.screen_h) ==> {
                &&& next.ball_pos.y == met.ball_pos.y
                &&& next.ball_vel.y == met.ball_vel.y
            }
            &&& next.ball_pos.x == met.ball_pos.x
        }),
{
}

/// A ball that overlaps the right racket ends the frame moving left as fast
/// as it moved before; one that overlaps the left racket alone ends it moving
/// right as fast. A ball that overlaps neither keeps its velocity. Position
/// and vertical speed are never touched by a racket.
pub proof fn lemma_racket_bounce(court: Court, frame: Frame)
    ensures
        ({
            let met = court.contact(frame);
            let next = court.step(frame);
            let on_left = overlaps(met.ball_pos, met.player_1_pos);
            let on_right = overlaps(met.ball_pos, met.player_2_pos);
            &&& on_right ==> {
                &&& next.ball_vel.x == -magnitude(met.ball_vel.x)
                &&& next.ball_vel.x <= 0
            }
            &&& on_left && !on_right ==> {
                &&& next.ball_vel.x == magnitude(met.ball_vel.x)
                &&& next.ball_vel.x >= 0
            }
            &&& !on_left && !on_right ==> next.ball_vel.x == met.ball_vel.x
            &&& next.ball_vel.y == met.ball_vel.y
            &&& next.ball_pos == met.ball_pos
        }),
{
}

/// A frame takes no point away and gives at most one point in all.
pub proof fn lemma_frame_scores_at_most_once(court: Court, frame: Frame)
    ensures
        court.step(frame).player_1_score >= court.player_1_score,
        court.step(frame).player_2_score >= court.player_2_score,
        court.step(frame).player_1_score + court.step(frame).player_2_score
            <= court.player_1_score + court.player_2_score + 1,
{
}

/// Through any number of frames no score goes down, and the two scores
/// together grow by no more than the number of frames.
pub proof fn lemma_scores_only_grow(court: Court, frames: Seq<Frame>)
    ensures
        court.play(frames).player_1_score >= court.player_1_score,
        court.play(frames).player_2_score >= court.player_2_score,
        court.play(frames).player_1_score + court.play(frames).player_2_score
            <= court.player_1_score + court.player_2_score + frames.len(),
    decreases frames.len(),
{
    if frames.len() > 0 {
        lemma_scores_only_grow(court, frames.drop_last());
        lemma_frame_scores_at_most_once(court.play(frames.drop_last()), frames.last());
    }
}

} // verus!
