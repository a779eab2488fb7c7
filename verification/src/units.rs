//! The court's dimensions and limits.
//!
//! One pixel is `UNITS_PER_PIXEL` length units; one second is as many
//! microseconds. Speeds are whole pixels per second.

use vstd::prelude::*;

verus! {

/// Length units in one pixel, and microseconds in one second.
pub const UNITS_PER_PIXEL: i64 = 1_000_000;

/// Gap between a racket and the side of the screen behind it.
pub const PADDING: i64 = 40_000_000;

/// Width of the line that divides the court.
pub const MIDDLE_LINE_WIDTH: i64 = 2_000_000;

pub const RACKET_HEIGHT: i64 = 100_000_000;

pub const RACKET_WIDTH: i64 = 20_000_000;

pub const RACKET_HEIGHT_HALF: i64 = 50_000_000;

pub const RACKET_WIDTH_HALF: i64 = 10_000_000;

pub const BALL_SIZE: i64 = 30_000_000;

pub const BALL_SIZE_HALF: i64 = 15_000_000;

/// Height at which the score line is centred.
pub const SCORE_HEIGHT: i64 = 40_000_000;

/// Speed of a racket while its key is held, in pixels per second.
pub const PLAYER_SPEED: i64 = 600;

/// Speed of the ball along each axis after a serve, in pixels per second.
pub const BALL_SPEED: i64 = 100;

/// Largest magnitude of a coordinate and largest screen extent: a million pixels.
pub const MAX_COORD: i64 = 1_000_000_000_000;

/// Largest magnitude of a velocity component, in pixels per second.
pub const MAX_SPEED: i64 = 1_000_000;

/// Longest frame, in microseconds.
pub const MAX_DT: u64 = 1_000_000_000_000;

/// How far from the origin a ball can be at the end of its flight in one
/// frame: `MAX_COORD` and then `MAX_SPEED` for `MAX_DT`.
pub const MAX_REACH: i64 = 1_000_001_000_000_000_000;

} // verus!
