//! Points, velocities and the screen, with their mathematical views.

use vstd::prelude::*;
use crate::units::MAX_COORD;
use crate::units::MAX_SPEED;

verus! {

/// A pair of mathematical integers: the view of a `Point` or a `Vector`.
pub struct Coords {
    pub x: int,
    pub y: int,
}

/// A position on the screen, in length units, `y` growing downwards.
#[derive(Clone, Copy, Debug, PartialEq, Eq, Structural)]
pub struct Point {
    pub x: i64,
    pub y: i64,
}

/// A velocity, in pixels per second along each axis.
#[derive(Clone, Copy, Debug, PartialEq, Eq, Structural)]
pub struct Vector {
    pub x: i64,
    pub y: i64,
}

/// The drawable area, in length units.
#[derive(Clone, Copy, Debug, PartialEq, Eq, Structural)]
pub struct Screen {
    pub width: i64,
    pub height: i64,
}

impl View for Point {
    type V = Coords;

    open spec fn view(&self) -> Coords {
        Coords { x: self.x as int, y: self.y as int }
    }
}

impl View for Vector {
    type V = Coords;

    open spec fn view(&self) -> Coords {
        Coords { x: self.x as int, y: self.y as int }
    }
}

/// `value` brought into `[low, high]`, the lower bound tested first.
pub open spec fn clamped(value: int, low: int, high: int) -> int {
    if value < low {
        low
    } else if value > high {
        high
    } else {
        value
    }
}

/// The magnitude of `value`.
pub open spec fn magnitude(value: int) -> int {
    if value < 0 {
        -value
    } else {
        value
    }
}

impl Point {
    /// Both coordinates lie within `MAX_COORD` of the origin.
    pub open spec fn wf(&self) -> bool {
        &&& -MAX_COORD <= self.x <= MAX_COORD
        &&& -MAX_COORD <= self.y <= MAX_COORD
    }

    /// Whether this point is well formed.
    pub fn is_wf(&self) -> (ok: bool)
        ensures
            ok == self.wf(),
    {
        -MAX_COORD <= self.x && self.x <= MAX_COORD && -MAX_COORD <= self.y && self.y <= MAX_COORD
    }
}

impl Vector {
    /// Neither component is faster than `MAX_SPEED`.
    pub open spec fn wf(&self) -> bool {
        &&& -MAX_SPEED <= self.x <= MAX_SPEED
        &&& -MAX_SPEED <= self.y <= MAX_SPEED
    }

    /// Whether this velocity is well formed.
    pub fn is_wf(&self) -> (ok: bool)
        ensures
            ok == self.wf(),
    {
        -MAX_SPEED <= self.x && self.x <= MAX_SPEED && -MAX_SPEED <= self.y && self.y <= MAX_SPEED
    }
}

impl Screen {
    /// Both extents are positive and at most `MAX_COORD`.
    pub open spec fn wf(&self) -> bool {
        &&& 0 < self.width <= MAX_COORD
        &&& 0 < self.height <= MAX_COORD
    }

    /// Whether this screen is well formed.
    pub fn is_wf(&self) -> (ok: bool)
        ensures
            ok == self.wf(),
    {
        0 < self.width && self.width <= MAX_COORD && 0 < self.height && self.height <= MAX_COORD
    }
}

/// Brings `value` into `[low, high]`. Where `low > high`, a value under `low`
/// becomes `low` and any other becomes `high`.
pub fn clamp(value: &mut i64, low: i64, high: i64)
    ensures
        *final(value) == clamped(*old(value) as int, low as int, high as int),
{
    if *value < low {
        *value = low;
    } else if *value > high {
        *value = high;
    }
}

/// The magnitude of `value`, which must have one among the `i64`.
pub fn abs(value: i64) -> (result: i64)
    requires
        value > i64::MIN,
    ensures
        result == magnitude(value as int),
{
    if value < 0 {
        -value
    } else {
        value
    }
}

} // verus!
