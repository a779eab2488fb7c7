//! A two-player Pong court in fixed-point arithmetic.
//!
//! Lengths are counted in millionths of a pixel and time in microseconds, so
//! that a speed given in pixels per second is at the same time a number of
//! length units per microsecond and every frame is computed exactly.
//!
//! `MainState` holds the game; `MainState::update` plays one frame of it and
//! `MainState::draw` says what to show. `court` is the same game over
//! unbounded integers, and `laws` holds what is proved of every frame.

pub mod units;
pub mod geometry;
pub mod chance;
pub mod court;
pub mod state;
pub mod scene;
pub mod laws;

pub use chance::orient;
pub use chance::randomize_vec;
pub use court::Keys;
pub use geometry::abs;
pub use geometry::clamp;
pub use geometry::Point;
pub use geometry::Screen;
pub use geometry::Vector;
pub use scene::score_pos;
pub use scene::Rect;
pub use scene::Scene;
pub use state::intersects;
pub use state::middle;
pub use state::move_racket;
pub use state::MainState;
