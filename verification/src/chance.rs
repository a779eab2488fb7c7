//! The toss that decides which way the ball is served.

use vstd::prelude::*;
use rand::Rng;
use rand::rngs::ThreadRng;
use crate::geometry::Vector;

verus! {

/// `rand::rngs::ThreadRng`, the handle to a thread's own generator. Nothing
/// is known of its state.
#[verifier::external_type_specification]
#[verifier::external_body]
pub struct ExThreadRng(ThreadRng);

/// `rand::thread_rng` hands out the calling thread's generator, which is
/// seeded from the operating system when the thread first asks for it; it
/// fails only where the system has no seed to give. Nothing is claimed of the
/// generator.
pub assume_specification[ rand::thread_rng ]() -> (rng: ThreadRng);

/// `rand::Rng::gen_ratio` with one chance in two, drawn from the thread's
/// generator. The call accepts this ratio; its outcome is not predictable, so
/// nothing is claimed of it.
#[verifier::external_body]
fn toss(rng: &mut ThreadRng) -> (heads: bool) {
    rng.gen_ratio(1, 2)
}

/// `magnitude` if `keep`, else its negation.
pub open spec fn signed(keep: bool, magnitude: int) -> int {
    if keep {
        magnitude
    } else {
        -magnitude
    }
}

/// Sets `vec` to `(x, y)` with each component kept or negated as told.
pub fn orient(vec: &mut Vector, x: i64, y: i64, keep_x: bool, keep_y: bool)
    requires
        x > i64::MIN,
        y > i64::MIN,
    ensures
        final(vec).x == signed(keep_x, x as int),
        final(vec).y == signed(keep_y, y as int),
{
    vec.x = match keep_x {
        true => x,
        false => -x,
    };
    vec.y = match keep_y {
        true => y,
        false => -y,
    };
}

/// Sets `vec` to `(x, y)` with the sign of each component decided by a fair
/// toss of its own.
pub fn randomize_vec(vec: &mut Vector, x: i64, y: i64)
    requires
        x > i64::MIN,
        y > i64::MIN,
    ensures
        final(vec).x == x || final(vec).x == -x,
        final(vec).y == y || final(vec).y == -y,
{
    let mut rng = rand::thread_rng();
    let keep_x = toss(&mut rng);
    let keep_y = toss(&mut rng);
    orient(vec, x, y, keep_x, keep_y);
}

} // verus!
