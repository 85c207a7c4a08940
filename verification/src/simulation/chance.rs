//! Drawing at random.

use vstd::prelude::*;
use crate::models::direction::Direction;
use crate::models::route::Route;

verus! {

/// Draws a number with `gen_range(0..bound)` from the generator that
/// `rand::thread_rng` hands out. The draw lies below `bound`; which number it
/// is depends on chance, so nothing more is claimed. An empty range makes
/// `gen_range` panic, hence the demand on `bound`.
#[verifier::external_body]
fn random_below(bound: u32) -> (drawn: u32)
    requires
        bound > 0,
    ensures
        drawn < bound,
{
    rand::Rng::gen_range(&mut rand::thread_rng(), 0..bound)
}

/// A route drawn at random, each of the three with the same chance.
pub fn random_route() -> (route: Route) {
    let drawn = random_below(3);
    Route::from_index(drawn)
}

/// A direction drawn at random, each of the four with the same chance.
pub fn random_direction() -> (direction: Direction) {
    let drawn = random_below(4);
    Direction::from_index(drawn)
}

} // verus!
