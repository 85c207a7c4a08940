//! The turn a vehicle takes at the intersection.

use vstd::prelude::*;

verus! {

/// What a vehicle does when it reaches the centre of the intersection.
#[derive(Debug, Clone, Copy, PartialEq, Eq, Structural)]
pub enum Route {
    Left,
    Straight,
    Right,
}

impl Route {
    /// The route numbered `i`: 0 is left, 1 is straight, anything else right.
    pub open spec fn spec_from_index(i: int) -> Route {
        if i == 0 {
            Route::Left
        } else if i == 1 {
            Route::Straight
        } else {
            Route::Right
        }
    }

    /// The route numbered `i`: 0 is left, 1 is straight, anything else right.
    pub fn from_index(i: u32) -> (r: Route)
        ensures
            r == Self::spec_from_index(i as int),
    {
        match i {
            0 => Route::Left,
            1 => Route::Straight,
            _ => Route::Right,
        }
    }

    /// The colour a vehicle on this route is painted, as red, green, blue.
    pub open spec fn spec_color(self) -> (u8, u8, u8) {
        match self {
            Route::Left => (255u8, 255u8, 0u8),
            Route::Straight => (0u8, 0u8, 255u8),
            Route::Right => (0u8, 255u8, 255u8),
        }
    }

    /// The colour a vehicle on this route is painted, as red, green, blue.
    pub fn color(self) -> (c: (u8, u8, u8))
        ensures
            c == self.spec_color(),
    {
        match self {
            Route::Left => (255, 255, 0),
            Route::Straight => (0, 0, 255),
            Route::Right => (0, 255, 255),
        }
    }
}

} // verus!
