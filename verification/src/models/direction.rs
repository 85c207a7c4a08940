//! Compass directions of travel.

use vstd::prelude::*;
use crate::constants::{CENTER_X, CENTER_Y, LANE_OFFSET};
use crate::models::route::Route;

verus! {

/// The way a vehicle travels, and the approach a traffic light governs.
///
/// Screen coordinates grow to the right and downwards, so a vehicle that
/// travels north moves towards smaller `y`.
#[derive(Debug, Clone, Copy, PartialEq, Eq, Structural)]
pub enum Direction {
    North,
    South,
    East,
    West,
}

impl Direction {
    /// The unit vector of travel, as `(dx, dy)`.
    pub open spec fn unit(self) -> (int, int) {
        match self {
            Direction::North => (0, -1),
            Direction::South => (0, 1),
            Direction::East => (1, 0),
            Direction::West => (-1, 0),
        }
    }

    /// Whether travel is along the `y` axis.
    pub open spec fn is_vertical(self) -> bool {
        self == Direction::North || self == Direction::South
    }

    /// The direction of travel after taking `route` at the intersection.
    pub open spec fn after(self, route: Route) -> Direction {
        match route {
            Route::Straight => self,
            Route::Left => match self {
                Direction::North => Direction::West,
                Direction::South => Direction::East,
                Direction::East => Direction::North,
                Direction::West => Direction::South,
            },
            Route::Right => match self {
                Direction::North => Direction::East,
                Direction::South => Direction::West,
                Direction::East => Direction::South,
                Direction::West => Direction::North,
            },
        }
    }

    /// The coordinate, across the axis of travel, of the middle of the lane
    /// that carries this direction: an `x` for north and south, a `y` for east
    /// and west.
    pub open spec fn lane_coordinate(self) -> int {
        match self {
            Direction::North => CENTER_X - LANE_OFFSET,
            Direction::South => CENTER_X + LANE_OFFSET,
            Direction::East => CENTER_Y + LANE_OFFSET,
            Direction::West => CENTER_Y - LANE_OFFSET,
        }
    }

    /// The slot this direction occupies in per-direction tables.
    pub open spec fn spec_index(self) -> int {
        match self {
            Direction::North => 0,
            Direction::South => 1,
            Direction::East => 2,
            Direction::West => 3,
        }
    }

    /// The direction that occupies slot `i`; slots past the third hold west.
    pub open spec fn spec_from_index(i: int) -> Direction {
        if i == 0 {
            Direction::North
        } else if i == 1 {
            Direction::South
        } else if i == 2 {
            Direction::East
        } else {
            Direction::West
        }
    }

    /// The slot this direction occupies in per-direction tables.
    pub fn index(self) -> (i: usize)
        ensures
            i == self.spec_index(),
            i < 4,
    {
        match self {
            Direction::North => 0,
            Direction::South => 1,
            Direction::East => 2,
            Direction::West => 3,
        }
    }

    /// The direction that occupies slot `i`; slots past the third hold west.
    pub fn from_index(i: u32) -> (d: Direction)
        ensures
            d == Self::spec_from_index(i as int),
    {
        match i {
            0 => Direction::North,
            1 => Direction::South,
            2 => Direction::East,
            _ => Direction::West,
        }
    }

    /// Slots and directions correspond one to one.
    pub proof fn lemma_index_round_trip(self)
        ensures
            0 <= self.spec_index() < 4,
            Self::spec_from_index(self.spec_index()) == self,
    {
    }
}

} // verus!
