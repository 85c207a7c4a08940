//! Dimensions of the playfield and the fixed parameters of the simulation.
//!
//! Lengths are in pixels, durations in milliseconds.

use vstd::prelude::*;

verus! {

pub const WINDOW_WIDTH: u32 = 800;

pub const WINDOW_HEIGHT: u32 = 800;

pub const ROAD_WIDTH: u32 = 100;

pub const LANE_WIDTH: u32 = ROAD_WIDTH / 2;

pub const TRAFFIC_LIGHT_SIZE: u32 = 20;

pub const VEHICLE_WIDTH: u32 = 30;

pub const VEHICLE_HEIGHT: u32 = 20;

/// Distance a vehicle covers in one tick when nothing holds it back.
pub const VEHICLE_SPEED: i32 = 2;

/// Smallest gap a vehicle keeps to the stop line and to the vehicle ahead.
pub const VEHICLE_SAFE_DISTANCE: i32 = 40;

/// Time between two flips of the traffic lights.
pub const TRAFFIC_LIGHT_CYCLE_TIME: u64 = 5000;

/// Time that must pass between two accepted spawns from one direction.
pub const SPAWN_COOLDOWN: u64 = 1000;

/// How far past the edge of the window a vehicle may be before it is removed.
pub const BOUNDS_MARGIN: i32 = 50;

/// Horizontal coordinate of the centre of the intersection.
pub const CENTER_X: i32 = 400;

/// Vertical coordinate of the centre of the intersection.
pub const CENTER_Y: i32 = 400;

/// Distance from the centre line of a road to the centre line of its lanes.
pub const LANE_OFFSET: i32 = 25;

/// The derived constants agree with the dimensions they are derived from.
pub proof fn lemma_derived_constants()
    ensures
        CENTER_X == WINDOW_WIDTH / 2,
        CENTER_Y == WINDOW_HEIGHT / 2,
        LANE_OFFSET == LANE_WIDTH / 2,
        LANE_WIDTH == 50,
{
}

} // verus!
