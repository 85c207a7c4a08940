//! Vehicles and the rules by which one moves.
//!
//! A vehicle runs at a constant speed or stands still. Each tick it looks at
//! the lights and at where every vehicle stood before the tick, and decides
//! whether to advance. When it first moves past the centre of the intersection
//! it takes its turn, once.

use vstd::prelude::*;
use crate::constants::{
    BOUNDS_MARGIN, CENTER_X, CENTER_Y, LANE_OFFSET, VEHICLE_HEIGHT, VEHICLE_SAFE_DISTANCE,
    VEHICLE_SPEED, VEHICLE_WIDTH, WINDOW_HEIGHT, WINDOW_WIDTH,
};
use crate::models::direction::Direction;
use crate::models::route::Route;
use crate::models::shape::Shape;
use crate::models::traffic_light::{
    is_first_light_for, lemma_first_light_unique, shows_red, TrafficLight, TrafficLightState,
};

verus! {

/// A vehicle on the playfield.
///
/// `position` is the centre of the vehicle as `(x, y)`. `color` is the colour
/// it is painted in, as red, green, blue; the rules never read it.
#[derive(Debug, Clone, Copy, PartialEq, Eq)]
pub struct Vehicle {
    pub position: (i32, i32),
    pub direction: Direction,
    pub route: Route,
    pub color: (u8, u8, u8),
    pub has_passed_intersection: bool,
}

impl Vehicle {
    /// Where a vehicle that travels in `direction` enters the playfield: at
    /// the edge it comes from, in the middle of its lane.
    pub open spec fn entry_position(direction: Direction) -> (i32, i32) {
        match direction {
            Direction::North => ((CENTER_X - LANE_OFFSET) as i32, WINDOW_HEIGHT as i32),
            Direction::South => ((CENTER_X + LANE_OFFSET) as i32, 0i32),
            Direction::East => (0i32, (CENTER_Y + LANE_OFFSET) as i32),
            Direction::West => (WINDOW_WIDTH as i32, (CENTER_Y - LANE_OFFSET) as i32),
        }
    }

    /// The vehicle that `new` makes.
    pub open spec fn spec_new(direction: Direction, route: Route) -> Vehicle {
        Vehicle {
            position: Self::entry_position(direction),
            direction,
            route,
            color: route.spec_color(),
            has_passed_intersection: false,
        }
    }

    /// How far the vehicle still has to go, along its axis of travel, to reach
    /// the centre of the intersection. Negative once it is past the centre.
    pub open spec fn distance_to_center(self) -> int {
        match self.direction {
            Direction::North => self.position.1 - CENTER_Y,
            Direction::South => CENTER_Y - self.position.1,
            Direction::East => CENTER_X - self.position.0,
            Direction::West => self.position.0 - CENTER_X,
        }
    }

    /// Whether a red light holds the vehicle: it has not crossed yet, the
    /// light for its direction is red, and the centre lies ahead of it by less
    /// than the safe distance.
    pub open spec fn stops_at_light(self, lights: Seq<TrafficLight>) -> bool {
        &&& !self.has_passed_intersection
        &&& shows_red(lights, self.direction)
        &&& 0 < self.distance_to_center() < VEHICLE_SAFE_DISTANCE
    }

    /// How far `other` is ahead of this vehicle, measured along this vehicle's
    /// axis of travel. Negative when `other` is behind.
    pub open spec fn gap_to(self, other: Vehicle) -> int {
        match self.direction {
            Direction::North => self.position.1 - other.position.1,
            Direction::South => other.position.1 - self.position.1,
            Direction::East => other.position.0 - self.position.0,
            Direction::West => self.position.0 - other.position.0,
        }
    }

    /// How far apart the two vehicles are across this vehicle's axis of travel.
    pub open spec fn lateral_offset(self, other: Vehicle) -> nat {
        if self.direction.is_vertical() {
            vstd::math::abs(self.position.0 - other.position.0)
        } else {
            vstd::math::abs(self.position.1 - other.position.1)
        }
    }

    /// The extent of a vehicle across the axis of travel.
    pub open spec fn footprint(direction: Direction) -> int {
        if direction.is_vertical() {
            VEHICLE_WIDTH as int
        } else {
            VEHICLE_HEIGHT as int
        }
    }

    /// Whether the two vehicles travel the same way in the same lane.
    pub open spec fn same_lane(self, other: Vehicle) -> bool {
        &&& self.direction == other.direction
        &&& self.lateral_offset(other) < Self::footprint(self.direction)
    }

    /// Whether `other` holds this vehicle back: it is in the same lane, ahead,
    /// and closer than the safe distance.
    pub open spec fn blocked_by(self, other: Vehicle) -> bool {
        &&& self.same_lane(other)
        &&& 0 < self.gap_to(other) < VEHICLE_SAFE_DISTANCE
    }

    /// Whether any of `vehicles` holds this vehicle back.
    pub open spec fn stops_for_vehicle(self, vehicles: Seq<Vehicle>) -> bool {
        exists|j: int| 0 <= j < vehicles.len() && self.blocked_by(#[trigger] vehicles[j])
    }

    /// Whether one step forward keeps the coordinates within machine range.
    pub open spec fn can_advance(self) -> bool {
        match self.direction {
            Direction::North => self.position.1 - VEHICLE_SPEED >= i32::MIN,
            Direction::South => self.position.1 + VEHICLE_SPEED <= i32::MAX,
            Direction::East => self.position.0 + VEHICLE_SPEED <= i32::MAX,
            Direction::West => self.position.0 - VEHICLE_SPEED >= i32::MIN,
        }
    }

    /// The vehicle one step further along its direction of travel.
    pub open spec fn advanced(self) -> Vehicle {
        let (x, y) = self.position;
        let position = match self.direction {
            Direction::North => (x, (y - VEHICLE_SPEED) as i32),
            Direction::South => (x, (y + VEHICLE_SPEED) as i32),
            Direction::East => ((x + VEHICLE_SPEED) as i32, y),
            Direction::West => ((x - VEHICLE_SPEED) as i32, y),
        };
        Vehicle { position, ..self }
    }

    /// Whether the vehicle is past the centre line that lies across its axis
    /// of travel.
    pub open spec fn beyond_center(self) -> bool {
        self.distance_to_center() < 0
    }

    /// The vehicle after it has taken its turn: it heads where its route
    /// leads, and a vehicle that turns is put in the middle of the lane that
    /// carries its new direction.
    pub open spec fn turned(self) -> Vehicle {
        let heading = self.direction.after(self.route);
        let lane = heading.lane_coordinate() as i32;
        if self.route == Route::Straight {
            self
        } else if heading.is_vertical() {
            Vehicle { direction: heading, position: (lane, self.position.1), ..self }
        } else {
            Vehicle { direction: heading, position: (self.position.0, lane), ..self }
        }
    }

    /// The vehicle after one tick, given the lights and the places of all
    /// vehicles before the tick.
    pub open spec fn stepped(self, lights: Seq<TrafficLight>, vehicles: Seq<Vehicle>) -> Vehicle {
        if self.stops_at_light(lights) || self.stops_for_vehicle(vehicles) {
            self
        } else {
            let moved = self.advanced();
            if !moved.has_passed_intersection && moved.beyond_center() {
                (Vehicle { has_passed_intersection: true, ..moved }).turned()
            } else {
                moved
            }
        }
    }

    /// The vehicle after a run of ticks. A tick is given by what the vehicle
    /// is shown in it: the lights, and the places of all vehicles before the
    /// tick.
    pub open spec fn after_ticks(self, ticks: Seq<(Seq<TrafficLight>, Seq<Vehicle>)>) -> Vehicle
        decreases ticks.len(),
    {
        if ticks.len() == 0 {
            self
        } else {
            self.after_ticks(ticks.drop_last()).stepped(ticks.last().0, ticks.last().1)
        }
    }

    /// Whether the vehicle has left the playfield by more than the margin.
    pub open spec fn spec_is_out_of_bounds(self) -> bool {
        ||| self.position.0 < -BOUNDS_MARGIN
        ||| self.position.0 > WINDOW_WIDTH + BOUNDS_MARGIN
        ||| self.position.1 < -BOUNDS_MARGIN
        ||| self.position.1 > WINDOW_HEIGHT + BOUNDS_MARGIN
    }

    /// The width and height of a vehicle that travels in `direction`, as it is
    /// painted.
    pub open spec fn extent(direction: Direction) -> (u32, u32) {
        if direction.is_vertical() {
            (VEHICLE_WIDTH, VEHICLE_HEIGHT)
        } else {
            (VEHICLE_HEIGHT, VEHICLE_WIDTH)
        }
    }

    /// Whether the top-left corner of the vehicle's rectangle is within
    /// machine range.
    pub open spec fn paintable(self) -> bool {
        &&& self.position.0 - Self::extent(self.direction).0 / 2 >= i32::MIN
        &&& self.position.1 - Self::extent(self.direction).1 / 2 >= i32::MIN
    }

    /// The rectangle the vehicle is painted as: centred on its position, in
    /// its colour.
    pub open spec fn spec_shape(self) -> Shape {
        let (width, height) = Self::extent(self.direction);
        Shape {
            x: (self.position.0 - width / 2) as i32,
            y: (self.position.1 - height / 2) as i32,
            width,
            height,
            color: self.color,
        }
    }

    /// A vehicle inside the playfield margin can take a step and can be
    /// painted.
    pub proof fn lemma_inside_is_in_range(self)
        requires
            !self.spec_is_out_of_bounds(),
        ensures
            self.can_advance(),
            self.paintable(),
    {
    }

    /// The rectangle the vehicle is painted as: centred on its position, in
    /// its colour.
    pub fn shape(&self) -> (shape: Shape)
        requires
            self.paintable(),
        ensures
            shape == self.spec_shape(),
    {
        let (width, height) = match self.direction {
            Direction::North | Direction::South => (VEHICLE_WIDTH, VEHICLE_HEIGHT),
            Direction::East | Direction::West => (VEHICLE_HEIGHT, VEHICLE_WIDTH),
        };
        Shape {
            x: self.position.0 - (width / 2) as i32,
            y: self.position.1 - (height / 2) as i32,
            width,
            height,
            color: self.color,
        }
    }

    /// A vehicle at the entry position of `direction` that has not crossed
    /// yet, painted in the colour of its route.
    pub fn new(direction: Direction, route: Route) -> (vehicle: Vehicle)
        ensures
            vehicle == Self::spec_new(direction, route),
    {
        let position: (i32, i32) = match direction {
            Direction::North => (CENTER_X - LANE_OFFSET, WINDOW_HEIGHT as i32),
            Direction::South => (CENTER_X + LANE_OFFSET, 0),
            Direction::East => (0, CENTER_Y + LANE_OFFSET),
            Direction::West => (WINDOW_WIDTH as i32, CENTER_Y - LANE_OFFSET),
        };
        Vehicle { position, direction, route, color: route.color(), has_passed_intersection: false }
    }

    /// Moves the vehicle by one tick. `vehicles` holds the places of all
    /// vehicles before the tick; the vehicle's own entry there does no harm,
    /// since no vehicle is ahead of itself.
    pub fn update(&mut self, traffic_lights: &[TrafficLight], vehicles: &[Vehicle])
        requires
            old(self).can_advance(),
        ensures
            *final(self) == old(self).stepped(traffic_lights@, vehicles@),
            old(self).stops_at_light(traffic_lights@) ==> final(self).position == old(self).position,
            old(self).stops_for_vehicle(vehicles@) ==> final(self).position == old(self).position,
            final(self).route == old(self).route,
            final(self).color == old(self).color,
            old(self).has_passed_intersection ==> final(self).has_passed_intersection,
            old(self).has_passed_intersection || old(self).route == Route::Straight
                ==> final(self).direction == old(self).direction,
    {
        let should_stop_at_light = self.should_stop_at_traffic_light(traffic_lights);
        let should_stop_for_vehicle = self.should_stop_for_vehicle(vehicles);

        if !should_stop_at_light && !should_stop_for_vehicle {
            match self.direction {
                Direction::North => self.position.1 = self.position.1 - VEHICLE_SPEED,
                Direction::South => self.position.1 = self.position.1 + VEHICLE_SPEED,
                Direction::East => self.position.0 = self.position.0 + VEHICLE_SPEED,
                Direction::West => self.position.0 = self.position.0 - VEHICLE_SPEED,
            }

            if !self.has_passed_intersection {
                let crossed = match self.direction {
                    Direction::North => self.position.1 < CENTER_Y,
                    Direction::South => self.position.1 > CENTER_Y,
                    Direction::East => self.position.0 > CENTER_X,
                    Direction::West => self.position.0 < CENTER_X,
                };
                if crossed {
                    self.has_passed_intersection = true;
                    self.change_direction_based_on_route();
                }
            }
        }
    }

    /// Takes the turn of the vehicle's route: sets the new direction and puts
    /// the vehicle in the middle of the lane that carries it. A vehicle that
    /// goes straight is left as it is.
    pub fn change_direction_based_on_route(&mut self)
        ensures
            *final(self) == old(self).turned(),
            final(self).direction == old(self).direction.after(old(self).route),
            old(self).route == Route::Straight ==> *final(self) == *old(self),
    {
        match (self.direction, self.route) {
            (Direction::North, Route::Left) => {
                self.direction = Direction::West;
                self.position.1 = CENTER_Y - LANE_OFFSET;
            },
            (Direction::North, Route::Right) => {
                self.direction = Direction::East;
                self.position.1 = CENTER_Y + LANE_OFFSET;
            },
            (Direction::South, Route::Left) => {
                self.direction = Direction::East;
                self.position.1 = CENTER_Y + LANE_OFFSET;
            },
            (Direction::South, Route::Right) => {
                self.direction = Direction::West;
                self.position.1 = CENTER_Y - LANE_OFFSET;
            },
            (Direction::East, Route::Left) => {
                self.direction = Direction::North;
                self.position.0 = CENTER_X - LANE_OFFSET;
            },
            (Direction::East, Route::Right) => {
                self.direction = Direction::South;
                self.position.0 = CENTER_X + LANE_OFFSET;
            },
            (Direction::West, Route::Left) => {
                self.direction = Direction::South;
                self.position.0 = CENTER_X + LANE_OFFSET;
            },
            (Direction::West, Route::Right) => {
                self.direction = Direction::North;
                self.position.0 = CENTER_X - LANE_OFFSET;
            },
            _ => {},
        }
    }

    /// Whether a red light holds the vehicle this tick.
    pub fn should_stop_at_traffic_light(&self, traffic_lights: &[TrafficLight]) -> (stop: bool)
        ensures
            stop == self.stops_at_light(traffic_lights@),
    {
        if self.has_passed_intersection {
            return false;
        }
        let n = traffic_lights.len();
        let mut i: usize = 0;
        while i < n
            invariant
                n == traffic_lights@.len(),
                i <= n,
                !self.has_passed_intersection,
                forall|j: int| 0 <= j < i ==> (#[trigger] traffic_lights@[j]).direction != self.direction,
            decreases n - i,
        {
            let light = &traffic_lights[i];
            if light.direction == self.direction {
                let red = light.state == TrafficLightState::Red;
                let distance: i64 = match self.direction {
                    Direction::North => self.position.1 as i64 - CENTER_Y as i64,
                    Direction::South => CENTER_Y as i64 - self.position.1 as i64,
                    Direction::East => CENTER_X as i64 - self.position.0 as i64,
                    Direction::West => self.position.0 as i64 - CENTER_X as i64,
                };
                let held = red && distance > 0 && distance < VEHICLE_SAFE_DISTANCE as i64;
                proof {
                    assert(is_first_light_for(traffic_lights@, self.direction, i as int));
                    if !red {
                        assert forall|k: int| #[trigger]
                            is_first_light_for(traffic_lights@, self.direction, k) implies !(
                        traffic_lights@[k].state == TrafficLightState::Red) by {
                            lemma_first_light_unique(traffic_lights@, self.direction, i as int, k);
                        }
                    }
                }
                return held;
            }
            i += 1;
        }
        false
    }

    /// Whether a vehicle ahead in the same lane holds the vehicle this tick.
    pub fn should_stop_for_vehicle(&self, vehicles: &[Vehicle]) -> (stop: bool)
        ensures
            stop == self.stops_for_vehicle(vehicles@),
    {
        let x = self.position.0 as i64;
        let y = self.position.1 as i64;
        let safe = VEHICLE_SAFE_DISTANCE as i64;
        let n = vehicles.len();
        let mut j: usize = 0;
        while j < n
            invariant
                n == vehicles@.len(),
                j <= n,
                x == self.position.0,
                y == self.position.1,
                safe == VEHICLE_SAFE_DISTANCE,
                forall|k: int| 0 <= k < j ==> !self.blocked_by(#[trigger] vehicles@[k]),
            decreases n - j,
        {
            let other = &vehicles[j];
            if self.direction == other.direction {
                let other_x = other.position.0 as i64;
                let other_y = other.position.1 as i64;
                let across: i64 = match self.direction {
                    Direction::North | Direction::South => x - other_x,
                    Direction::East | Direction::West => y - other_y,
                };
                let lateral: i64 = if across < 0 {
                    -across
                } else {
                    across
                };
                let blocked = match self.direction {
                    Direction::North => lateral < VEHICLE_WIDTH as i64 && y > other_y && y
                        - other_y < safe,
                    Direction::South => lateral < VEHICLE_WIDTH as i64 && y < other_y && other_y
                        - y < safe,
                    Direction::East => lateral < VEHICLE_HEIGHT as i64 && x < other_x && other_x
                        - x < safe,
                    Direction::West => lateral < VEHICLE_HEIGHT as i64 && x > other_x && x
                        - other_x < safe,
                };
                if blocked {
                    assert(self.blocked_by(vehicles@[j as int]));
                    return true;
                }
            }
            assert(!self.blocked_by(vehicles@[j as int]));
            j += 1;
        }
        false
    }

    /// Whether the vehicle has left the playfield by more than the margin.
    pub fn is_out_of_bounds(&self) -> (out: bool)
        ensures
            out == self.spec_is_out_of_bounds(),
    {
        self.position.0 < -BOUNDS_MARGIN || self.position.0 > WINDOW_WIDTH as i32 + BOUNDS_MARGIN
            || self.position.1 < -BOUNDS_MARGIN || self.position.1 > WINDOW_HEIGHT as i32
            + BOUNDS_MARGIN
    }
}

} // verus!
