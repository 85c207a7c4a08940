//! The intersection: its lights, its vehicles and its clocks.
//!
//! Time is counted in whole milliseconds since the intersection was made. The
//! rules are stated over [`IntersectionView`], the state with its collections
//! as sequences; every operation says which state it leads to.

use vstd::prelude::*;
use std::time::Instant;
use crate::constants::{
    ROAD_WIDTH, SPAWN_COOLDOWN, TRAFFIC_LIGHT_CYCLE_TIME, TRAFFIC_LIGHT_SIZE,
    VEHICLE_SAFE_DISTANCE, WINDOW_HEIGHT, WINDOW_WIDTH,
};
use crate::models::direction::Direction;
use crate::models::route::Route;
use crate::models::traffic_light::{TrafficLight, TrafficLightState};
use crate::models::vehicle::Vehicle;
use crate::simulation::chance::random_route;
use crate::simulation::clock::{elapsed, millis_since, spec_elapsed};

verus! {

/// The state of an intersection as the rules see it.
pub struct IntersectionView {
    /// The lights, in the order north, south, east, west.
    pub lights: Seq<TrafficLight>,
    /// The vehicles on the playfield.
    pub vehicles: Seq<Vehicle>,
    /// When the lights last flipped.
    pub last_phase_change: u64,
    /// When a vehicle was last admitted from each direction, by the
    /// direction's slot; `None` where none has been admitted yet.
    pub last_spawn: Seq<Option<u64>>,
}

/// The light `light` after a flip, given whether the north-south pair was
/// green before it: the pair that was green turns red, the other green.
pub open spec fn flipped(light: TrafficLight, north_south_green: bool) -> TrafficLight {
    TrafficLight {
        state: if light.direction.is_vertical() == north_south_green {
            TrafficLightState::Red
        } else {
            TrafficLightState::Green
        },
        ..light
    }
}

/// The signal opposite to `state`.
pub open spec fn opposite(state: TrafficLightState) -> TrafficLightState {
    match state {
        TrafficLightState::Red => TrafficLightState::Green,
        TrafficLightState::Green => TrafficLightState::Red,
    }
}

/// Where the light for `direction` is drawn: at a corner of the crossing.
pub open spec fn light_position(direction: Direction) -> (i32, i32) {
    let low_x = (WINDOW_WIDTH / 2 - ROAD_WIDTH / 2 - TRAFFIC_LIGHT_SIZE) as i32;
    let high_x = (WINDOW_WIDTH / 2 + ROAD_WIDTH / 2) as i32;
    let low_y = (WINDOW_HEIGHT / 2 - ROAD_WIDTH / 2 - TRAFFIC_LIGHT_SIZE) as i32;
    let high_y = (WINDOW_HEIGHT / 2 + ROAD_WIDTH / 2) as i32;
    match direction {
        Direction::North => (low_x, high_y),
        Direction::South => (high_x, low_y),
        Direction::East => (low_x, low_y),
        Direction::West => (high_x, high_y),
    }
}

/// Whether `vehicle` is within the safe distance of the edge at which
/// vehicles that travel in `direction` enter.
pub open spec fn near_entry(vehicle: Vehicle, direction: Direction) -> bool {
    match direction {
        Direction::North => vehicle.position.1 > WINDOW_HEIGHT - VEHICLE_SAFE_DISTANCE,
        Direction::South => vehicle.position.1 < VEHICLE_SAFE_DISTANCE,
        Direction::East => vehicle.position.0 < VEHICLE_SAFE_DISTANCE,
        Direction::West => vehicle.position.0 > WINDOW_WIDTH - VEHICLE_SAFE_DISTANCE,
    }
}

impl IntersectionView {
    /// The state of a new intersection: north and south green, east and west
    /// red, no vehicles, the phase clock at zero, no spawn recorded.
    pub open spec fn initial() -> IntersectionView {
        IntersectionView {
            lights: Seq::new(
                4,
                |i: int|
                    {
                        let direction = Direction::spec_from_index(i);
                        TrafficLight {
                            position: light_position(direction),
                            state: if direction.is_vertical() {
                                TrafficLightState::Green
                            } else {
                                TrafficLightState::Red
                            },
                            direction,
                        }
                    },
            ),
            vehicles: Seq::empty(),
            last_phase_change: 0,
            last_spawn: Seq::new(4, |i: int| None),
        }
    }

    /// The signal that the light for `direction` shows.
    pub open spec fn signal(self, direction: Direction) -> TrafficLightState {
        self.lights[direction.spec_index()].state
    }

    /// There are four lights, one per direction, each in its direction's slot.
    pub open spec fn lights_in_order(self) -> bool {
        &&& self.lights.len() == 4
        &&& forall|i: int|
            0 <= i < 4 ==> (#[trigger] self.lights[i]).direction == Direction::spec_from_index(i)
    }

    /// North and south show the same signal, east and west show the same
    /// signal, and the two pairs differ.
    pub open spec fn lights_complementary(self) -> bool {
        &&& self.signal(Direction::North) == self.signal(Direction::South)
        &&& self.signal(Direction::East) == self.signal(Direction::West)
        &&& self.signal(Direction::North) != self.signal(Direction::East)
    }

    /// Every vehicle is inside the playfield margin.
    pub open spec fn vehicles_inside(self) -> bool {
        forall|i: int|
            0 <= i < self.vehicles.len() ==> !(#[trigger] self.vehicles[i]).spec_is_out_of_bounds()
    }

    /// The invariant of an intersection: the lights are in order and
    /// complementary, there is a spawn slot per direction, and every vehicle
    /// is inside the playfield margin.
    pub open spec fn wf(self) -> bool {
        &&& self.lights_in_order()
        &&& self.lights_complementary()
        &&& self.last_spawn.len() == 4
        &&& self.vehicles_inside()
    }

    /// Whether the lights are due to flip at time `now`.
    pub open spec fn phase_due(self, now: u64) -> bool {
        spec_elapsed(self.last_phase_change, now) >= TRAFFIC_LIGHT_CYCLE_TIME
    }

    /// The lights after a flip.
    pub open spec fn flipped_lights(self) -> Seq<TrafficLight> {
        let north_south_green = self.lights[0].state == TrafficLightState::Green;
        Seq::new(self.lights.len(), |i: int| flipped(self.lights[i], north_south_green))
    }

    /// The state after the lights have flipped.
    pub open spec fn after_flip(self) -> IntersectionView {
        IntersectionView { lights: self.flipped_lights(), ..self }
    }

    /// The state after the phase clock has been looked at, at time `now`: the
    /// lights flip and the clock starts anew where a flip is due.
    pub open spec fn after_phase_clock(self, now: u64) -> IntersectionView {
        if self.phase_due(now) {
            IntersectionView { last_phase_change: now, ..self.after_flip() }
        } else {
            self
        }
    }

    /// The vehicles after each has moved by one tick, all of them against the
    /// places before the tick.
    pub open spec fn moved_vehicles(self) -> Seq<Vehicle> {
        Seq::new(
            self.vehicles.len(),
            |i: int| self.vehicles[i].stepped(self.lights, self.vehicles),
        )
    }

    /// The state after one tick at time `now`: the phase clock is looked at,
    /// every vehicle moves, and those that have left the playfield go.
    pub open spec fn after_tick(self, now: u64) -> IntersectionView {
        let timed = self.after_phase_clock(now);
        IntersectionView {
            vehicles: timed.moved_vehicles().filter(|v: Vehicle| !v.spec_is_out_of_bounds()),
            ..timed
        }
    }

    /// Whether the last admission from `direction` is less than the cooldown
    /// before `now`.
    pub open spec fn cooling_down(self, direction: Direction, now: u64) -> bool {
        match self.last_spawn[direction.spec_index()] {
            Some(last) => spec_elapsed(last, now) < SPAWN_COOLDOWN,
            None => false,
        }
    }

    /// Whether a vehicle that travels in `direction` is still near the entry.
    pub open spec fn entry_occupied(self, direction: Direction) -> bool {
        exists|j: int|
            0 <= j < self.vehicles.len() && (#[trigger] self.vehicles[j]).direction == direction
                && near_entry(self.vehicles[j], direction)
    }

    /// Whether a request to spawn from `direction` at time `now` is granted.
    pub open spec fn admits(self, direction: Direction, now: u64) -> bool {
        !self.cooling_down(direction, now) && !self.entry_occupied(direction)
    }

    /// The state with a new vehicle from `direction` on `route`, admitted at
    /// time `now`.
    pub open spec fn with_vehicle(self, direction: Direction, route: Route, now: u64) -> IntersectionView {
        IntersectionView {
            vehicles: self.vehicles.push(Vehicle::spec_new(direction, route)),
            last_spawn: self.last_spawn.update(direction.spec_index(), Some(now)),
            ..self
        }
    }

    /// The state after a request to spawn from `direction` at time `now`,
    /// where `route` is the route the new vehicle would take: a request that
    /// is not granted changes nothing.
    pub open spec fn after_spawn(self, direction: Direction, route: Route, now: u64) -> IntersectionView {
        if self.admits(direction, now) {
            self.with_vehicle(direction, route, now)
        } else {
            self
        }
    }
}

/// What can happen to an intersection.
#[derive(Debug, Clone, Copy)]
pub enum Event {
    /// One tick of the simulation at time `now`.
    Tick { now: u64 },
    /// A request at time `now` for a vehicle from `direction` that would take
    /// `route`.
    Spawn { direction: Direction, route: Route, now: u64 },
}

impl IntersectionView {
    /// The state after `event`.
    pub open spec fn after_event(self, event: Event) -> IntersectionView {
        match event {
            Event::Tick { now } => self.after_tick(now),
            Event::Spawn { direction, route, now } => self.after_spawn(direction, route, now),
        }
    }

    /// The state after all of `events`, in their order.
    pub open spec fn after_events(self, events: Seq<Event>) -> IntersectionView
        decreases events.len(),
    {
        if events.len() == 0 {
            self
        } else {
            self.after_events(events.drop_last()).after_event(events.last())
        }
    }
}

/// One four-way intersection with its lights and vehicles.
///
/// Times are whole milliseconds since the intersection was made.
pub struct Intersection {
    /// The four lights, in the order north, south, east, west.
    pub traffic_lights: Vec<TrafficLight>,
    /// The vehicles on the playfield.
    pub vehicles: Vec<Vehicle>,
    /// When the lights last flipped.
    pub last_traffic_light_change: u64,
    /// When a vehicle was last admitted from each direction, by the
    /// direction's slot; `None` where none has been admitted yet.
    pub last_vehicle_spawn: [Option<u64>; 4],
    /// The instant from which time is counted.
    pub started: Instant,
}

impl View for Intersection {
    type V = IntersectionView;

    open spec fn view(&self) -> IntersectionView {
        IntersectionView {
            lights: self.traffic_lights@,
            vehicles: self.vehicles@,
            last_phase_change: self.last_traffic_light_change,
            last_spawn: self.last_vehicle_spawn@,
        }
    }
}

impl Intersection {
    /// An intersection without vehicles, with north and south green.
    pub fn new() -> (intersection: Intersection)
        ensures
            intersection@ == IntersectionView::initial(),
            intersection@.wf(),
    {
        let low_x: i32 = (WINDOW_WIDTH / 2 - ROAD_WIDTH / 2 - TRAFFIC_LIGHT_SIZE) as i32;
        let high_x: i32 = (WINDOW_WIDTH / 2 + ROAD_WIDTH / 2) as i32;
        let low_y: i32 = (WINDOW_HEIGHT / 2 - ROAD_WIDTH / 2 - TRAFFIC_LIGHT_SIZE) as i32;
        let high_y: i32 = (WINDOW_HEIGHT / 2 + ROAD_WIDTH / 2) as i32;
        let mut traffic_lights: Vec<TrafficLight> = Vec::new();
        traffic_lights.push(TrafficLight::new((low_x, high_y), Direction::North));
        traffic_lights.push(TrafficLight::new((high_x, low_y), Direction::South));
        traffic_lights.push(TrafficLight::new((low_x, low_y), Direction::East));
        traffic_lights.push(TrafficLight::new((high_x, high_y), Direction::West));
        let mut intersection = Intersection {
            traffic_lights,
            vehicles: Vec::new(),
            last_traffic_light_change: 0,
            last_vehicle_spawn: [None, None, None, None],
            started: Instant::now(),
        };
        intersection.update_traffic_lights();
        proof {
            assert(intersection@.lights =~= IntersectionView::initial().lights);
            assert(intersection@.vehicles =~= IntersectionView::initial().vehicles);
            assert(intersection@.last_spawn =~= IntersectionView::initial().last_spawn);
        }
        intersection
    }

    /// Whether the invariant of an intersection holds: four lights in order
    /// and complementary, every vehicle inside the playfield margin. It holds
    /// of a new intersection and after every operation on one of which it
    /// held; the fields are open to change, and this tells whether a change
    /// has kept it.
    pub fn is_well_formed(&self) -> (well_formed: bool)
        ensures
            well_formed == self@.wf(),
    {
        if self.traffic_lights.len() != 4 {
            return false;
        }
        let in_order = self.traffic_lights[0].direction == Direction::North
            && self.traffic_lights[1].direction == Direction::South
            && self.traffic_lights[2].direction == Direction::East
            && self.traffic_lights[3].direction == Direction::West;
        let complementary = self.traffic_lights[0].state == self.traffic_lights[1].state
            && self.traffic_lights[2].state == self.traffic_lights[3].state
            && self.traffic_lights[0].state != self.traffic_lights[2].state;
        if !in_order || !complementary {
            return false;
        }
        let n = self.vehicles.len();
        let mut i: usize = 0;
        while i < n
            invariant
                i <= n,
                n == self.vehicles@.len(),
                forall|k: int|
                    0 <= k < i ==> !(#[trigger] self.vehicles@[k]).spec_is_out_of_bounds(),
            decreases n - i,
        {
            if self.vehicles[i].is_out_of_bounds() {
                assert(self@.vehicles[i as int].spec_is_out_of_bounds());
                return false;
            }
            i += 1;
        }
        true
    }

    /// The milliseconds that have passed since the intersection was made, as
    /// the clock gives them now.
    pub fn now(&self) -> (millis: u64) {
        millis_since(&self.started)
    }

    /// Flips the lights: the pair that was green turns red, the other green.
    /// Which pair was green is read off the first light.
    pub fn update_traffic_lights(&mut self)
        requires
            old(self).traffic_lights@.len() > 0,
        ensures
            final(self)@ == old(self)@.after_flip(),
            final(self).started == old(self).started,
    {
        let north_south_green = self.traffic_lights[0].state == TrafficLightState::Green;
        let n = self.traffic_lights.len();
        let mut i: usize = 0;
        while i < n
            invariant
                i <= n,
                n == self.traffic_lights@.len(),
                n == old(self).traffic_lights@.len(),
                north_south_green == (old(self).traffic_lights@[0].state
                    == TrafficLightState::Green),
                self.vehicles == old(self).vehicles,
                self.last_traffic_light_change == old(self).last_traffic_light_change,
                self.last_vehicle_spawn == old(self).last_vehicle_spawn,
                self.started == old(self).started,
                forall|k: int|
                    0 <= k < i ==> #[trigger] self.traffic_lights@[k] == flipped(
                        old(self).traffic_lights@[k],
                        north_south_green,
                    ),
                forall|k: int|
                    i <= k < n ==> #[trigger] self.traffic_lights@[k] == old(self).traffic_lights@[k],
            decreases n - i,
        {
            match self.traffic_lights[i].direction {
                Direction::North | Direction::South => {
                    self.traffic_lights[i].state = if north_south_green {
                        TrafficLightState::Red
                    } else {
                        TrafficLightState::Green
                    };
                },
                Direction::East | Direction::West => {
                    self.traffic_lights[i].state = if north_south_green {
                        TrafficLightState::Green
                    } else {
                        TrafficLightState::Red
                    };
                },
            }
            i += 1;
        }
        proof {
            assert(self@.lights =~= old(self)@.flipped_lights());
        }
    }

    /// Advances the simulation by one tick, at the time the clock gives.
    pub fn update(&mut self)
        requires
            old(self)@.wf(),
        ensures
            exists|now: u64| final(self)@ == old(self)@.after_tick(now),
            final(self)@.wf(),
            final(self).started == old(self).started,
    {
        let now = self.now();
        self.update_at(now);
    }

    /// Advances the simulation by one tick at time `now`: flips the lights
    /// where a flip is due, moves every vehicle against the places before the
    /// tick, and removes the vehicles that have left the playfield.
    pub fn update_at(&mut self, now: u64)
        requires
            old(self)@.wf(),
        ensures
            final(self)@ == old(self)@.after_tick(now),
            final(self)@.wf(),
            final(self).started == old(self).started,
    {
        if elapsed(self.last_traffic_light_change, now) >= TRAFFIC_LIGHT_CYCLE_TIME {
            self.update_traffic_lights();
            self.last_traffic_light_change = now;
        }
        assert(self@ == old(self)@.after_phase_clock(now));
        assert forall|i: int| 0 <= i < self.vehicles@.len() implies (
        #[trigger] self.vehicles@[i]).can_advance() by {
            assert(!old(self)@.vehicles[i].spec_is_out_of_bounds());
        }
        self.move_vehicles();
        self.remove_out_of_bounds();
    }

    /// Moves every vehicle by one tick, each against the lights and against
    /// the places of all vehicles before any of them moved.
    pub fn move_vehicles(&mut self)
        requires
            forall|i: int|
                0 <= i < old(self).vehicles@.len() ==> (#[trigger] old(self).vehicles@[i]).can_advance(),
        ensures
            final(self)@ == (IntersectionView { vehicles: old(self)@.moved_vehicles(), ..old(self)@ }),
            final(self).started == old(self).started,
    {
        let snapshot = self.vehicles.clone();
        let n = self.vehicles.len();
        let mut i: usize = 0;
        while i < n
            invariant
                i <= n,
                n == self.vehicles@.len(),
                snapshot@ == old(self).vehicles@,
                self.started == old(self).started,
                self.traffic_lights == old(self).traffic_lights,
                self.last_traffic_light_change == old(self).last_traffic_light_change,
                self.last_vehicle_spawn == old(self).last_vehicle_spawn,
                forall|k: int|
                    0 <= k < i ==> #[trigger] self.vehicles@[k] == snapshot@[k].stepped(
                        self.traffic_lights@,
                        snapshot@,
                    ),
                forall|k: int| i <= k < n ==> #[trigger] self.vehicles@[k] == snapshot@[k],
                forall|k: int| 0 <= k < n ==> (#[trigger] snapshot@[k]).can_advance(),
            decreases n - i,
        {
            self.vehicles[i].update(self.traffic_lights.as_slice(), snapshot.as_slice());
            i += 1;
        }
        proof {
            assert(self@.vehicles =~= old(self)@.moved_vehicles());
        }
    }

    /// Removes the vehicles that have left the playfield, keeping the others
    /// in their order.
    pub fn remove_out_of_bounds(&mut self)
        ensures
            final(self)@ == (IntersectionView {
                vehicles: old(self)@.vehicles.filter(|v: Vehicle| !v.spec_is_out_of_bounds()),
                ..old(self)@
            }),
            final(self)@.vehicles_inside(),
            final(self).started == old(self).started,
    {
        let ghost inside = |v: Vehicle| !v.spec_is_out_of_bounds();
        let n = self.vehicles.len();
        let mut kept: Vec<Vehicle> = Vec::new();
        let mut i: usize = 0;
        while i < n
            invariant
                i <= n,
                n == self.vehicles@.len(),
                inside == (|v: Vehicle| !v.spec_is_out_of_bounds()),
                kept@ == self.vehicles@.take(i as int).filter(inside),
                forall|k: int| 0 <= k < kept@.len() ==> !(#[trigger] kept@[k]).spec_is_out_of_bounds(),
            decreases n - i,
        {
            let vehicle = self.vehicles[i];
            proof {
                assert(self.vehicles@.take(i + 1) =~= self.vehicles@.take(i as int).push(vehicle));
                self.vehicles@.take(i as int).lemma_filter_push(vehicle, inside);
            }
            if !vehicle.is_out_of_bounds() {
                kept.push(vehicle);
            }
            i += 1;
        }
        proof {
            assert(self.vehicles@.take(n as int) =~= self.vehicles@);
        }
        self.vehicles = kept;
    }

    /// Whether a request to spawn from `direction` at time `now` is granted:
    /// the cooldown of the direction has run out and no vehicle that travels
    /// in it is near the entry.
    pub fn can_spawn(&self, direction: Direction, now: u64) -> (granted: bool)
        ensures
            granted == self@.admits(direction, now),
    {
        let dir_index = direction.index();
        match self.last_vehicle_spawn[dir_index] {
            Some(last) => {
                if elapsed(last, now) < SPAWN_COOLDOWN {
                    return false;
                }
            },
            None => {},
        }
        let n = self.vehicles.len();
        let mut j: usize = 0;
        while j < n
            invariant
                j <= n,
                n == self.vehicles@.len(),
                !self@.cooling_down(direction, now),
                forall|k: int|
                    0 <= k < j ==> !((#[trigger] self.vehicles@[k]).direction == direction
                        && near_entry(self.vehicles@[k], direction)),
            decreases n - j,
        {
            let vehicle = &self.vehicles[j];
            if vehicle.direction == direction {
                let too_close = match direction {
                    Direction::North => vehicle.position.1 > WINDOW_HEIGHT as i32
                        - VEHICLE_SAFE_DISTANCE,
                    Direction::South => vehicle.position.1 < VEHICLE_SAFE_DISTANCE,
                    Direction::East => vehicle.position.0 < VEHICLE_SAFE_DISTANCE,
                    Direction::West => vehicle.position.0 > WINDOW_WIDTH as i32
                        - VEHICLE_SAFE_DISTANCE,
                };
                if too_close {
                    return false;
                }
            }
            j += 1;
        }
        true
    }

    /// Asks for a new vehicle from `direction`, at the time the clock gives.
    /// A request that is granted puts a vehicle with a route drawn at random
    /// at the entry; one that is not changes nothing.
    pub fn spawn_vehicle(&mut self, direction: Direction)
        requires
            old(self)@.wf(),
        ensures
            exists|route: Route, now: u64|
                final(self)@ == old(self)@.after_spawn(direction, route, now),
            final(self)@.wf(),
            final(self).started == old(self).started,
    {
        let now = self.now();
        if self.can_spawn(direction, now) {
            let route = random_route();
            self.place_vehicle(direction, route, now);
            assert(self@ == old(self)@.after_spawn(direction, route, now));
        } else {
            assert(self@ == old(self)@.after_spawn(direction, Route::Straight, now));
        }
    }

    /// Asks at time `now` for a new vehicle from `direction` that will take
    /// `route`. A request that is granted puts the vehicle at the entry and
    /// records the time; one that is not changes nothing.
    pub fn spawn_vehicle_at(&mut self, direction: Direction, route: Route, now: u64)
        requires
            old(self)@.wf(),
        ensures
            final(self)@ == old(self)@.after_spawn(direction, route, now),
            final(self)@.wf(),
            final(self).started == old(self).started,
    {
        if self.can_spawn(direction, now) {
            self.place_vehicle(direction, route, now);
        }
    }

    /// Puts a new vehicle from `direction` on `route` at the entry and records
    /// `now` as the time of the direction's last admission.
    fn place_vehicle(&mut self, direction: Direction, route: Route, now: u64)
        requires
            old(self)@.wf(),
        ensures
            final(self)@ == old(self)@.with_vehicle(direction, route, now),
            final(self)@.wf(),
            final(self).started == old(self).started,
    {
        let dir_index = direction.index();
        self.vehicles.push(Vehicle::new(direction, route));
        self.last_vehicle_spawn[dir_index] = Some(now);
        proof {
            assert(self@.last_spawn =~= old(self)@.last_spawn.update(
                direction.spec_index(),
                Some(now),
            ));
            assert forall|i: int| 0 <= i < self.vehicles@.len() implies !(
            #[trigger] self.vehicles@[i]).spec_is_out_of_bounds() by {
                if i < old(self).vehicles@.len() {
                    assert(self.vehicles@[i] == old(self).vehicles@[i]);
                    assert(!old(self)@.vehicles[i].spec_is_out_of_bounds());
                } else {
                    assert(self.vehicles@[i] == Vehicle::spec_new(direction, route));
                }
            }
        }
    }
}

} // verus!
