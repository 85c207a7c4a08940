//! What holds of every vehicle and of every state of the intersection.
//!
//! Each proof function here states one property over the same spec functions
//! that the contracts of the operations use.

use vstd::prelude::*;
use crate::constants::{SPAWN_COOLDOWN, VEHICLE_SAFE_DISTANCE, VEHICLE_SPEED};
use crate::models::direction::Direction;
use crate::models::route::Route;
use crate::models::traffic_light::{
    is_first_light_for, lemma_first_light_unique, shows_red, TrafficLight, TrafficLightState,
};
use crate::models::vehicle::Vehicle;
use crate::simulation::clock::spec_elapsed;
use crate::simulation::intersection::{opposite, Event, IntersectionView};

verus! {

/// With the four lights in order, the light that decides for a direction is
/// the one in the direction's slot.
pub proof fn lemma_red_is_read_off_the_slot(state: IntersectionView, direction: Direction)
    requires
        state.lights_in_order(),
    ensures
        shows_red(state.lights, direction) <==> state.signal(direction) == TrafficLightState::Red,
{
    let slot = direction.spec_index();
    assert forall|j: int| 0 <= j < slot implies (#[trigger] state.lights[j]).direction
        != direction by {}
    assert(is_first_light_for(state.lights, direction, slot));
    if shows_red(state.lights, direction) {
        let i = choose|i: int|
            #[trigger] is_first_light_for(state.lights, direction, i) && state.lights[i].state
                == TrafficLightState::Red;
        lemma_first_light_unique(state.lights, direction, i, slot);
    }
}

/// A flip of lights that are in order leaves them complementary, whatever
/// they showed before.
pub proof fn lemma_flip_makes_complementary(state: IntersectionView)
    requires
        state.lights_in_order(),
    ensures
        state.after_flip().lights_in_order(),
        state.after_flip().lights_complementary(),
{
    let flipped = state.after_flip();
    assert(flipped.lights[0].direction == Direction::North);
    assert(flipped.lights[1].direction == Direction::South);
    assert(flipped.lights[2].direction == Direction::East);
    assert(flipped.lights[3].direction == Direction::West);
}

/// A flip of complementary lights turns every light to the opposite signal:
/// the two pairs swap.
pub proof fn lemma_flip_toggles_every_light(state: IntersectionView, direction: Direction)
    requires
        state.lights_in_order(),
        state.lights_complementary(),
    ensures
        state.after_flip().signal(direction) == opposite(state.signal(direction)),
{
    assert(state.lights[0].direction == Direction::North);
    assert(state.lights[1].direction == Direction::South);
    assert(state.lights[2].direction == Direction::East);
    assert(state.lights[3].direction == Direction::West);
}

/// A new intersection is well formed; in particular its lights are
/// complementary.
pub proof fn lemma_initial_is_well_formed()
    ensures
        IntersectionView::initial().wf(),
{
}

/// A tick keeps the intersection well formed: the lights stay complementary
/// whether they flip or not, and every vehicle that remains is inside the
/// playfield margin.
pub proof fn lemma_tick_keeps_well_formed(state: IntersectionView, now: u64)
    requires
        state.wf(),
    ensures
        state.after_tick(now).wf(),
{
    lemma_flip_makes_complementary(state);
    let timed = state.after_phase_clock(now);
    let inside = |v: Vehicle| !v.spec_is_out_of_bounds();
    let moved = timed.moved_vehicles();
    assert forall|i: int| 0 <= i < moved.filter(inside).len() implies !(#[trigger] moved.filter(
        inside,
    )[i]).spec_is_out_of_bounds() by {
        moved.lemma_filter_pred(inside, i);
    }
}

/// A request to spawn keeps the intersection well formed, granted or not.
pub proof fn lemma_spawn_keeps_well_formed(
    state: IntersectionView,
    direction: Direction,
    route: Route,
    now: u64,
)
    requires
        state.wf(),
    ensures
        state.after_spawn(direction, route, now).wf(),
        state.after_spawn(direction, route, now).lights == state.lights,
{
    let next = state.after_spawn(direction, route, now);
    if state.admits(direction, now) {
        assert forall|i: int| 0 <= i < next.vehicles.len() implies !(
        #[trigger] next.vehicles[i]).spec_is_out_of_bounds() by {
            if i < state.vehicles.len() {
                assert(next.vehicles[i] == state.vehicles[i]);
                assert(!state.vehicles[i].spec_is_out_of_bounds());
            } else {
                assert(next.vehicles[i] == Vehicle::spec_new(direction, route));
            }
        }
    }
}

/// A vehicle that a red light holds does not move in the tick: nothing of it
/// changes, whatever the other vehicles do.
pub proof fn lemma_red_light_holds_vehicle(
    vehicle: Vehicle,
    lights: Seq<TrafficLight>,
    vehicles: Seq<Vehicle>,
)
    requires
        vehicle.stops_at_light(lights),
    ensures
        vehicle.stepped(lights, vehicles) == vehicle,
{
}

/// In a tick of the intersection, a vehicle that has not crossed yet, whose
/// light is red once the phase clock has been looked at, and that is short of
/// the centre by less than the safe distance, stands where it stood.
pub proof fn lemma_tick_holds_vehicles_at_red(state: IntersectionView, now: u64, i: int)
    requires
        state.lights_in_order(),
        0 <= i < state.vehicles.len(),
        !state.vehicles[i].has_passed_intersection,
        state.after_phase_clock(now).signal(state.vehicles[i].direction)
            == TrafficLightState::Red,
        0 < state.vehicles[i].distance_to_center() < VEHICLE_SAFE_DISTANCE,
    ensures
        state.after_phase_clock(now).moved_vehicles()[i] == state.vehicles[i],
        !state.vehicles[i].spec_is_out_of_bounds() ==> state.after_tick(now).vehicles.contains(
            state.vehicles[i],
        ),
{
    let timed = state.after_phase_clock(now);
    lemma_flip_makes_complementary(state);
    lemma_red_is_read_off_the_slot(timed, state.vehicles[i].direction);
    let moved = timed.moved_vehicles();
    let inside = |v: Vehicle| !v.spec_is_out_of_bounds();
    if !state.vehicles[i].spec_is_out_of_bounds() {
        moved.lemma_filter_contains(inside, i);
    }
}

/// No vehicle is ahead of itself, so a vehicle's own place among the places
/// it is shown never holds it back.
pub proof fn lemma_never_blocked_by_itself(vehicle: Vehicle, other: Vehicle)
    requires
        other.position == vehicle.position,
    ensures
        !vehicle.blocked_by(other),
{
}

/// A vehicle stops for no one but the others: leaving its own place out of
/// the places it is shown does not change whether it stops.
pub proof fn lemma_own_place_does_not_count(vehicle: Vehicle, vehicles: Seq<Vehicle>, own: int)
    requires
        0 <= own < vehicles.len(),
        vehicles[own].position == vehicle.position,
    ensures
        vehicle.stops_for_vehicle(vehicles) <==> exists|j: int|
            0 <= j < vehicles.len() && j != own && vehicle.blocked_by(#[trigger] vehicles[j]),
{
    if vehicle.stops_for_vehicle(vehicles) {
        let j = choose|j: int| 0 <= j < vehicles.len() && vehicle.blocked_by(#[trigger] vehicles[j]);
        assert(j != own);
    }
}

/// A vehicle that follows another in its lane, closer than the safe distance,
/// does not move in the tick.
pub proof fn lemma_follower_waits(
    follower: Vehicle,
    lights: Seq<TrafficLight>,
    vehicles: Seq<Vehicle>,
    leader: int,
)
    requires
        0 <= leader < vehicles.len(),
        follower.same_lane(vehicles[leader]),
        0 < follower.gap_to(vehicles[leader]) < VEHICLE_SAFE_DISTANCE,
    ensures
        follower.stepped(lights, vehicles) == follower,
{
    assert(follower.blocked_by(vehicles[leader]));
}

/// A vehicle that follows another in its lane does not close in on it from
/// beyond the safe distance to nearer than one step short of it. With
/// `leader_next` the leader after the tick, which has stood still or gone on
/// along the lane, and the follower still in the lane after the tick: the gap
/// shrinks by one step at most, not at all once it is below the safe distance,
/// and so never falls below the smaller of what it was and the safe distance
/// less one step.
pub proof fn lemma_follower_keeps_distance(
    follower: Vehicle,
    lights: Seq<TrafficLight>,
    vehicles: Seq<Vehicle>,
    leader: int,
    leader_next: Vehicle,
)
    requires
        0 <= leader < vehicles.len(),
        follower.can_advance(),
        follower.same_lane(vehicles[leader]),
        follower.gap_to(vehicles[leader]) > 0,
        leader_next.direction == vehicles[leader].direction,
        vehicles[leader].gap_to(leader_next) >= 0,
        vehicles[leader].lateral_offset(leader_next) == 0,
        follower.stepped(lights, vehicles).direction == follower.direction,
    ensures
        ({
            let before = follower.gap_to(vehicles[leader]);
            let next = follower.stepped(lights, vehicles);
            let after = next.gap_to(leader_next);
            &&& next.same_lane(leader_next)
            &&& after >= before - VEHICLE_SPEED
            &&& before < VEHICLE_SAFE_DISTANCE ==> after >= before
            &&& before >= VEHICLE_SAFE_DISTANCE + VEHICLE_SPEED ==> after >= VEHICLE_SAFE_DISTANCE
            &&& after >= vstd::math::min(before, VEHICLE_SAFE_DISTANCE - VEHICLE_SPEED)
        }),
{
    if follower.gap_to(vehicles[leader]) < VEHICLE_SAFE_DISTANCE {
        lemma_follower_waits(follower, lights, vehicles, leader);
    }
}

/// In a tick of the intersection, of two vehicles in one lane that both stay
/// in it, the one behind does not close in on the one ahead: the gap between
/// them after the tick is at least the smaller of what it was and the safe
/// distance less one step.
pub proof fn lemma_tick_keeps_following_distance(
    state: IntersectionView,
    now: u64,
    follower: int,
    leader: int,
)
    requires
        state.wf(),
        0 <= follower < state.vehicles.len(),
        0 <= leader < state.vehicles.len(),
        state.vehicles[follower].same_lane(state.vehicles[leader]),
        state.vehicles[follower].gap_to(state.vehicles[leader]) > 0,
        state.after_phase_clock(now).moved_vehicles()[follower].direction
            == state.vehicles[follower].direction,
        state.after_phase_clock(now).moved_vehicles()[leader].direction
            == state.vehicles[leader].direction,
    ensures
        ({
            let moved = state.after_phase_clock(now).moved_vehicles();
            let before = state.vehicles[follower].gap_to(state.vehicles[leader]);
            &&& moved[follower].same_lane(moved[leader])
            &&& moved[follower].gap_to(moved[leader]) >= vstd::math::min(
                before,
                VEHICLE_SAFE_DISTANCE - VEHICLE_SPEED,
            )
            &&& before < VEHICLE_SAFE_DISTANCE ==> moved[follower] == state.vehicles[follower]
        }),
{
    let timed = state.after_phase_clock(now);
    let moved = timed.moved_vehicles();
    assert(timed.vehicles == state.vehicles);
    state.vehicles[follower].lemma_inside_is_in_range();
    state.vehicles[leader].lemma_inside_is_in_range();
    lemma_follower_keeps_distance(
        state.vehicles[follower],
        timed.lights,
        timed.vehicles,
        leader,
        moved[leader],
    );
}

/// A vehicle that has crossed stays crossed and keeps its direction: the turn
/// is taken once and never again.
pub proof fn lemma_crossed_stays_crossed(
    vehicle: Vehicle,
    lights: Seq<TrafficLight>,
    vehicles: Seq<Vehicle>,
)
    requires
        vehicle.has_passed_intersection,
    ensures
        vehicle.stepped(lights, vehicles).has_passed_intersection,
        vehicle.stepped(lights, vehicles).direction == vehicle.direction,
{
}

/// A vehicle changes direction only in the tick in which it crosses, and then
/// to where its route leads; its route never changes.
pub proof fn lemma_turn_only_when_crossing(
    vehicle: Vehicle,
    lights: Seq<TrafficLight>,
    vehicles: Seq<Vehicle>,
)
    ensures
        ({
            let next = vehicle.stepped(lights, vehicles);
            &&& next.route == vehicle.route
            &&& vehicle.has_passed_intersection ==> next.has_passed_intersection
            &&& next.direction != vehicle.direction ==> !vehicle.has_passed_intersection
                && next.has_passed_intersection
            &&& next.direction == vehicle.direction || next.direction == vehicle.direction.after(
                vehicle.route,
            )
        }),
{
}

/// A vehicle that goes straight keeps its direction in every tick, the one
/// in which it crosses included.
pub proof fn lemma_straight_keeps_direction(
    vehicle: Vehicle,
    lights: Seq<TrafficLight>,
    vehicles: Seq<Vehicle>,
)
    requires
        vehicle.route == Route::Straight,
    ensures
        vehicle.stepped(lights, vehicles).direction == vehicle.direction,
{
}

/// Taking the turn twice is the same as taking it once for a vehicle that
/// goes straight; for the others the second turn would lead elsewhere, which
/// is why the crossing flag guards it.
pub proof fn lemma_straight_turn_is_no_turn(vehicle: Vehicle)
    requires
        vehicle.route == Route::Straight,
    ensures
        vehicle.turned() == vehicle,
        vehicle.turned().turned() == vehicle.turned(),
{
}

/// Whether a request is granted depends on two things only: whether the
/// direction is cooling down, and whether a vehicle of the direction is near
/// the entry. Lights, routes, the phase clock and all other vehicles have no
/// say.
pub proof fn lemma_admission_depends_on_cooldown_and_entry(
    first: IntersectionView,
    first_now: u64,
    second: IntersectionView,
    second_now: u64,
    direction: Direction,
)
    requires
        first.cooling_down(direction, first_now) == second.cooling_down(direction, second_now),
        first.entry_occupied(direction) == second.entry_occupied(direction),
    ensures
        first.admits(direction, first_now) == second.admits(direction, second_now),
{
}

/// Whether a direction is cooling down depends only on the time that has
/// passed since its last admission.
pub proof fn lemma_cooldown_depends_on_elapsed_time(
    first: IntersectionView,
    first_now: u64,
    second: IntersectionView,
    second_now: u64,
    direction: Direction,
)
    requires
        first.last_spawn[direction.spec_index()] is Some,
        second.last_spawn[direction.spec_index()] is Some,
        spec_elapsed(first.last_spawn[direction.spec_index()]->0, first_now) == spec_elapsed(
            second.last_spawn[direction.spec_index()]->0,
            second_now,
        ),
    ensures
        first.cooling_down(direction, first_now) == second.cooling_down(direction, second_now),
{
}

/// Of two requests for one direction within the cooldown, the first of them
/// granted, exactly one puts a vehicle on the playfield: the second is
/// refused and changes nothing.
pub proof fn lemma_second_request_in_cooldown_is_refused(
    state: IntersectionView,
    direction: Direction,
    first_route: Route,
    first_now: u64,
    second_route: Route,
    second_now: u64,
)
    requires
        state.last_spawn.len() == 4,
        state.admits(direction, first_now),
        spec_elapsed(first_now, second_now) < SPAWN_COOLDOWN,
    ensures
        ({
            let once = state.after_spawn(direction, first_route, first_now);
            let twice = once.after_spawn(direction, second_route, second_now);
            &&& !once.admits(direction, second_now)
            &&& twice == once
            &&& twice.vehicles == state.vehicles.push(Vehicle::spec_new(direction, first_route))
            &&& twice.vehicles.len() == state.vehicles.len() + 1
        }),
{
}

/// Two requests for one direction within the cooldown put one vehicle on the
/// playfield at most, whether the first is granted or not.
pub proof fn lemma_two_requests_in_cooldown_add_one_at_most(
    state: IntersectionView,
    direction: Direction,
    first_route: Route,
    first_now: u64,
    second_route: Route,
    second_now: u64,
)
    requires
        state.last_spawn.len() == 4,
        spec_elapsed(first_now, second_now) < SPAWN_COOLDOWN,
    ensures
        state.after_spawn(direction, first_route, first_now).after_spawn(
            direction,
            second_route,
            second_now,
        ).vehicles.len() <= state.vehicles.len() + 1,
{
    if state.admits(direction, first_now) {
        lemma_second_request_in_cooldown_is_refused(
            state,
            direction,
            first_route,
            first_now,
            second_route,
            second_now,
        );
    }
}

/// A tick leaves the times of the last admissions as they are, so a cooldown
/// runs on through any number of ticks.
pub proof fn lemma_tick_keeps_cooldown(
    state: IntersectionView,
    tick_now: u64,
    direction: Direction,
    now: u64,
)
    ensures
        state.after_tick(tick_now).last_spawn == state.last_spawn,
        state.after_tick(tick_now).cooling_down(direction, now) == state.cooling_down(
            direction,
            now,
        ),
        state.cooling_down(direction, now) ==> !state.after_tick(tick_now).admits(direction, now),
{
}

/// Whatever happens to a well-formed intersection, in whatever order and at
/// whatever times, it stays well formed: at every moment north and south show
/// one signal, east and west show one signal, and the two pairs differ.
pub proof fn lemma_always_well_formed(state: IntersectionView, events: Seq<Event>)
    requires
        state.wf(),
    ensures
        state.after_events(events).wf(),
        state.after_events(events).lights_complementary(),
    decreases events.len(),
{
    if events.len() > 0 {
        lemma_always_well_formed(state, events.drop_last());
        let before = state.after_events(events.drop_last());
        match events.last() {
            Event::Tick { now } => {
                lemma_tick_keeps_well_formed(before, now);
            },
            Event::Spawn { direction, route, now } => {
                lemma_spawn_keeps_well_formed(before, direction, route, now);
            },
        }
    }
}

/// From its making on, the lights of an intersection are complementary after
/// every run of events.
pub proof fn lemma_lights_always_complementary(events: Seq<Event>)
    ensures
        IntersectionView::initial().after_events(events).lights_complementary(),
{
    lemma_initial_is_well_formed();
    lemma_always_well_formed(IntersectionView::initial(), events);
}

/// Once a request for a direction has been granted, every request for that
/// direction within the cooldown is refused, however many ticks have run in
/// between.
pub proof fn lemma_request_in_cooldown_is_refused_after_ticks(
    state: IntersectionView,
    direction: Direction,
    first_route: Route,
    first_now: u64,
    ticks: Seq<Event>,
    second_route: Route,
    second_now: u64,
)
    requires
        state.last_spawn.len() == 4,
        state.admits(direction, first_now),
        forall|i: int| 0 <= i < ticks.len() ==> #[trigger] ticks[i] is Tick,
        spec_elapsed(first_now, second_now) < SPAWN_COOLDOWN,
    ensures
        ({
            let once = state.after_spawn(direction, first_route, first_now);
            let later = once.after_events(ticks);
            &&& later.last_spawn == once.last_spawn
            &&& !later.admits(direction, second_now)
            &&& later.after_spawn(direction, second_route, second_now) == later
        }),
    decreases ticks.len(),
{
    if ticks.len() > 0 {
        lemma_request_in_cooldown_is_refused_after_ticks(
            state,
            direction,
            first_route,
            first_now,
            ticks.drop_last(),
            second_route,
            second_now,
        );
        assert(ticks.last() is Tick);
    }
}

/// Over any run of ticks a vehicle turns once at most. Until it has crossed
/// it keeps the direction it set out with; from the tick in which it has
/// crossed it keeps the direction it then has; and its route never changes.
pub proof fn lemma_turn_fires_at_most_once(
    vehicle: Vehicle,
    ticks: Seq<(Seq<TrafficLight>, Seq<Vehicle>)>,
    i: int,
    j: int,
)
    requires
        0 <= i <= j <= ticks.len(),
    ensures
        ({
            let earlier = vehicle.after_ticks(ticks.take(i));
            let later = vehicle.after_ticks(ticks.take(j));
            &&& later.route == vehicle.route
            &&& !later.has_passed_intersection ==> later.direction == vehicle.direction
            &&& earlier.has_passed_intersection ==> later.has_passed_intersection
                && later.direction == earlier.direction
            &&& later.direction == vehicle.direction || later.direction == vehicle.direction.after(
                vehicle.route,
            )
        }),
    decreases j,
{
    if j > 0 {
        assert(ticks.take(j).drop_last() =~= ticks.take(j - 1));
        let before = vehicle.after_ticks(ticks.take(j - 1));
        lemma_turn_only_when_crossing(before, ticks.take(j).last().0, ticks.take(j).last().1);
        if i < j {
            lemma_turn_fires_at_most_once(vehicle, ticks, i, j - 1);
        } else {
            lemma_turn_fires_at_most_once(vehicle, ticks, j - 1, j - 1);
        }
    }
}

/// Over any run of ticks in which a vehicle stays in its lane behind a leader
/// that stands still or goes on along the lane, the gap between them never
/// falls below the smaller of what it was at first and the safe distance less
/// one step.
///
/// `leaders[t]` is the leader before tick `t`, which the follower is shown at
/// `places[t]` in that tick; the last of `leaders` is the leader after the
/// run.
pub proof fn lemma_follower_never_closes_in(
    follower: Vehicle,
    ticks: Seq<(Seq<TrafficLight>, Seq<Vehicle>)>,
    leaders: Seq<Vehicle>,
    places: Seq<int>,
)
    requires
        leaders.len() == ticks.len() + 1,
        places.len() == ticks.len(),
        follower.same_lane(leaders[0]),
        follower.gap_to(leaders[0]) > 0,
        forall|t: int|
            0 <= t < ticks.len() ==> 0 <= #[trigger] places[t] < ticks[t].1.len()
                && ticks[t].1[places[t]] == leaders[t],
        forall|t: int|
            0 <= t < ticks.len() ==> (#[trigger] leaders[t + 1]).direction == leaders[t].direction
                && leaders[t].gap_to(leaders[t + 1]) >= 0 && leaders[t].lateral_offset(
                leaders[t + 1],
            ) == 0,
        forall|t: int|
            0 <= t < ticks.len() ==> (#[trigger] follower.after_ticks(ticks.take(t))).can_advance(),
        forall|t: int|
            0 <= t <= ticks.len() ==> (#[trigger] follower.after_ticks(ticks.take(t))).direction
                == follower.direction,
    ensures
        follower.after_ticks(ticks).same_lane(leaders.last()),
        follower.after_ticks(ticks).gap_to(leaders.last()) >= vstd::math::min(
            follower.gap_to(leaders[0]),
            VEHICLE_SAFE_DISTANCE - VEHICLE_SPEED,
        ),
        follower.after_ticks(ticks).gap_to(leaders.last()) > 0,
    decreases ticks.len(),
{
    let n = ticks.len() as int;
    if n > 0 {
        let shorter = ticks.drop_last();
        assert forall|t: int| 0 <= t <= shorter.len() implies #[trigger] shorter.take(t)
            == ticks.take(t) by {
            assert(shorter.take(t) =~= ticks.take(t));
        }
        assert(ticks.take(n) =~= ticks);
        assert(shorter =~= ticks.take(n - 1));
        assert forall|t: int| 0 <= t < shorter.len() implies (#[trigger] follower.after_ticks(
            shorter.take(t),
        )).can_advance() by {
            assert(follower.after_ticks(ticks.take(t)).can_advance());
        }
        assert forall|t: int| 0 <= t <= shorter.len() implies (#[trigger] follower.after_ticks(
            shorter.take(t),
        )).direction == follower.direction by {
            assert(follower.after_ticks(ticks.take(t)).direction == follower.direction);
        }
        assert forall|t: int| 0 <= t < shorter.len() implies 0 <= #[trigger] places.drop_last()[t]
            < shorter[t].1.len() && shorter[t].1[places.drop_last()[t]]
            == leaders.drop_last()[t] by {
            assert(places.drop_last()[t] == places[t]);
        }
        assert forall|t: int| 0 <= t < shorter.len() implies (#[trigger] leaders.drop_last()[t
            + 1]).direction == leaders.drop_last()[t].direction && leaders.drop_last()[t].gap_to(
            leaders.drop_last()[t + 1],
        ) >= 0 && leaders.drop_last()[t].lateral_offset(leaders.drop_last()[t + 1]) == 0 by {
            assert(leaders.drop_last()[t + 1] == leaders[t + 1]);
        }
        lemma_follower_never_closes_in(follower, shorter, leaders.drop_last(), places.drop_last());
        let before = follower.after_ticks(shorter);
        assert(before == follower.after_ticks(ticks.take(n - 1)));
        assert(before.can_advance());
        assert(before.direction == follower.direction);
        assert(follower.after_ticks(ticks.take(n)).direction == follower.direction);
        assert(leaders.drop_last().last() == leaders[n - 1]);
        assert(places[n - 1] == places[n - 1] && ticks[n - 1].1[places[n - 1]] == leaders[n - 1]);
        assert(leaders[n - 1 + 1].direction == leaders[n - 1].direction);
        lemma_follower_keeps_distance(
            before,
            ticks.last().0,
            ticks.last().1,
            places[n - 1],
            leaders[n],
        );
    }
}

} // verus!
