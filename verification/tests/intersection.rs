use road_intersection::models::direction::Direction;
use road_intersection::models::route::Route;
use road_intersection::models::shape::Shape;
use road_intersection::models::traffic_light::TrafficLightState;
use road_intersection::models::vehicle::Vehicle;
use road_intersection::simulation::chance::{random_direction, random_route};
use road_intersection::simulation::clock::{elapsed, millis_since};
use road_intersection::simulation::intersection::Intersection;

fn vehicle_at(x: i32, y: i32, direction: Direction, route: Route) -> Vehicle {
    let mut vehicle = Vehicle::new(direction, route);
    vehicle.position = (x, y);
    vehicle
}

fn signals(intersection: &Intersection) -> Vec<TrafficLightState> {
    intersection.traffic_lights.iter().map(|light| light.state).collect()
}

fn lights_are_complementary(intersection: &Intersection) -> bool {
    let lights = &intersection.traffic_lights;
    lights.len() == 4 && lights[0].state == lights[1].state && lights[2].state == lights[3].state
        && lights[0].state != lights[2].state
}

#[test]
fn new_intersection_has_north_south_green() {
    let intersection = Intersection::new();
    assert_eq!(
        signals(&intersection),
        vec![
            TrafficLightState::Green,
            TrafficLightState::Green,
            TrafficLightState::Red,
            TrafficLightState::Red
        ]
    );
    assert!(intersection.vehicles.is_empty());
    assert_eq!(intersection.last_traffic_light_change, 0);
    assert_eq!(intersection.last_vehicle_spawn, [None, None, None, None]);
    assert!(intersection.is_well_formed());
}

#[test]
fn new_intersection_has_one_light_per_direction_at_its_corner() {
    let intersection = Intersection::new();
    let placed: Vec<(Direction, (i32, i32))> =
        intersection.traffic_lights.iter().map(|light| (light.direction, light.position)).collect();
    assert_eq!(
        placed,
        vec![
            (Direction::North, (330, 450)),
            (Direction::South, (450, 330)),
            (Direction::East, (330, 330)),
            (Direction::West, (450, 450)),
        ]
    );
}

#[test]
fn first_spawn_from_north_is_granted() {
    let mut intersection = Intersection::new();
    intersection.spawn_vehicle_at(Direction::North, Route::Straight, 0);
    assert_eq!(intersection.vehicles.len(), 1);
    assert_eq!(intersection.vehicles[0].position, (375, 800));
    assert_eq!(intersection.vehicles[0].direction, Direction::North);
    assert_eq!(intersection.vehicles[0].route, Route::Straight);
    assert!(!intersection.vehicles[0].has_passed_intersection);
    assert_eq!(intersection.last_vehicle_spawn, [Some(0), None, None, None]);
}

#[test]
fn second_spawn_within_cooldown_is_refused() {
    let mut intersection = Intersection::new();
    intersection.spawn_vehicle_at(Direction::North, Route::Straight, 0);
    intersection.spawn_vehicle_at(Direction::North, Route::Left, 10);
    assert_eq!(intersection.vehicles.len(), 1);
    assert_eq!(intersection.vehicles[0].route, Route::Straight);
    assert_eq!(intersection.last_vehicle_spawn, [Some(0), None, None, None]);
}

#[test]
fn spawn_after_cooldown_and_clear_entry_is_granted() {
    let mut intersection = Intersection::new();
    intersection.spawn_vehicle_at(Direction::North, Route::Straight, 0);
    intersection.spawn_vehicle_at(Direction::North, Route::Straight, 10);
    assert_eq!(intersection.vehicles.len(), 1);
    let mut now = 0;
    for _ in 0..21 {
        now += 16;
        intersection.update_at(now);
    }
    assert_eq!(intersection.vehicles[0].position, (375, 758));
    intersection.spawn_vehicle_at(Direction::North, Route::Right, 1001);
    assert_eq!(intersection.vehicles.len(), 2);
    assert_eq!(intersection.vehicles[1].position, (375, 800));
    assert_eq!(intersection.vehicles[1].direction, Direction::North);
    assert_eq!(intersection.vehicles[1].route, Route::Right);
    assert_eq!(intersection.last_vehicle_spawn[0], Some(1001));
}

#[test]
fn lights_flip_once_after_one_cycle() {
    let mut intersection = Intersection::new();
    let before = signals(&intersection);
    intersection.update_at(5000);
    let after = signals(&intersection);
    for (old, new) in before.iter().zip(after.iter()) {
        assert_ne!(old, new);
    }
    assert_eq!(
        after,
        vec![
            TrafficLightState::Red,
            TrafficLightState::Red,
            TrafficLightState::Green,
            TrafficLightState::Green
        ]
    );
    assert_eq!(intersection.last_traffic_light_change, 5000);
    intersection.update_at(5000);
    assert_eq!(signals(&intersection), after);
}

#[test]
fn lights_do_not_flip_before_the_cycle_is_over() {
    let mut intersection = Intersection::new();
    let before = signals(&intersection);
    intersection.update_at(4999);
    assert_eq!(signals(&intersection), before);
    assert_eq!(intersection.last_traffic_light_change, 0);
}

#[test]
fn cycle_is_measured_from_the_last_flip() {
    let mut intersection = Intersection::new();
    let first = signals(&intersection);
    intersection.update_at(7000);
    let second = signals(&intersection);
    assert_ne!(first, second);
    intersection.update_at(11999);
    assert_eq!(signals(&intersection), second);
    intersection.update_at(12000);
    assert_eq!(signals(&intersection), first);
    assert_eq!(intersection.last_traffic_light_change, 12000);
}

#[test]
fn clock_that_runs_backwards_counts_as_no_time_passed() {
    let mut intersection = Intersection::new();
    intersection.update_at(6000);
    let flipped = signals(&intersection);
    intersection.update_at(100);
    assert_eq!(signals(&intersection), flipped);
    assert_eq!(intersection.last_traffic_light_change, 6000);
    intersection.spawn_vehicle_at(Direction::East, Route::Left, 6000);
    intersection.vehicles.clear();
    intersection.spawn_vehicle_at(Direction::East, Route::Left, 5000);
    assert!(intersection.vehicles.is_empty());
    assert_eq!(elapsed(6000, 100), 0);
    assert_eq!(elapsed(100, 6000), 5900);
    assert_eq!(elapsed(7, 7), 0);
}

#[test]
fn update_traffic_lights_swaps_the_pairs() {
    let mut intersection = Intersection::new();
    intersection.update_traffic_lights();
    assert_eq!(
        signals(&intersection),
        vec![
            TrafficLightState::Red,
            TrafficLightState::Red,
            TrafficLightState::Green,
            TrafficLightState::Green
        ]
    );
    intersection.update_traffic_lights();
    assert_eq!(
        signals(&intersection),
        vec![
            TrafficLightState::Green,
            TrafficLightState::Green,
            TrafficLightState::Red,
            TrafficLightState::Red
        ]
    );
}

#[test]
fn lights_stay_complementary_through_a_long_run() {
    let mut intersection = Intersection::new();
    let mut now = 0;
    let mut flips = 0;
    let mut last = signals(&intersection);
    for tick in 0..2000u64 {
        now += 16;
        if tick % 70 == 0 {
            intersection.spawn_vehicle_at(Direction::from_index((tick / 70 % 4) as u32), Route::from_index((tick % 3) as u32), now);
        }
        intersection.update_at(now);
        assert!(lights_are_complementary(&intersection));
        assert!(intersection.is_well_formed());
        let current = signals(&intersection);
        if current != last {
            flips += 1;
            last = current;
        }
    }
    assert_eq!(flips, 6);
}

#[test]
fn spawn_is_refused_while_a_vehicle_is_near_the_entry() {
    let mut intersection = Intersection::new();
    intersection.vehicles.push(vehicle_at(375, 761, Direction::North, Route::Straight));
    assert!(!intersection.can_spawn(Direction::North, 0));
    intersection.spawn_vehicle_at(Direction::North, Route::Left, 0);
    assert_eq!(intersection.vehicles.len(), 1);
    assert_eq!(intersection.last_vehicle_spawn[0], None);
    intersection.vehicles[0].position = (375, 760);
    assert!(intersection.can_spawn(Direction::North, 0));
    intersection.spawn_vehicle_at(Direction::North, Route::Left, 0);
    assert_eq!(intersection.vehicles.len(), 2);
}

#[test]
fn entry_of_each_direction_is_watched_on_its_own_edge() {
    let mut intersection = Intersection::new();
    intersection.vehicles.push(vehicle_at(425, 39, Direction::South, Route::Straight));
    intersection.vehicles.push(vehicle_at(39, 425, Direction::East, Route::Straight));
    intersection.vehicles.push(vehicle_at(761, 375, Direction::West, Route::Straight));
    assert!(!intersection.can_spawn(Direction::South, 0));
    assert!(!intersection.can_spawn(Direction::East, 0));
    assert!(!intersection.can_spawn(Direction::West, 0));
    assert!(intersection.can_spawn(Direction::North, 0));
    intersection.vehicles[0].position = (425, 40);
    intersection.vehicles[1].position = (40, 425);
    intersection.vehicles[2].position = (760, 375);
    assert!(intersection.can_spawn(Direction::South, 0));
    assert!(intersection.can_spawn(Direction::East, 0));
    assert!(intersection.can_spawn(Direction::West, 0));
}

#[test]
fn vehicle_of_another_direction_near_the_entry_does_not_count() {
    let mut intersection = Intersection::new();
    intersection.vehicles.push(vehicle_at(375, 790, Direction::South, Route::Straight));
    assert!(intersection.can_spawn(Direction::North, 0));
}

#[test]
fn cooldown_is_kept_per_direction() {
    let mut intersection = Intersection::new();
    intersection.spawn_vehicle_at(Direction::North, Route::Straight, 100);
    intersection.spawn_vehicle_at(Direction::South, Route::Straight, 110);
    intersection.spawn_vehicle_at(Direction::East, Route::Straight, 120);
    intersection.spawn_vehicle_at(Direction::West, Route::Straight, 130);
    assert_eq!(intersection.vehicles.len(), 4);
    assert_eq!(intersection.last_vehicle_spawn, [Some(100), Some(110), Some(120), Some(130)]);
}

#[test]
fn cooldown_ends_after_exactly_one_second() {
    let mut intersection = Intersection::new();
    intersection.spawn_vehicle_at(Direction::North, Route::Straight, 500);
    intersection.vehicles.clear();
    assert!(!intersection.can_spawn(Direction::North, 1499));
    assert!(intersection.can_spawn(Direction::North, 1500));
    assert!(intersection.can_spawn(Direction::South, 501));
}

#[test]
fn refused_request_does_not_restart_the_cooldown() {
    let mut intersection = Intersection::new();
    intersection.spawn_vehicle_at(Direction::North, Route::Straight, 0);
    intersection.vehicles.clear();
    intersection.spawn_vehicle_at(Direction::North, Route::Straight, 999);
    assert!(intersection.vehicles.is_empty());
    intersection.spawn_vehicle_at(Direction::North, Route::Straight, 1000);
    assert_eq!(intersection.vehicles.len(), 1);
}

#[test]
fn tick_moves_every_vehicle_against_the_places_before_it() {
    let leader = vehicle_at(375, 660, Direction::North, Route::Straight);
    let follower = vehicle_at(375, 700, Direction::North, Route::Straight);
    let mut leader_first = Intersection::new();
    leader_first.vehicles.push(leader);
    leader_first.vehicles.push(follower);
    leader_first.update_at(16);
    let mut follower_first = Intersection::new();
    follower_first.vehicles.push(follower);
    follower_first.vehicles.push(leader);
    follower_first.update_at(16);
    assert_eq!(leader_first.vehicles[0].position, (375, 658));
    assert_eq!(leader_first.vehicles[1].position, (375, 698));
    assert_eq!(follower_first.vehicles[0].position, (375, 698));
    assert_eq!(follower_first.vehicles[1].position, (375, 658));
}

#[test]
fn follower_within_safe_distance_waits_whatever_the_order() {
    let leader = vehicle_at(375, 661, Direction::North, Route::Straight);
    let follower = vehicle_at(375, 700, Direction::North, Route::Straight);
    let mut leader_first = Intersection::new();
    leader_first.vehicles.push(leader);
    leader_first.vehicles.push(follower);
    leader_first.update_at(16);
    assert_eq!(leader_first.vehicles[0].position, (375, 659));
    assert_eq!(leader_first.vehicles[1].position, (375, 700));
    let mut follower_first = Intersection::new();
    follower_first.vehicles.push(follower);
    follower_first.vehicles.push(leader);
    follower_first.update_at(16);
    assert_eq!(follower_first.vehicles[0].position, (375, 700));
    assert_eq!(follower_first.vehicles[1].position, (375, 659));
}

#[test]
fn tick_holds_vehicles_at_the_red_light_of_the_new_phase() {
    let mut intersection = Intersection::new();
    intersection.vehicles.push(vehicle_at(375, 420, Direction::North, Route::Straight));
    intersection.vehicles.push(vehicle_at(380, 425, Direction::East, Route::Straight));
    intersection.update_at(16);
    assert_eq!(intersection.vehicles[0].position, (375, 418));
    assert_eq!(intersection.vehicles[1].position, (380, 425));
    intersection.update_at(5016);
    assert_eq!(intersection.vehicles[0].position, (375, 418));
    assert_eq!(intersection.vehicles[1].position, (382, 425));
}

#[test]
fn tick_removes_vehicles_that_have_left_the_playfield() {
    let mut intersection = Intersection::new();
    let mut leaving = vehicle_at(375, -50, Direction::North, Route::Straight);
    leaving.has_passed_intersection = true;
    let mut staying = vehicle_at(425, 848, Direction::South, Route::Straight);
    staying.has_passed_intersection = true;
    let mut crossing = vehicle_at(600, 425, Direction::East, Route::Straight);
    crossing.has_passed_intersection = true;
    intersection.vehicles.push(leaving);
    intersection.vehicles.push(crossing);
    intersection.vehicles.push(staying);
    intersection.update_at(16);
    assert_eq!(intersection.vehicles.len(), 2);
    assert_eq!(intersection.vehicles[0].position, (602, 425));
    assert_eq!(intersection.vehicles[1].position, (425, 850));
}

#[test]
fn remove_out_of_bounds_keeps_the_others_in_order() {
    let mut intersection = Intersection::new();
    intersection.vehicles.push(vehicle_at(900, 375, Direction::East, Route::Straight));
    intersection.vehicles.push(vehicle_at(10, 425, Direction::East, Route::Straight));
    intersection.vehicles.push(vehicle_at(400, -51, Direction::North, Route::Straight));
    intersection.vehicles.push(vehicle_at(20, 425, Direction::East, Route::Straight));
    intersection.remove_out_of_bounds();
    let places: Vec<(i32, i32)> = intersection.vehicles.iter().map(|v| v.position).collect();
    assert_eq!(places, vec![(10, 425), (20, 425)]);
}

#[test]
fn move_vehicles_leaves_lights_and_clocks_alone() {
    let mut intersection = Intersection::new();
    intersection.spawn_vehicle_at(Direction::West, Route::Left, 40);
    let lights = signals(&intersection);
    intersection.move_vehicles();
    assert_eq!(intersection.vehicles[0].position, (798, 375));
    assert_eq!(signals(&intersection), lights);
    assert_eq!(intersection.last_traffic_light_change, 0);
    assert_eq!(intersection.last_vehicle_spawn, [None, None, None, Some(40)]);
}

#[test]
fn vehicle_runs_from_entry_through_its_turn_and_out() {
    let mut intersection = Intersection::new();
    intersection.spawn_vehicle_at(Direction::North, Route::Left, 0);
    let mut now = 0;
    let mut turned_at = None;
    let mut ticks = 0;
    while !intersection.vehicles.is_empty() {
        now += 1;
        intersection.update_at(now);
        ticks += 1;
        if let Some(vehicle) = intersection.vehicles.first() {
            if vehicle.direction == Direction::West && turned_at.is_none() {
                turned_at = Some((ticks, vehicle.position));
            }
        }
        assert!(ticks < 1000);
    }
    assert_eq!(turned_at, Some((201, (375, 375))));
    assert_eq!(ticks, 201 + 213);
}

#[test]
fn well_formedness_is_told_from_the_fields() {
    let mut intersection = Intersection::new();
    assert!(intersection.is_well_formed());
    intersection.vehicles.push(vehicle_at(900, 900, Direction::North, Route::Straight));
    assert!(!intersection.is_well_formed());
    intersection.vehicles.clear();
    intersection.traffic_lights[0].state = TrafficLightState::Red;
    assert!(!intersection.is_well_formed());
    intersection.traffic_lights[0].state = TrafficLightState::Green;
    intersection.traffic_lights.swap(0, 1);
    assert!(!intersection.is_well_formed());
    intersection.traffic_lights.swap(0, 1);
    assert!(intersection.is_well_formed());
    intersection.traffic_lights.pop();
    assert!(!intersection.is_well_formed());
}

#[test]
fn spawn_by_the_clock_grants_the_first_request_and_refuses_the_next() {
    let mut intersection = Intersection::new();
    intersection.spawn_vehicle(Direction::North);
    assert_eq!(intersection.vehicles.len(), 1);
    assert_eq!(intersection.vehicles[0].position, (375, 800));
    assert_eq!(intersection.vehicles[0].direction, Direction::North);
    assert!(intersection.last_vehicle_spawn[0].is_some());
    intersection.spawn_vehicle(Direction::North);
    assert_eq!(intersection.vehicles.len(), 1);
    intersection.spawn_vehicle(Direction::West);
    assert_eq!(intersection.vehicles.len(), 2);
}

#[test]
fn update_by_the_clock_moves_the_vehicles() {
    let mut intersection = Intersection::new();
    intersection.spawn_vehicle(Direction::South);
    intersection.update();
    assert_eq!(intersection.vehicles.len(), 1);
    assert_eq!(intersection.vehicles[0].position, (425, 2));
    assert!(lights_are_complementary(&intersection));
}

#[test]
fn clock_counts_from_the_making_of_the_intersection() {
    let intersection = Intersection::new();
    let first = intersection.now();
    let second = intersection.now();
    assert!(first <= second);
    assert!(second < 60_000);
    assert!(millis_since(&intersection.started) >= second);
}

#[test]
fn random_routes_are_not_all_the_same() {
    let mut seen = [false; 3];
    for _ in 0..300 {
        match random_route() {
            Route::Left => seen[0] = true,
            Route::Straight => seen[1] = true,
            Route::Right => seen[2] = true,
        }
    }
    assert_eq!(seen, [true, true, true]);
}

#[test]
fn random_directions_are_not_all_the_same() {
    let mut seen = [false; 4];
    for _ in 0..400 {
        seen[random_direction().index()] = true;
    }
    assert_eq!(seen, [true, true, true, true]);
}

#[test]
fn scene_lists_roads_markings_lights_and_vehicles_in_order() {
    let mut intersection = Intersection::new();
    intersection.spawn_vehicle_at(Direction::North, Route::Left, 0);
    let scene = intersection.scene();
    assert_eq!(
        scene,
        vec![
            Shape { x: 350, y: 0, width: 100, height: 800, color: (100, 100, 100) },
            Shape { x: 0, y: 350, width: 800, height: 100, color: (100, 100, 100) },
            Shape { x: 398, y: 0, width: 4, height: 800, color: (255, 255, 255) },
            Shape { x: 0, y: 398, width: 800, height: 4, color: (255, 255, 255) },
            Shape { x: 330, y: 450, width: 20, height: 20, color: (0, 255, 0) },
            Shape { x: 450, y: 330, width: 20, height: 20, color: (0, 255, 0) },
            Shape { x: 330, y: 330, width: 20, height: 20, color: (255, 0, 0) },
            Shape { x: 450, y: 450, width: 20, height: 20, color: (255, 0, 0) },
            Shape { x: 360, y: 790, width: 30, height: 20, color: (255, 255, 0) },
        ]
    );
}
