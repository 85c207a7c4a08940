//! What there is to paint of an intersection.

use vstd::prelude::*;
use crate::constants::{ROAD_WIDTH, WINDOW_HEIGHT, WINDOW_WIDTH};
use crate::models::shape::Shape;
use crate::models::traffic_light::TrafficLight;
use crate::models::vehicle::Vehicle;
use crate::simulation::intersection::{Intersection, IntersectionView};

verus! {

/// The colour of the road surface.
pub const ROAD_COLOR: (u8, u8, u8) = (100, 100, 100);

/// The colour of the lane markings.
pub const MARKING_COLOR: (u8, u8, u8) = (255, 255, 255);

/// The width of a lane marking.
pub const MARKING_WIDTH: u32 = 4;

/// The two roads and their lane markings, in the order they are painted: the
/// vertical road, the horizontal road, the vertical marking, the horizontal
/// marking.
pub open spec fn road_shapes() -> Seq<Shape> {
    seq![
        Shape {
            x: (WINDOW_WIDTH / 2 - ROAD_WIDTH / 2) as i32,
            y: 0,
            width: ROAD_WIDTH,
            height: WINDOW_HEIGHT,
            color: ROAD_COLOR,
        },
        Shape {
            x: 0,
            y: (WINDOW_HEIGHT / 2 - ROAD_WIDTH / 2) as i32,
            width: WINDOW_WIDTH,
            height: ROAD_WIDTH,
            color: ROAD_COLOR,
        },
        Shape {
            x: (WINDOW_WIDTH / 2 - MARKING_WIDTH / 2) as i32,
            y: 0,
            width: MARKING_WIDTH,
            height: WINDOW_HEIGHT,
            color: MARKING_COLOR,
        },
        Shape {
            x: 0,
            y: (WINDOW_HEIGHT / 2 - MARKING_WIDTH / 2) as i32,
            width: WINDOW_WIDTH,
            height: MARKING_WIDTH,
            color: MARKING_COLOR,
        },
    ]
}

impl IntersectionView {
    /// Everything there is to paint, in the order it is painted: the roads and
    /// their markings, then the lights, then the vehicles.
    pub open spec fn scene(self) -> Seq<Shape> {
        road_shapes() + self.lights.map_values(|light: TrafficLight| light.spec_shape())
            + self.vehicles.map_values(|vehicle: Vehicle| vehicle.spec_shape())
    }
}

impl Intersection {
    /// Everything there is to paint, in the order it is painted: the roads and
    /// their markings, then the lights, then the vehicles.
    pub fn scene(&self) -> (shapes: Vec<Shape>)
        requires
            forall|i: int|
                0 <= i < self.vehicles@.len() ==> (#[trigger] self.vehicles@[i]).paintable(),
        ensures
            shapes@ == self@.scene(),
    {
        let mut shapes: Vec<Shape> = Vec::new();
        shapes.push(
            Shape {
                x: (WINDOW_WIDTH / 2 - ROAD_WIDTH / 2) as i32,
                y: 0,
                width: ROAD_WIDTH,
                height: WINDOW_HEIGHT,
                color: ROAD_COLOR,
            },
        );
        shapes.push(
            Shape {
                x: 0,
                y: (WINDOW_HEIGHT / 2 - ROAD_WIDTH / 2) as i32,
                width: WINDOW_WIDTH,
                height: ROAD_WIDTH,
                color: ROAD_COLOR,
            },
        );
        shapes.push(
            Shape {
                x: (WINDOW_WIDTH / 2) as i32 - 2,
                y: 0,
                width: MARKING_WIDTH,
                height: WINDOW_HEIGHT,
                color: MARKING_COLOR,
            },
        );
        shapes.push(
            Shape {
                x: 0,
                y: (WINDOW_HEIGHT / 2) as i32 - 2,
                width: WINDOW_WIDTH,
                height: MARKING_WIDTH,
                color: MARKING_COLOR,
            },
        );
        assert(shapes@ =~= road_shapes());
        let ghost light_shape = |light: TrafficLight| light.spec_shape();
        let ghost vehicle_shape = |vehicle: Vehicle| vehicle.spec_shape();
        let lights = self.traffic_lights.len();
        let mut i: usize = 0;
        while i < lights
            invariant
                i <= lights,
                lights == self.traffic_lights@.len(),
                light_shape == (|light: TrafficLight| light.spec_shape()),
                shapes@ == road_shapes() + self.traffic_lights@.take(i as int).map_values(
                    light_shape,
                ),
            decreases lights - i,
        {
            let shape = self.traffic_lights[i].shape();
            shapes.push(shape);
            proof {
                assert(self.traffic_lights@.take(i + 1).map_values(light_shape)
                    =~= self.traffic_lights@.take(i as int).map_values(light_shape).push(shape));
                assert(shapes@ =~= road_shapes() + self.traffic_lights@.take(i + 1).map_values(
                    light_shape,
                ));
            }
            i += 1;
        }
        assert(self.traffic_lights@.take(lights as int) =~= self.traffic_lights@);
        let ghost fixed = shapes@;
        let vehicles = self.vehicles.len();
        let mut j: usize = 0;
        while j < vehicles
            invariant
                j <= vehicles,
                vehicles == self.vehicles@.len(),
                vehicle_shape == (|vehicle: Vehicle| vehicle.spec_shape()),
                forall|k: int|
                    0 <= k < self.vehicles@.len() ==> (#[trigger] self.vehicles@[k]).paintable(),
                shapes@ == fixed + self.vehicles@.take(j as int).map_values(vehicle_shape),
            decreases vehicles - j,
        {
            let shape = self.vehicles[j].shape();
            shapes.push(shape);
            proof {
                assert(self.vehicles@.take(j + 1).map_values(vehicle_shape)
                    =~= self.vehicles@.take(j as int).map_values(vehicle_shape).push(shape));
                assert(shapes@ =~= fixed + self.vehicles@.take(j + 1).map_values(vehicle_shape));
            }
            j += 1;
        }
        assert(self.vehicles@.take(vehicles as int) =~= self.vehicles@);
        shapes
    }
}

} // verus!
