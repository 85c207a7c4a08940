//! Traffic lights: passive holders of a signal state.

use vstd::prelude::*;
use crate::constants::TRAFFIC_LIGHT_SIZE;
use crate::models::direction::Direction;
use crate::models::shape::Shape;

verus! {

/// The signal a traffic light shows.
#[derive(Debug, Clone, Copy, PartialEq, Eq, Structural)]
pub enum TrafficLightState {
    Red,
    Green,
}

impl TrafficLightState {
    /// The colour the signal is painted in, as red, green, blue.
    pub open spec fn spec_color(self) -> (u8, u8, u8) {
        match self {
            TrafficLightState::Red => (255u8, 0u8, 0u8),
            TrafficLightState::Green => (0u8, 255u8, 0u8),
        }
    }

    /// The colour the signal is painted in, as red, green, blue.
    pub fn color(self) -> (c: (u8, u8, u8))
        ensures
            c == self.spec_color(),
    {
        match self {
            TrafficLightState::Red => (255, 0, 0),
            TrafficLightState::Green => (0, 255, 0),
        }
    }
}

/// A signal that governs the vehicles travelling in one direction.
///
/// `position` is the top-left corner at which the light is drawn; the rules of
/// the simulation never read it.
#[derive(Debug, Clone, Copy, PartialEq, Eq)]
pub struct TrafficLight {
    pub position: (i32, i32),
    pub state: TrafficLightState,
    pub direction: Direction,
}

impl TrafficLight {
    /// A light at `position` for `direction`, showing red.
    pub fn new(position: (i32, i32), direction: Direction) -> (light: TrafficLight)
        ensures
            light.position == position,
            light.state == TrafficLightState::Red,
            light.direction == direction,
    {
        TrafficLight { position, state: TrafficLightState::Red, direction }
    }

    /// The square the light is painted as, in the colour of its signal.
    pub open spec fn spec_shape(self) -> Shape {
        Shape {
            x: self.position.0,
            y: self.position.1,
            width: TRAFFIC_LIGHT_SIZE,
            height: TRAFFIC_LIGHT_SIZE,
            color: self.state.spec_color(),
        }
    }

    /// The square the light is painted as, in the colour of its signal.
    pub fn shape(&self) -> (shape: Shape)
        ensures
            shape == self.spec_shape(),
    {
        Shape {
            x: self.position.0,
            y: self.position.1,
            width: TRAFFIC_LIGHT_SIZE,
            height: TRAFFIC_LIGHT_SIZE,
            color: self.state.color(),
        }
    }
}

/// Whether `i` is the place of the first light in `lights` that governs `direction`.
pub open spec fn is_first_light_for(lights: Seq<TrafficLight>, direction: Direction, i: int) -> bool {
    &&& 0 <= i < lights.len()
    &&& lights[i].direction == direction
    &&& forall|j: int| 0 <= j < i ==> (#[trigger] lights[j]).direction != direction
}

/// Whether the light that governs `direction` shows red. Where several lights
/// govern one direction the first of them decides; where none does, nothing is
/// red.
pub open spec fn shows_red(lights: Seq<TrafficLight>, direction: Direction) -> bool {
    exists|i: int|
        #[trigger] is_first_light_for(lights, direction, i) && lights[i].state
            == TrafficLightState::Red
}

/// At most one place is that of the first light for a direction.
pub proof fn lemma_first_light_unique(lights: Seq<TrafficLight>, direction: Direction, i: int, k: int)
    requires
        is_first_light_for(lights, direction, i),
        is_first_light_for(lights, direction, k),
    ensures
        i == k,
{
    if i < k {
        assert(lights[i].direction != direction);
    } else if k < i {
        assert(lights[k].direction != direction);
    }
}

} // verus!
