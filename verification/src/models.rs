//! The entities of the simulation.

pub mod direction;
pub mod route;
pub mod shape;
pub mod traffic_light;
pub mod vehicle;
