//! A four-way road intersection: vehicles, traffic lights, and the rules that
//! move them, stated over integer coordinates and proved.

pub mod constants;
pub mod laws;
pub mod models;
pub mod simulation;
