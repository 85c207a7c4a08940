//! The orchestration of one intersection.

pub mod chance;
pub mod clock;
pub mod controls;
pub mod intersection;
pub mod scene;
