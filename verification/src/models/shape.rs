//! What is painted: filled rectangles.

use vstd::prelude::*;

verus! {

/// A filled rectangle, given by its top-left corner, its size, and its colour
/// as red, green, blue.
#[derive(Debug, Clone, Copy, PartialEq, Eq)]
pub struct Shape {
    pub x: i32,
    pub y: i32,
    pub width: u32,
    pub height: u32,
    pub color: (u8, u8, u8),
}

} // verus!
