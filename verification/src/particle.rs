//! The particle data: a position and a velocity, both 2D vectors in
//! milli-pixels.  A particle has no identity beyond its slot in the
//! simulator's array.

use vstd::prelude::*;

verus! {

/// A point in simulation space, in milli-pixels.
#[derive(Debug, Clone, Copy, PartialEq, Eq, Structural)]
pub struct Position {
    pub x: i64,
    pub y: i64,
}

/// A per-step displacement, in milli-pixels per step.
#[derive(Debug, Clone, Copy, PartialEq, Eq, Structural)]
pub struct Velocity {
    pub x: i64,
    pub y: i64,
}

/// One particle: where it is and how it last moved.
#[derive(Debug, Clone, Copy, PartialEq, Eq, Structural)]
pub struct Point {
    pub position: Position,
    pub velocity: Velocity,
}

} // verus!
