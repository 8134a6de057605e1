//! The rules of a Snake game on a bounded two-dimensional field, stated over
//! integer coordinates and verified.

use vstd::prelude::*;

pub mod collision;
pub mod events;
pub mod food;
pub mod snake;
pub mod timer;
pub mod utilities;
pub mod world;

verus! {

/// The signal that the head has run into the edge of the field or into the tail.
#[derive(Clone, Copy, Debug, PartialEq, Eq, Structural)]
pub struct DeathCollisionEvent;

} // verus!
