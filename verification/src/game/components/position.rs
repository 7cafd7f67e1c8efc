//! Where an entity is and where it is going, in whole world units.

use crate::data::ids::ZoneId;
use vstd::prelude::*;

verus! {

/// A point of a zone. The x and y axes span the ground plane, z is the
/// height.
#[derive(Copy, Clone, Debug, PartialEq, Eq, Structural)]
pub struct Point3 {
    pub x: i32,
    pub y: i32,
    pub z: i32,
}

impl Point3 {
    pub fn new(x: i32, y: i32, z: i32) -> (point: Self)
        ensures
            point == (Point3 { x, y, z }),
    {
        Self { x, y, z }
    }
}

/// The zone an entity is in and its place there.
#[derive(Copy, Clone, Debug, PartialEq, Eq, Structural)]
pub struct Position {
    pub position: Point3,
    pub zone: ZoneId,
}

impl Position {
    pub fn new(position: Point3, zone: ZoneId) -> (place: Self)
        ensures
            place.position == position,
            place.zone == zone,
    {
        Self { position, zone }
    }
}

/// The point an entity is moving to. An entity has one exactly while it
/// moves.
#[derive(Copy, Clone, Debug, PartialEq, Eq, Structural)]
pub struct Destination {
    pub position: Point3,
}

} // verus!
