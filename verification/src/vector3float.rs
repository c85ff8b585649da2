//! Points of space, held as bit patterns.

use crate::single::{is_unit_fraction, ONE_BITS};
use vstd::prelude::*;

verus! {

/// A point of space. Each coordinate is the IEEE-754 bit pattern of a
/// single-precision number.
#[derive(Clone, Copy, Debug)]
pub struct Vector3Float {
    pub x: u32,
    pub y: u32,
    pub z: u32,
}

impl Vector3Float {
    /// The point with the three coordinates.
    pub fn new(x: u32, y: u32, z: u32) -> (v: Self)
        ensures
            v == (Vector3Float { x, y, z }),
    {
        Self { x, y, z }
    }

    /// Whether the point lies in the half-open unit cube.
    pub open spec fn in_unit_cube(self) -> bool {
        is_unit_fraction(self.x) && is_unit_fraction(self.y) && is_unit_fraction(self.z)
    }

    /// Says whether the point lies in the half-open unit cube.
    pub fn is_in_unit_cube(&self) -> (inside: bool)
        ensures
            inside == self.in_unit_cube(),
    {
        self.x < ONE_BITS && self.y < ONE_BITS && self.z < ONE_BITS
    }
}

} // verus!
