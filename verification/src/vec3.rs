//! Three-component fixed-point vectors.

use vstd::prelude::*;
use crate::units::COORD_LIMIT;

verus! {

/// A 3-vector of raw fixed-point coordinates.
#[derive(Clone, Copy, Debug, PartialEq, Eq, Structural)]
pub struct Vec3 {
    pub x: i64,
    pub y: i64,
    pub z: i64,
}

/// Every component lies in the representable coordinate range.
pub open spec fn vec3_wf(v: Vec3) -> bool {
    &&& -(COORD_LIMIT as int) <= v.x <= COORD_LIMIT as int
    &&& -(COORD_LIMIT as int) <= v.y <= COORD_LIMIT as int
    &&& -(COORD_LIMIT as int) <= v.z <= COORD_LIMIT as int
}

impl Vec3 {
    /// Bundle three components into a vector.
    pub fn new(x: i64, y: i64, z: i64) -> (r: Vec3)
        ensures
            r == (Vec3 { x, y, z }),
    {
        Vec3 { x, y, z }
    }

    /// The origin.
    pub fn zero() -> (r: Vec3)
        ensures
            r == (Vec3 { x: 0i64, y: 0i64, z: 0i64 }),
    {
        Vec3 { x: 0, y: 0, z: 0 }
    }
}

} // verus!
