//! Points and directions in space, by their three coordinates.

use vstd::prelude::*;
use crate::scalar::Scalar;

verus! {

/// A position in space.
#[derive(Clone, Copy, PartialEq, Eq, Structural, Debug)]
pub struct Point3 {
    pub x: Scalar,
    pub y: Scalar,
    pub z: Scalar,
}

/// A direction or displacement in space.
#[derive(Clone, Copy, PartialEq, Eq, Structural, Debug)]
pub struct Vector3 {
    pub x: Scalar,
    pub y: Scalar,
    pub z: Scalar,
}

impl Point3 {
    /// The point with the given coordinates.
    pub fn new(x: Scalar, y: Scalar, z: Scalar) -> (r: Point3)
        ensures
            r == (Point3 { x, y, z }),
    {
        Point3 { x, y, z }
    }
}

impl Vector3 {
    /// The vector with the given coordinates.
    pub fn new(x: Scalar, y: Scalar, z: Scalar) -> (r: Vector3)
        ensures
            r == (Vector3 { x, y, z }),
    {
        Vector3 { x, y, z }
    }

    /// The vector that points the other way.
    pub open spec fn opposite(self) -> Vector3 {
        Vector3 { x: self.x.opposite(), y: self.y.opposite(), z: self.z.opposite() }
    }

    /// The vector that points the other way: every coordinate changes its
    /// sign and nothing else.
    pub fn negated(&self) -> (r: Vector3)
        ensures
            r == self.opposite(),
    {
        Vector3 { x: self.x.negated(), y: self.y.negated(), z: self.z.negated() }
    }
}

} // verus!
