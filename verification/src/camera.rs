//! The camera and the coordinates of its screen.

use vstd::prelude::*;
use crate::ray::Ray;
use crate::vector::{Point3, Vector3};

verus! {

/// The eye of a render.
#[derive(Clone, Copy, PartialEq, Eq, Structural, Debug)]
pub struct Camera {
    /// Location of the camera within the scene.
    pub position: Point3,
    /// Direction that the camera is facing.
    pub direction: Vector3,
}

/// A coordinate on the screen, as the exact fraction
/// `numerator / denominator`. The screen spans from -1 to 1 along each axis.
#[derive(Clone, Copy, PartialEq, Eq, Structural, Debug)]
pub struct Coordinate {
    pub numerator: i128,
    pub denominator: usize,
}

impl Coordinate {
    /// A coordinate names a place on the screen: its denominator is not
    /// zero, and the fraction lies between -1 and 1.
    pub open spec fn well_formed(self) -> bool {
        &&& self.denominator > 0
        &&& -(self.denominator as int) <= self.numerator <= self.denominator as int
    }
}

impl Camera {
    /// The primary ray through a point of the screen. `direction` is the
    /// direction from the eye to that point, of unit length; the ray starts
    /// at the eye and travels through air.
    pub fn get_ray(&self, direction: Vector3) -> (r: Ray)
        ensures
            r.origin == self.position,
            r.direction == direction,
            r.index_of_refraction == Ray::air(),
    {
        Ray::new_from_air(self.position, direction)
    }
}

} // verus!
