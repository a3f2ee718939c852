//! Rays: directed lines that remember the medium they travel through.

use vstd::prelude::*;
use crate::scalar::Scalar;
use crate::vector::{Point3, Vector3};

verus! {

/// Encoding of the refractive index of air, 1.000293.
pub const INDEX_OF_REFRACTION_AIR: u32 = 0x3f80_099a;

/// A directed line.
#[derive(Clone, Copy, PartialEq, Eq, Structural, Debug)]
pub struct Ray {
    /// The starting point of the ray.
    pub origin: Point3,
    /// The direction of the ray, of unit length.
    pub direction: Vector3,
    /// The index of refraction of the medium the ray is cast through.
    pub index_of_refraction: Scalar,
}

impl Ray {
    /// The refractive index of air.
    pub open spec fn air() -> Scalar {
        Scalar { bits: INDEX_OF_REFRACTION_AIR }
    }

    /// A ray from `origin` along `direction` that travels through air.
    pub fn new_from_air(origin: Point3, direction: Vector3) -> (r: Ray)
        ensures
            r.origin == origin,
            r.direction == direction,
            r.index_of_refraction == Ray::air(),
    {
        Ray { origin, direction, index_of_refraction: Scalar { bits: INDEX_OF_REFRACTION_AIR } }
    }
}

} // verus!
