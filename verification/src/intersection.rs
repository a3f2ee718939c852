//! The result of testing a ray against a surface.

use vstd::prelude::*;
use crate::scalar::Scalar;
use crate::vector::{Point3, Vector3};

verus! {

/// Where a ray meets a surface.
#[derive(Clone, Copy, PartialEq, Eq, Structural, Debug)]
pub struct Intersection {
    /// The distance of the hit from the ray's origin.
    pub distance: Scalar,
    /// The point at which the ray meets the surface.
    pub position: Point3,
    /// The normal of the surface at that point.
    pub normal: Vector3,
}

impl Intersection {
    /// A hit lies in front of the ray's origin: its distance is a number
    /// above zero.
    pub open spec fn well_formed(self) -> bool {
        self.distance.positive()
    }

    /// The hit at `distance` along a ray, at `position`, on a surface whose
    /// normal there is `normal`. A distance that is not above zero lies behind
    /// the ray and makes no hit.
    pub fn new_from_distance(distance: Scalar, position: Point3, normal: Vector3) -> (r: Option<
        Intersection,
    >)
        ensures
            distance.positive() ==> r == Some(Intersection { distance, position, normal }),
            !distance.positive() ==> r is None,
    {
        if distance.is_positive() {
            Some(Intersection { distance, position, normal })
        } else {
            None
        }
    }
}

} // verus!
