//! Surfaces: the geometry a ray can hit.
//!
//! Each kind of surface solves its own equation for the distance of a hit;
//! the solving is arithmetic and happens outside the library. What is decided
//! here is whether the solution counts as a hit, and which of two it is.

use vstd::prelude::*;
use crate::intersection::Intersection;
use crate::ray::Ray;
use crate::scalar::{Scalar, ONE_BITS};
use crate::vector::{Point3, Vector3};

verus! {

/// Encoding of the determinant below which a ray counts as running in the
/// plane of a triangle: one millionth.
pub const DETERMINANT_EPSILON: u32 = 0x3586_37bd;

/// Something a ray can hit.
pub trait Surface {
    /// What a test of `ray` against the surface finds: the nearest hit in
    /// front of the ray's origin, if there is one.
    spec fn hit(&self, ray: Ray) -> Option<Intersection>;

    /// Tests whether `ray` meets the surface. The test is a function of the
    /// surface and the ray alone, and a hit it reports lies in front of the
    /// ray's origin.
    fn intersects(&self, ray: &Ray) -> (r: Option<Intersection>)
        ensures
            r == self.hit(*ray),
            r matches Some(i) ==> i.well_formed(),
    ;

    /// The normal of the surface at `point`, on the side that faces out.
    fn normal_towards(&self, point: Point3) -> Vector3;
}

/// A sphere, by its center and radius.
#[derive(Clone, Copy, PartialEq, Eq, Structural, Debug)]
pub struct Sphere {
    pub center: Point3,
    pub radius: Scalar,
}

/// A plane, by its unit normal and its signed offset.
#[derive(Clone, Copy, PartialEq, Eq, Structural, Debug)]
pub struct Plane {
    pub normal: Vector3,
    pub offset: Scalar,
}

/// A triangle, by its three corners.
#[derive(Clone, Copy, Debug)]
pub struct Triangle {
    pub vertices: [Point3; 3],
}

impl Sphere {
    /// The distance at which a ray meets a sphere, from the quadratic
    /// equation of the two: its discriminant and its two roots.
    ///
    /// There is a hit when the discriminant is zero or above and a root lies
    /// above zero. The hit is at the smaller of the roots above zero.
    pub fn intersects(discriminant: Scalar, first: Scalar, second: Scalar) -> (r: Option<Scalar>)
        ensures
            r is Some <==> (Scalar { bits: 0 }).at_most(discriminant) && (first.positive()
                || second.positive()),
            r matches Some(t) ==> {
                &&& t.positive()
                &&& t == first || t == second
                &&& first.positive() ==> !first.below(t)
                &&& second.positive() ==> !second.below(t)
            },
    {
        if !Scalar::zero().less_or_equal(&discriminant) {
            return None;
        }
        let first_ahead = first.is_positive();
        let second_ahead = second.is_positive();
        if first_ahead && second_ahead {
            if second.less_than(&first) {
                Some(second)
            } else {
                Some(first)
            }
        } else if first_ahead {
            Some(first)
        } else if second_ahead {
            Some(second)
        } else {
            None
        }
    }
}

impl Plane {
    /// The distance at which a ray meets a plane. `denominator` is the dot
    /// product of the plane's normal and the ray's direction, `t` the
    /// solution of the plane equation along the ray.
    ///
    /// A ray that runs parallel to the plane never meets it, and a solution
    /// that is not above zero lies behind the ray.
    pub fn intersects(denominator: Scalar, t: Scalar) -> (r: Option<Scalar>)
        ensures
            denominator.null() ==> r is None,
            !t.positive() ==> r is None,
            !denominator.null() && t.positive() ==> r == Some(t),
    {
        if denominator.is_zero() {
            return None;
        }
        if t.is_positive() {
            Some(t)
        } else {
            None
        }
    }
}

impl Triangle {
    /// Whether a determinant is far enough from zero for a ray to cross the
    /// plane of a triangle: it is a number at or beyond one millionth, on
    /// either side of zero.
    pub open spec fn crosses(determinant: Scalar) -> bool {
        ||| (Scalar { bits: DETERMINANT_EPSILON }).at_most(determinant)
        ||| determinant.at_most((Scalar { bits: DETERMINANT_EPSILON }).opposite())
    }

    /// Whether barycentric coordinates `u` and `v` with sum `sum` lie inside
    /// a triangle.
    pub open spec fn inside(u: Scalar, v: Scalar, sum: Scalar) -> bool {
        &&& (Scalar { bits: 0 }).at_most(u)
        &&& u.at_most(Scalar { bits: ONE_BITS })
        &&& (Scalar { bits: 0 }).at_most(v)
        &&& sum.at_most(Scalar { bits: ONE_BITS })
    }

    /// The distance at which a ray meets a triangle, from the quantities of
    /// the Möller–Trumbore test: the determinant, the barycentric coordinates
    /// `u` and `v` of the point where the ray crosses the triangle's plane,
    /// their sum, and the distance `t` of that point.
    ///
    /// There is a hit at `t` when the ray crosses the plane, the point lies
    /// inside the triangle and in front of the ray; there is none otherwise,
    /// nor when one of the quantities is not a number.
    pub fn intersects(determinant: Scalar, u: Scalar, v: Scalar, sum: Scalar, t: Scalar) -> (r:
        Option<Scalar>)
        ensures
            Self::crosses(determinant) && Self::inside(u, v, sum) && t.positive() ==> r == Some(t),
            !(Self::crosses(determinant) && Self::inside(u, v, sum) && t.positive()) ==> r is None,
    {
        let epsilon = Scalar::from_bits(DETERMINANT_EPSILON);
        if !(epsilon.less_or_equal(&determinant) || determinant.less_or_equal(&epsilon.negated())) {
            return None;
        }
        let zero = Scalar::zero();
        let one = Scalar::one();
        if !(zero.less_or_equal(&u) && u.less_or_equal(&one)) {
            return None;
        }
        if !(zero.less_or_equal(&v) && sum.less_or_equal(&one)) {
            return None;
        }
        if t.is_positive() {
            Some(t)
        } else {
            None
        }
    }

    /// The normal of a two-sided triangle at a hit. `normal` is the unit
    /// normal that the order of the corners gives, `side` its dot product
    /// with the position of the hit: above zero the normal is kept, otherwise
    /// it is turned round.
    pub fn normal_towards(normal: Vector3, side: Scalar) -> (r: Vector3)
        ensures
            side.positive() ==> r == normal,
            !side.positive() ==> r == normal.opposite(),
    {
        if side.is_positive() {
            normal
        } else {
            normal.negated()
        }
    }
}

} // verus!
