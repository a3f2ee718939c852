//! Materials: what a surface does with the light that reaches it.
//!
//! An emissive material ends a path with its own radiance. A reflective one
//! sends the path on along a new ray. The directions that a bounce may take
//! are computed outside the library; which of them it takes, where the new
//! ray starts and which medium it travels through is decided here.

use vstd::prelude::*;
use crate::intersection::Intersection;
use crate::ray::{Ray, INDEX_OF_REFRACTION_AIR};
use crate::scalar::{Scalar, ONE_BITS};
use crate::vector::Vector3;

verus! {

/// The material of an object: a light, or a surface of kind `M` that
/// scatters.
pub enum MaterialBox<M> {
    Emissive(EmissiveMaterial),
    Reflective(M),
}

/// A material that gives off light of its own.
#[derive(Clone, Copy, PartialEq, Eq, Structural, Debug)]
pub struct EmissiveMaterial {
    pub emissivity: Scalar,
}

/// A material that sends an incoming ray on.
pub trait ReflectiveMaterial {
    /// The ray that leaves the surface when `incoming` meets it at
    /// `intersection`. A bounce may draw on chance: two bounces of one ray
    /// need not agree.
    fn bounce(&self, incoming: &Ray, intersection: &Intersection) -> (r: Ray)
        requires
            intersection.well_formed(),
        ensures
            self.scatters(*incoming, *intersection, r),
    ;

    /// Whether `out` is a ray that a bounce of `incoming` at `intersection`
    /// can give. A material that says nothing of its bounces leaves this as
    /// it is.
    open spec fn scatters(&self, incoming: Ray, intersection: Intersection, out: Ray) -> bool {
        true
    }

    /// The color of the material.
    fn color(&self) -> Vector3;
}

/// A material that scatters light evenly into the hemisphere above it.
#[derive(Clone, Copy, PartialEq, Eq, Structural, Debug)]
pub struct PerfectDiffuseMaterial {
    pub color: Vector3,
}

/// A perfect mirror.
#[derive(Clone, Copy, PartialEq, Eq, Structural, Debug)]
pub struct PerfectSpecularMaterial;

/// A transparent material that reflects some rays and refracts the others.
#[derive(Clone, Copy, PartialEq, Eq, Structural, Debug)]
pub struct PerfectRefractiveMaterial {
    pub index_of_refraction: Scalar,
    /// Probability that a ray is reflected rather than refracted.
    pub reflect_prob: Scalar,
}

/// The color white.
pub open spec fn white() -> Vector3 {
    Vector3 {
        x: Scalar { bits: ONE_BITS },
        y: Scalar { bits: ONE_BITS },
        z: Scalar { bits: ONE_BITS },
    }
}

impl PerfectDiffuseMaterial {
    /// The direction a diffuse bounce takes: the sampled one, turned round
    /// when it points below the surface.
    pub open spec fn into_hemisphere(sample: Vector3, alignment: Scalar) -> Vector3 {
        if alignment.negative() {
            sample.opposite()
        } else {
            sample
        }
    }

    /// The ray of a diffuse bounce. `sample` is the direction that was drawn
    /// and `alignment` its dot product with the normal of the hit. The ray
    /// starts at the hit and travels through air; a sample that points into
    /// the surface is turned round, every other sample is kept.
    pub fn bounce(intersection: &Intersection, sample: Vector3, alignment: Scalar) -> (r: Ray)
        ensures
            r.origin == intersection.position,
            r.direction == Self::into_hemisphere(sample, alignment),
            r.index_of_refraction == Ray::air(),
            !alignment.negative() ==> r.direction == sample,
            alignment.negative() ==> r.direction == sample.opposite()
                && alignment.opposite().positive(),
    {
        let direction = if alignment.is_negative() {
            sample.negated()
        } else {
            sample
        };
        Ray::new_from_air(intersection.position, direction)
    }

    /// The color of the material.
    pub fn color(&self) -> (r: Vector3)
        ensures
            r == self.color,
    {
        self.color
    }
}

/// A diffuse bounce never points into the surface. The dot product of a
/// direction and the normal changes its sign with the direction, and nothing
/// else: so where the sample is kept its alignment is not below zero, and
/// where it is turned round the alignment of the result is above zero.
pub proof fn lemma_diffuse_stays_above(sample: Vector3, alignment: Scalar)
    ensures
        !alignment.negative() ==> PerfectDiffuseMaterial::into_hemisphere(sample, alignment)
            == sample,
        alignment.negative() ==> PerfectDiffuseMaterial::into_hemisphere(sample, alignment)
            == sample.opposite() && alignment.opposite().positive(),
{
}

impl PerfectSpecularMaterial {
    /// The ray of a mirror bounce along the reflected direction. It starts
    /// where the incoming ray started and travels through air.
    pub fn bounce(incoming: &Ray, reflected: Vector3) -> (r: Ray)
        ensures
            r.origin == incoming.origin,
            r.direction == reflected,
            r.index_of_refraction == Ray::air(),
    {
        Ray::new_from_air(incoming.origin, reflected)
    }

    /// The color of the material: white.
    pub fn color(&self) -> (r: Vector3)
        ensures
            r == white(),
    {
        Vector3 { x: Scalar::one(), y: Scalar::one(), z: Scalar::one() }
    }
}

impl PerfectRefractiveMaterial {
    /// The two media of a refraction, the one the ray leaves and the one it
    /// enters. `alignment` is the dot product of the ray's direction and the
    /// normal: at zero or above the ray runs with the normal and leaves the
    /// material for air; otherwise it enters the material from the medium it
    /// was cast through.
    pub open spec fn media_of(self, incoming: Ray, alignment: Scalar) -> (Scalar, Scalar) {
        if (Scalar { bits: 0 }).at_most(alignment) {
            (self.index_of_refraction, Ray::air())
        } else {
            (incoming.index_of_refraction, self.index_of_refraction)
        }
    }

    /// Whether a bounce with the given draw refracts: it does once the draw
    /// exceeds the probability of reflection.
    pub open spec fn refracts(self, draw: Scalar) -> bool {
        self.reflect_prob.below(draw)
    }

    /// Whether Snell's law leaves no transmitted ray: the squared sine of the
    /// angle of transmission exceeds one.
    pub open spec fn totally_reflected(sine_squared: Scalar) -> bool {
        (Scalar { bits: ONE_BITS }).below(sine_squared)
    }

    /// The ray of a bounce off the material.
    pub open spec fn scattered(
        self,
        incoming: Ray,
        intersection: Intersection,
        draw: Scalar,
        alignment: Scalar,
        sine_squared: Scalar,
        reflected: Vector3,
        refracted: Vector3,
    ) -> Ray {
        if self.refracts(draw) && !Self::totally_reflected(sine_squared) {
            Ray {
                origin: intersection.position,
                direction: refracted,
                index_of_refraction: self.media_of(incoming, alignment).1,
            }
        } else {
            Ray { origin: incoming.origin, direction: reflected, index_of_refraction: Ray::air() }
        }
    }

    /// The media of a refraction: `(from, to)`.
    pub fn media(&self, incoming: &Ray, alignment: Scalar) -> (r: (Scalar, Scalar))
        ensures
            r == self.media_of(*incoming, alignment),
    {
        if Scalar::zero().less_or_equal(&alignment) {
            (self.index_of_refraction, Scalar::from_bits(INDEX_OF_REFRACTION_AIR))
        } else {
            (incoming.index_of_refraction, self.index_of_refraction)
        }
    }

    /// The ray of a bounce. `draw` is a number drawn from `[0, 1)`,
    /// `alignment` the dot product of the incoming direction and the normal,
    /// `sine_squared` the squared sine of the angle of transmission, and
    /// `reflected` and `refracted` the directions that the law of reflection
    /// and Snell's law give.
    ///
    /// The ray is refracted when the draw exceeds the probability of
    /// reflection and a transmitted ray exists: it then starts at the hit and
    /// travels through the medium it enters. In every other case the material
    /// acts as a mirror, and `refracted` is not looked at.
    pub fn bounce(
        &self,
        incoming: &Ray,
        intersection: &Intersection,
        draw: Scalar,
        alignment: Scalar,
        sine_squared: Scalar,
        reflected: Vector3,
        refracted: Vector3,
    ) -> (r: Ray)
        ensures
            r == self.scattered(
                *incoming,
                *intersection,
                draw,
                alignment,
                sine_squared,
                reflected,
                refracted,
            ),
            Self::totally_reflected(sine_squared) ==> r.direction == reflected,
            r.direction == reflected || r.direction == refracted,
    {
        if self.reflect_prob.less_than(&draw) && !Scalar::one().less_than(&sine_squared) {
            let (_from, to) = self.media(incoming, alignment);
            Ray { origin: intersection.position, direction: refracted, index_of_refraction: to }
        } else {
            PerfectSpecularMaterial::bounce(incoming, reflected)
        }
    }

    /// The color of the material: white.
    pub fn color(&self) -> (r: Vector3)
        ensures
            r == white(),
    {
        Vector3 { x: Scalar::one(), y: Scalar::one(), z: Scalar::one() }
    }
}

} // verus!
