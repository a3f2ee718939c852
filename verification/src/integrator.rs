//! Integrators: what turns a place on the screen into radiance.

use vstd::prelude::*;
use crate::camera::{Camera, Coordinate};
use crate::material::{MaterialBox, ReflectiveMaterial};
use crate::ray::Ray;
use crate::renderer::{fault, validate, ConfigError};
use crate::scalar::Scalar;
use crate::scene::{nearest, Scene};
use crate::surface::Surface;
use crate::vector::Vector3;

verus! {

/// Light, by its red, green and blue parts.
#[derive(Clone, Copy, PartialEq, Eq, Structural, Debug)]
pub struct Radiance {
    pub red: Scalar,
    pub green: Scalar,
    pub blue: Scalar,
}

impl Radiance {
    /// No light at all.
    pub open spec fn black() -> Radiance {
        Radiance { red: Scalar { bits: 0 }, green: Scalar { bits: 0 }, blue: Scalar { bits: 0 } }
    }

    /// Light of the same strength in every part.
    pub open spec fn uniform(strength: Scalar) -> Radiance {
        Radiance { red: strength, green: strength, blue: strength }
    }

    /// No light at all.
    pub fn zero() -> (r: Radiance)
        ensures
            r == Radiance::black(),
    {
        Radiance { red: Scalar::zero(), green: Scalar::zero(), blue: Scalar::zero() }
    }

    /// Light of the same strength in every part.
    pub fn gray(strength: Scalar) -> (r: Radiance)
        ensures
            r == Radiance::uniform(strength),
    {
        Radiance { red: strength, green: strength, blue: strength }
    }
}

/// A solver of the rendering equation.
pub trait Integrator {
    /// The radiance that reaches the eye through `position` on the screen.
    /// An integrator may draw on chance: two calls for one position need not
    /// agree.
    fn integrate(&self, position: (Coordinate, Coordinate)) -> (r: Radiance)
        requires
            position.0.well_formed(),
            position.1.well_formed(),
        ensures
            self.answers(position, r),
    ;

    /// Whether `radiance` is an answer that the integrator can give for
    /// `position`. An integrator that says nothing of its answers leaves
    /// this as it is.
    open spec fn answers(&self, position: (Coordinate, Coordinate), radiance: Radiance) -> bool {
        true
    }
}

/// A solver of the rendering equation by path tracing, a Monte Carlo method.
pub struct MonteCarloIntegrator<'a, S, M> {
    pub camera: &'a Camera,
    pub scene: &'a Scene<S, M>,
    /// Image dimensions.
    pub width: usize,
    pub height: usize,
    /// How many samples are collected for each pixel.
    pub samples_per_pixel: u32,
    /// How many bounces a path is followed before it is given up.
    pub max_bounces: u32,
}

/// Whether a path that starts along `ray`, goes on along `bounces` from one
/// reflective hit to the next and is followed for at most `depth` hits brings
/// back the radiance `r`.
///
/// A path of depth zero brings back nothing, and so does one that leaves the
/// scene. A path that reaches a light brings back its emissivity. A path that
/// reaches a reflective object goes on along the next of the bounces, which
/// is a ray that the object's material can give there, with one hit less to
/// go.
pub open spec fn follows<S: Surface, M: ReflectiveMaterial>(
    scene: &Scene<S, M>,
    ray: Ray,
    bounces: Seq<Ray>,
    depth: nat,
    r: Radiance,
) -> bool
    decreases depth,
{
    if depth == 0 {
        r == Radiance::black()
    } else {
        match nearest(scene.hits(ray)) {
            None => r == Radiance::black(),
            Some(k) => match scene.objects@[k].material {
                MaterialBox::Emissive(light) => r == Radiance::uniform(light.emissivity),
                MaterialBox::Reflective(material) => {
                    &&& bounces.len() > 0
                    &&& material.scatters(ray, scene.hits(ray)[k]->0, bounces[0])
                    &&& follows(scene, bounces[0], bounces.drop_first(), (depth - 1) as nat, r)
                },
            },
        }
    }
}

/// Whether a path that starts along `ray` and is followed for at most `depth`
/// hits can bring back the radiance `r`, along some rays that its bounces
/// can give.
pub open spec fn traces_to<S: Surface, M: ReflectiveMaterial>(
    scene: &Scene<S, M>,
    ray: Ray,
    depth: nat,
    r: Radiance,
) -> bool {
    exists|bounces: Seq<Ray>| #[trigger] follows(scene, ray, bounces, depth, r)
}

/// A path of depth zero brings back no light.
pub proof fn lemma_depth_zero<S: Surface, M: ReflectiveMaterial>(
    scene: &Scene<S, M>,
    ray: Ray,
    r: Radiance,
)
    requires
        traces_to(scene, ray, 0, r),
    ensures
        r == Radiance::black(),
{
}

/// In a scene without objects every path brings back no light, whatever its
/// depth.
pub proof fn lemma_empty_scene<S: Surface, M: ReflectiveMaterial>(
    scene: &Scene<S, M>,
    ray: Ray,
    depth: nat,
    r: Radiance,
)
    requires
        scene.objects@.len() == 0,
        traces_to(scene, ray, depth, r),
    ensures
        r == Radiance::black(),
{
    if depth > 0 {
        let hits = scene.hits(ray);
        assert(hits.len() == 0);
        assert(nearest(hits) is None);
    }
}

/// A path whose first hit is a light brings back that light's emissivity, if
/// it is followed at all.
pub proof fn lemma_first_hit_emissive<S: Surface, M: ReflectiveMaterial>(
    scene: &Scene<S, M>,
    ray: Ray,
    depth: nat,
    r: Radiance,
    k: int,
)
    requires
        depth > 0,
        nearest(scene.hits(ray)) == Some(k),
        scene.objects@[k].material is Emissive,
        traces_to(scene, ray, depth, r),
    ensures
        r == Radiance::uniform(scene.objects@[k].material->Emissive_0.emissivity),
{
}

/// Whether `r` is no light, or the emissivity of a light of the scene.
pub open spec fn from_a_light<S: Surface, M>(scene: &Scene<S, M>, r: Radiance) -> bool {
    r == Radiance::black() || exists|k: int|
        0 <= k < scene.objects@.len() && #[trigger] scene.objects@[k].material is Emissive && r
            == Radiance::uniform(scene.objects@[k].material->Emissive_0.emissivity)
}

proof fn lemma_follows_to_a_light<S: Surface, M: ReflectiveMaterial>(
    scene: &Scene<S, M>,
    ray: Ray,
    bounces: Seq<Ray>,
    depth: nat,
    r: Radiance,
)
    requires
        follows(scene, ray, bounces, depth, r),
    ensures
        from_a_light(scene, r),
    decreases depth,
{
    if depth > 0 {
        match nearest(scene.hits(ray)) {
            None => {},
            Some(k) => {
                let hits = scene.hits(ray);
                let c = choose|c: int| crate::scene::nearest_among(hits, hits.len() as int, c);
                assert(c == k);
                assert(0 <= k < scene.objects@.len());
                match scene.objects@[k].material {
                    MaterialBox::Emissive(_) => {},
                    MaterialBox::Reflective(_) => {
                        lemma_follows_to_a_light(
                            scene,
                            bounces[0],
                            bounces.drop_first(),
                            (depth - 1) as nat,
                            r,
                        );
                    },
                }
            },
        }
    }
}

/// Whatever a path brings back is no light, or the emissivity of a light of
/// the scene: nothing else gives off light, and a bounce passes on what it
/// gets.
pub proof fn lemma_light_comes_from_lights<S: Surface, M: ReflectiveMaterial>(
    scene: &Scene<S, M>,
    ray: Ray,
    depth: nat,
    r: Radiance,
)
    requires
        traces_to(scene, ray, depth, r),
    ensures
        from_a_light(scene, r),
{
    let bounces = choose|bounces: Seq<Ray>| #[trigger] follows(scene, ray, bounces, depth, r);
    lemma_follows_to_a_light(scene, ray, bounces, depth, r);
}

/// The emissivity of the light that `ray` meets before anything else, if
/// what it meets first is a light.
pub open spec fn seen_directly<S: Surface, M>(scene: &Scene<S, M>, ray: Ray) -> Option<Scalar> {
    match nearest(scene.hits(ray)) {
        None => None,
        Some(k) => match scene.objects@[k].material {
            MaterialBox::Emissive(light) => Some(light.emissivity),
            MaterialBox::Reflective(_) => None,
        },
    }
}

/// The primary ray of a camera along `direction`.
pub open spec fn primary(camera: &Camera, direction: Vector3) -> Ray {
    Ray { origin: camera.position, direction, index_of_refraction: Ray::air() }
}

impl<'a, S: Surface, M: ReflectiveMaterial> MonteCarloIntegrator<'a, S, M> {
    /// The radiance that comes back along `ray` when its path is followed for
    /// at most `remaining_depth` hits.
    pub fn trace_with_depth(&self, ray: &Ray, remaining_depth: u32) -> (r: Radiance)
        ensures
            traces_to(self.scene, *ray, remaining_depth as nat, r),
            remaining_depth == 0 ==> r == Radiance::black(),
            self.scene.objects@.len() == 0 ==> r == Radiance::black(),
        decreases remaining_depth,
    {
        if remaining_depth == 0 {
            let r = Radiance::zero();
            assert(follows(self.scene, *ray, Seq::empty(), 0, r));
            return r;
        }
        let r = match self.scene.intersects(ray) {
            Some((intersection, object)) => {
                match &object.material {
                    MaterialBox::Emissive(light) => {
                        let r = Radiance::gray(light.emissivity);
                        assert(follows(self.scene, *ray, Seq::empty(), remaining_depth as nat, r));
                        r
                    },
                    MaterialBox::Reflective(material) => {
                        let next = material.bounce(ray, &intersection);
                        let r = self.trace_with_depth(&next, remaining_depth - 1);
                        proof {
                            let rest = choose|rest: Seq<Ray>| #[trigger]
                                follows(self.scene, next, rest, (remaining_depth - 1) as nat, r);
                            let bounces = seq![next] + rest;
                            assert(bounces.drop_first() =~= rest);
                            assert(follows(self.scene, *ray, bounces, remaining_depth as nat, r));
                        }
                        r
                    },
                }
            },
            None => {
                let r = Radiance::zero();
                assert(follows(self.scene, *ray, Seq::empty(), remaining_depth as nat, r));
                r
            },
        };
        proof {
            if self.scene.objects@.len() == 0 {
                lemma_empty_scene(self.scene, *ray, remaining_depth as nat, r);
            }
        }
        r
    }

    /// The radiance that comes back along a primary ray. Its path is followed
    /// to its first hit and from there for at most `max_bounces` bounces: a
    /// light that the ray meets directly needs no bounce, and each reflective
    /// hit on the way to a light takes one.
    pub fn trace(&self, ray: &Ray) -> (r: Radiance)
        ensures
            traces_to(self.scene, *ray, self.max_bounces as nat + 1, r),
            seen_directly(self.scene, *ray) matches Some(emissivity) ==> r == Radiance::uniform(
                emissivity,
            ),
            nearest(self.scene.hits(*ray)) is None ==> r == Radiance::black(),
            self.scene.objects@.len() == 0 ==> r == Radiance::black(),
    {
        let ghost depth = self.max_bounces as nat + 1;
        let r = match self.scene.intersects(ray) {
            Some((intersection, object)) => {
                match &object.material {
                    MaterialBox::Emissive(light) => {
                        let r = Radiance::gray(light.emissivity);
                        assert(follows(self.scene, *ray, Seq::empty(), depth, r));
                        r
                    },
                    MaterialBox::Reflective(material) => {
                        let next = material.bounce(ray, &intersection);
                        let r = self.trace_with_depth(&next, self.max_bounces);
                        proof {
                            let rest = choose|rest: Seq<Ray>| #[trigger]
                                follows(self.scene, next, rest, self.max_bounces as nat, r);
                            let bounces = seq![next] + rest;
                            assert(bounces.drop_first() =~= rest);
                            assert(follows(self.scene, *ray, bounces, depth, r));
                        }
                        r
                    },
                }
            },
            None => {
                let r = Radiance::zero();
                assert(follows(self.scene, *ray, Seq::empty(), depth, r));
                r
            },
        };
        proof {
            if self.scene.objects@.len() == 0 {
                lemma_empty_scene(self.scene, *ray, depth, r);
            }
        }
        r
    }

    /// The radiance that each sample of a pixel brings back. `directions`
    /// holds, for each sample, the direction from the eye through the place
    /// on the screen that the sample was jittered to. The radiance of the
    /// pixel is the mean of what is returned.
    ///
    /// Each sample is traced along the primary ray of its direction, to the
    /// first hit and from there for at most `max_bounces` bounces. So a
    /// sample whose ray meets a light before anything else brings back that
    /// light's emissivity, however few bounces are allowed, and in a scene
    /// without objects every sample is black.
    ///
    /// The configuration is validated first: an image without columns or rows
    /// and a pixel without samples are turned down, and so is a number of
    /// directions other than the number of samples.
    pub fn integrate(&self, directions: &Vec<Vector3>) -> (r: Result<Vec<Radiance>, ConfigError>)
        ensures
            r is Ok <==> fault(self.width, self.height, self.samples_per_pixel) is None
                && directions@.len() == self.samples_per_pixel,
            r matches Err(e) ==> Some(e) == fault(self.width, self.height, self.samples_per_pixel)
                || (fault(self.width, self.height, self.samples_per_pixel) is None && e
                == ConfigError::SampleCount),
            r matches Ok(samples) ==> {
                &&& samples@.len() == directions@.len()
                &&& forall|i: int|
                    0 <= i < samples@.len() ==> traces_to(
                        self.scene,
                        primary(self.camera, directions@[i]),
                        self.max_bounces as nat + 1,
                        #[trigger] samples@[i],
                    )
                &&& forall|i: int|
                    0 <= i < samples@.len() ==> (seen_directly(
                        self.scene,
                        primary(self.camera, directions@[i]),
                    ) matches Some(emissivity) ==> #[trigger] samples@[i] == Radiance::uniform(
                        emissivity,
                    ))
                &&& self.scene.objects@.len() == 0 ==> forall|i: int|
                    0 <= i < samples@.len() ==> #[trigger] samples@[i] == Radiance::black()
            },
    {
        match validate(self.width, self.height, self.samples_per_pixel) {
            Err(e) => {
                return Err(e);
            },
            Ok(_) => {},
        }
        if directions.len() != self.samples_per_pixel as usize {
            return Err(ConfigError::SampleCount);
        }
        let mut samples: Vec<Radiance> = Vec::new();
        let mut i: usize = 0;
        while i < directions.len()
            invariant
                i <= directions@.len(),
                samples@.len() == i,
                forall|j: int|
                    0 <= j < i ==> traces_to(
                        self.scene,
                        primary(self.camera, directions@[j]),
                        self.max_bounces as nat + 1,
                        #[trigger] samples@[j],
                    ),
                forall|j: int|
                    0 <= j < i ==> (seen_directly(
                        self.scene,
                        primary(self.camera, directions@[j]),
                    ) matches Some(emissivity) ==> #[trigger] samples@[j] == Radiance::uniform(
                        emissivity,
                    )),
                self.scene.objects@.len() == 0 ==> forall|j: int|
                    0 <= j < i ==> #[trigger] samples@[j] == Radiance::black(),
            decreases directions@.len() - i,
        {
            let ray = self.camera.get_ray(directions[i]);
            let contribution = self.trace(&ray);
            samples.push(contribution);
            i = i + 1;
        }
        Ok(samples)
    }
}

} // verus!
