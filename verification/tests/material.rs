use nalgebra::{Point3 as Point, Vector3 as Vector};
use rand::rngs::StdRng;
use rand::{Rng, SeedableRng};
use renderer::intersection::Intersection;
use renderer::material::{
    PerfectDiffuseMaterial, PerfectRefractiveMaterial, PerfectSpecularMaterial,
};
use renderer::ray::{Ray, INDEX_OF_REFRACTION_AIR};
use renderer::scalar::Scalar;
use renderer::vector::{Point3, Vector3};
use std::f32::consts::PI;

fn scalar(value: f32) -> Scalar {
    Scalar::from_bits(value.to_bits())
}

fn number(value: Scalar) -> f32 {
    f32::from_bits(value.to_bits())
}

fn point(p: Point<f32>) -> Point3 {
    Point3::new(scalar(p.x), scalar(p.y), scalar(p.z))
}

fn vector(v: Vector<f32>) -> Vector3 {
    Vector3::new(scalar(v.x), scalar(v.y), scalar(v.z))
}

fn na_point(p: Point3) -> Point<f32> {
    Point::new(number(p.x), number(p.y), number(p.z))
}

fn na_vector(v: Vector3) -> Vector<f32> {
    Vector::new(number(v.x), number(v.y), number(v.z))
}

fn hit(position: Point<f32>, normal: Vector<f32>) -> Intersection {
    Intersection::new_from_distance(scalar(1.0), point(position), vector(normal)).unwrap()
}

fn reflect(direction: Vector<f32>, normal: Vector<f32>) -> Vector<f32> {
    (direction - normal * 2.0 * direction.dot(&normal)).normalize()
}

fn mirror_bounce(incoming: &Ray, intersection: &Intersection) -> Ray {
    let reflected = reflect(na_vector(incoming.direction), na_vector(intersection.normal));
    PerfectSpecularMaterial::bounce(incoming, vector(reflected))
}

fn diffuse_bounce(intersection: &Intersection, u1: f32, u2: f32) -> Ray {
    let r = u1.sqrt();
    let theta = 2.0 * PI * u2;
    let sample = Vector::new(r * theta.cos(), r * theta.sin(), (1.0 - u1).sqrt()).normalize();
    let alignment = sample.dot(&na_vector(intersection.normal));
    PerfectDiffuseMaterial::bounce(intersection, vector(sample), scalar(alignment))
}

fn glass_bounce(
    material: &PerfectRefractiveMaterial,
    incoming: &Ray,
    intersection: &Intersection,
    draw: f32,
) -> Ray {
    let direction = na_vector(incoming.direction);
    let normal = na_vector(intersection.normal);
    let alignment = direction.dot(&normal);
    let (from, to) = material.media(incoming, scalar(alignment));
    let ratio = number(from) / number(to);
    let cosine = -alignment;
    let sine_squared = ratio.powi(2) * (1.0 - cosine.powi(2));
    let refracted =
        (direction * ratio + normal * (ratio * cosine - (1.0 - sine_squared).sqrt())).normalize();
    material.bounce(
        incoming,
        intersection,
        scalar(draw),
        scalar(alignment),
        scalar(sine_squared),
        vector(reflect(direction, normal)),
        vector(refracted),
    )
}

fn glass(index: f32, reflect_prob: f32) -> PerfectRefractiveMaterial {
    PerfectRefractiveMaterial {
        index_of_refraction: scalar(index),
        reflect_prob: scalar(reflect_prob),
    }
}

fn air() -> f32 {
    f32::from_bits(INDEX_OF_REFRACTION_AIR)
}

#[test]
fn air_has_its_index_of_refraction() {
    assert_eq!(air(), 1.000293);
    let ray = Ray::new_from_air(point(Point::new(1.0, 2.0, 3.0)), vector(Vector::new(0.0, 1.0, 0.0)));
    assert_eq!(number(ray.index_of_refraction), 1.000293);
    assert_eq!(na_point(ray.origin), Point::new(1.0, 2.0, 3.0));
    assert_eq!(na_vector(ray.direction), Vector::new(0.0, 1.0, 0.0));
}

#[test]
fn mirror_obeys_the_law_of_reflection() {
    let normal = Vector::new(0.0, 1.0, 0.0);
    let direction = Vector::new(1.0, -2.0, 0.5).normalize();
    let incoming = Ray::new_from_air(point(Point::new(0.0, 4.0, 0.0)), vector(direction));
    let out = mirror_bounce(&incoming, &hit(Point::new(2.0, 0.0, 1.0), normal));
    let reflected = na_vector(out.direction);
    assert!((reflected.dot(&normal) + direction.dot(&normal)).abs() < 1.0e-6);
    assert!((reflected.norm() - 1.0).abs() < 1.0e-6);
    assert!((reflected - Vector::new(1.0, 2.0, 0.5).normalize()).norm() < 1.0e-6);
    assert_eq!(number(out.index_of_refraction), air());
    assert_eq!(na_point(out.origin), Point::new(0.0, 4.0, 0.0));
}

#[test]
fn mirror_bounce_keeps_the_direction_it_is_given() {
    let incoming = Ray::new_from_air(point(Point::new(1.0, 1.0, 1.0)), vector(Vector::new(0.0, 0.0, 1.0)));
    let reflected = vector(Vector::new(0.0, 1.0, 0.0));
    let out = PerfectSpecularMaterial::bounce(&incoming, reflected);
    assert_eq!(out.direction, reflected);
    assert_eq!(out.origin, incoming.origin);
    assert_ne!(out.direction, incoming.direction);
}

#[test]
fn diffuse_bounce_stays_above_the_surface() {
    let mut rng = StdRng::seed_from_u64(7);
    let normals = [
        Vector::new(0.0, 0.0, 1.0),
        Vector::new(0.0, 0.0, -1.0),
        Vector::new(1.0, 0.0, 0.0),
        Vector::new(0.0, -1.0, 0.0),
        Vector::new(1.0, 1.0, -1.0).normalize(),
    ];
    for normal in normals.iter() {
        let at = hit(Point::new(1.0, 2.0, 3.0), *normal);
        for _ in 0..2000 {
            let out = diffuse_bounce(&at, rng.gen::<f32>(), rng.gen::<f32>());
            let direction = na_vector(out.direction);
            assert!(direction.dot(normal) >= 0.0);
            assert!((direction.norm() - 1.0).abs() < 1.0e-5);
            assert_eq!(na_point(out.origin), Point::new(1.0, 2.0, 3.0));
            assert_eq!(number(out.index_of_refraction), air());
        }
    }
}

#[test]
fn diffuse_bounce_is_weighted_by_the_cosine() {
    let mut rng = StdRng::seed_from_u64(11);
    let normal = Vector::new(0.0, 0.0, 1.0);
    let at = hit(Point::new(0.0, 0.0, 0.0), normal);
    let trials = 40000;
    let mut sum = 0.0f64;
    for _ in 0..trials {
        let out = diffuse_bounce(&at, rng.gen::<f32>(), rng.gen::<f32>());
        sum += na_vector(out.direction).dot(&normal) as f64;
    }
    let mean = sum / trials as f64;
    // A cosine-weighted density has mean 2/3, a uniform one 1/2.
    assert!((mean - 2.0 / 3.0).abs() < 0.02, "mean {}", mean);
}

#[test]
fn diffuse_bounce_turns_a_sample_round_only_below_the_surface() {
    let at = hit(Point::new(0.0, 0.0, 0.0), Vector::new(0.0, 0.0, 1.0));
    let sample = vector(Vector::new(0.6, 0.0, 0.8));
    assert_eq!(PerfectDiffuseMaterial::bounce(&at, sample, scalar(0.8)).direction, sample);
    assert_eq!(PerfectDiffuseMaterial::bounce(&at, sample, scalar(0.0)).direction, sample);
    assert_eq!(PerfectDiffuseMaterial::bounce(&at, sample, scalar(-0.0)).direction, sample);
    let turned = PerfectDiffuseMaterial::bounce(&at, sample, scalar(-0.8)).direction;
    assert_eq!(na_vector(turned), Vector::new(-0.6, -0.0, -0.8));
    assert_eq!(turned, sample.negated());
}

#[test]
fn glass_reflects_when_the_draw_is_within_the_probability() {
    let material = glass(1.5, 0.25);
    let normal = Vector::new(0.0, 0.0, -1.0);
    let direction = Vector::new(0.6, 0.0, 0.8);
    let incoming = Ray::new_from_air(point(Point::new(0.0, 0.0, -5.0)), vector(direction));
    let at = hit(Point::new(3.0, 0.0, -1.0), normal);
    for draw in [0.0f32, 0.1, 0.25] {
        let out = glass_bounce(&material, &incoming, &at, draw);
        assert_eq!(out, mirror_bounce(&incoming, &at));
        assert!((na_vector(out.direction) - Vector::new(0.6, 0.0, -0.8)).norm() < 1.0e-6);
        assert_eq!(number(out.index_of_refraction), air());
    }
}

#[test]
fn glass_refracts_when_the_draw_exceeds_the_probability() {
    let material = glass(1.5, 0.25);
    let normal = Vector::new(0.0, 0.0, -1.0);
    let direction = Vector::new(0.6, 0.0, 0.8);
    let incoming = Ray::new_from_air(point(Point::new(0.0, 0.0, -5.0)), vector(direction));
    let at = hit(Point::new(3.0, 0.0, -1.0), normal);
    for draw in [0.26f32, 0.5, 0.999] {
        let out = glass_bounce(&material, &incoming, &at, draw);
        let refracted = na_vector(out.direction);
        assert_eq!(number(out.index_of_refraction), 1.5);
        assert_eq!(na_point(out.origin), Point::new(3.0, 0.0, -1.0));
        assert!((refracted.norm() - 1.0).abs() < 1.0e-6);
        // Snell's law: the sines of the two angles are as the indices.
        let sine_out = refracted.cross(&normal).norm();
        assert!((sine_out * 1.5 - 0.6 * air()).abs() < 1.0e-5);
        assert!(refracted.z > 0.0);
    }
}

#[test]
fn glass_passes_a_ray_straight_on_at_normal_incidence() {
    let material = glass(1.5, 0.0);
    let normal = Vector::new(0.0, 0.0, -1.0);
    let direction = Vector::new(0.0, 0.0, 1.0);
    let incoming = Ray::new_from_air(point(Point::new(0.0, 0.0, -5.0)), vector(direction));
    let out = glass_bounce(&material, &incoming, &hit(Point::new(0.0, 0.0, -1.0), normal), 0.5);
    assert!((na_vector(out.direction) - direction).norm() < 1.0e-6);
    assert_eq!(number(out.index_of_refraction), 1.5);
}

#[test]
fn glass_reflects_where_no_ray_can_be_transmitted() {
    let material = glass(1.5, 0.0);
    // The normal runs with the ray, so the ray leaves the glass, and it does
    // so at a grazing angle.
    let normal = Vector::new(0.0, 0.0, 1.0);
    let direction = Vector::new(0.8, 0.0, 0.6);
    let incoming = Ray {
        origin: point(Point::new(0.0, 0.0, 0.0)),
        direction: vector(direction),
        index_of_refraction: scalar(1.5),
    };
    let at = hit(Point::new(4.0, 0.0, 3.0), normal);
    let out = glass_bounce(&material, &incoming, &at, 0.999);
    let outgoing = na_vector(out.direction);
    assert!(outgoing.x.is_finite() && outgoing.y.is_finite() && outgoing.z.is_finite());
    assert!((outgoing.norm() - 1.0).abs() < 1.0e-6);
    assert!((outgoing - Vector::new(0.8, 0.0, -0.6)).norm() < 1.0e-6);
    assert_eq!(out, mirror_bounce(&incoming, &at));
}

#[test]
fn glass_ignores_the_refracted_direction_under_total_reflection() {
    let material = glass(1.5, 0.0);
    let incoming = Ray::new_from_air(point(Point::new(0.0, 0.0, 0.0)), vector(Vector::new(0.8, 0.0, 0.6)));
    let at = hit(Point::new(4.0, 0.0, 3.0), Vector::new(0.0, 0.0, 1.0));
    let reflected = vector(Vector::new(0.8, 0.0, -0.6));
    let invalid = vector(Vector::new(f32::NAN, f32::NAN, f32::NAN));
    let out = material.bounce(
        &incoming,
        &at,
        scalar(0.5),
        scalar(0.6),
        scalar(1.44),
        reflected,
        invalid,
    );
    assert_eq!(out.direction, reflected);
    let out = material.bounce(
        &incoming,
        &at,
        scalar(0.5),
        scalar(0.6),
        scalar(1.0),
        reflected,
        invalid,
    );
    assert_eq!(out.direction, invalid);
}

#[test]
fn media_follow_the_side_the_ray_comes_from() {
    let material = glass(1.44, 0.1);
    let mut incoming = Ray::new_from_air(point(Point::new(0.0, 0.0, 0.0)), vector(Vector::new(0.0, 0.0, 1.0)));
    incoming.index_of_refraction = scalar(1.2);
    let (from, to) = material.media(&incoming, scalar(-0.5));
    assert_eq!((number(from), number(to)), (1.2, 1.44));
    let (from, to) = material.media(&incoming, scalar(0.5));
    assert_eq!((number(from), number(to)), (1.44, air()));
    let (from, to) = material.media(&incoming, scalar(0.0));
    assert_eq!((number(from), number(to)), (1.44, air()));
    let (from, to) = material.media(&incoming, scalar(-0.0));
    assert_eq!((number(from), number(to)), (1.44, air()));
    let (from, to) = material.media(&incoming, scalar(f32::NAN));
    assert_eq!((number(from), number(to)), (1.2, 1.44));
}

#[test]
fn colors_are_white_unless_given() {
    let white = Vector::new(1.0, 1.0, 1.0);
    assert_eq!(na_vector(PerfectSpecularMaterial.color()), white);
    assert_eq!(na_vector(glass(1.5, 0.1).color()), white);
    let tinted = PerfectDiffuseMaterial { color: vector(Vector::new(0.5, 0.5, 0.9)) };
    assert_eq!(na_vector(tinted.color()), Vector::new(0.5, 0.5, 0.9));
}
