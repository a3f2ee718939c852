//! The control core of a Monte Carlo path tracer.
//!
//! The library owns the scene vocabulary, the nearest-hit query, the bounded
//! recursive trace and the pixel grid, and it decides every accept, reject
//! and branch of the geometry and of the scattering models. Numbers travel
//! through it as [`scalar::Scalar`] encodings; the arithmetic that produces
//! them belongs to the embedding program, which supplies it by implementing
//! [`surface::Surface`], [`material::ReflectiveMaterial`] and
//! [`integrator::Integrator`]. The rendered image is kept in a matrix of
//! `nalgebra`.

pub mod camera;
pub mod integrator;
pub mod intersection;
pub mod material;
pub mod object;
pub mod ray;
pub mod render;
pub mod renderer;
pub mod scalar;
pub mod scene;
pub mod surface;
pub mod vector;
