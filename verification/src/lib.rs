//! The decision core of a small stochastic ray tracer.
//!
//! A renderer of spheres is arithmetic on doubles, which rounds, and a set
//! of decisions taken on the results: which root of a quadratic counts as a
//! hit, which of many hits is nearest, whether a surface reflects, refracts
//! or absorbs, when a light path ends, which byte a colour becomes. This
//! crate holds the decisions. Numbers enter it as bit patterns
//! ([`scalar::Scalar`]); whoever drives the renderer does the arithmetic and
//! asks here at every branch.

pub mod scalar;
pub mod interval;
pub mod vector;
pub mod ray;
pub mod material;
pub mod hittable;
pub mod color;
pub mod camera;
