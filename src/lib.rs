//! Verified core of a path tracer of spheres: the decisions that pick which
//! surface a ray strikes, how it bounces and when it stops, and the text of the
//! image it produces.
//!
//! Real quantities (distances along a ray, dot products, probabilities) reach
//! the library as order keys: unsigned integers that compare exactly as the
//! quantities they stand for. The geometry that yields them is computed by the
//! caller.
use vstd::prelude::*;

pub mod bounce;
pub mod dielectric;
pub mod hit_point;
pub mod ppm;
pub mod sphere;
pub mod world;

verus! {

} // verus!
