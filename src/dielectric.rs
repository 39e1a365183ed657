use vstd::prelude::*;

verus! {

/// Which way a ray leaves the surface of a dielectric.
#[derive(Clone, Copy, Debug, PartialEq, Eq, Structural)]
pub enum Bend {
    Reflect,
    Refract,
}

/// The way a ray leaves a dielectric. `sine_ratio` is the ratio of refractive
/// indices times the sine of the angle of incidence, and `one` is the unit;
/// `draw` is a uniform draw from `[0, 1)` and `reflectance` the probability of
/// reflection that Schlick's approximation gives. Beyond the unit no refracted
/// ray exists (total internal reflection); otherwise the draw picks.
pub open spec fn bend_of(sine_ratio: u64, one: u64, draw: u64, reflectance: u64) -> Bend {
    if sine_ratio > one {
        Bend::Reflect
    } else if draw < reflectance {
        Bend::Reflect
    } else {
        Bend::Refract
    }
}

/// Chooses between reflection and refraction at a dielectric surface; all four
/// arguments are order keys of the real quantities that `bend_of` names.
pub fn choose_bend(sine_ratio: u64, one: u64, draw: u64, reflectance: u64) -> (r: Bend)
    ensures
        r == bend_of(sine_ratio, one, draw, reflectance),
{
    if sine_ratio > one {
        Bend::Reflect
    } else if draw < reflectance {
        Bend::Reflect
    } else {
        Bend::Refract
    }
}

/// A ray that meets the boundary at an angle whose sine, times the ratio of
/// refractive indices, exceeds one is reflected whatever the random draw.
pub proof fn lemma_total_internal_reflection(sine_ratio: u64, one: u64, reflectance: u64)
    requires
        sine_ratio > one,
    ensures
        forall|draw: u64| #[trigger] bend_of(sine_ratio, one, draw, reflectance) == Bend::Reflect,
{
}

} // verus!
