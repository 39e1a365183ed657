use vstd::prelude::*;

verus! {

/// Whether a surface faces a ray: the dot product of the ray's direction with
/// the surface's outward normal lies below zero. Both are order keys.
pub open spec fn faces(alignment: u64, zero: u64) -> bool {
    alignment < zero
}

/// Whether the ray strikes the surface from outside, given the order key of
/// the dot product of its direction with the outward normal and that of zero.
/// Where it does not, the ray is inside and the normal is to be turned round.
pub fn front_facing(alignment: u64, zero: u64) -> (r: bool)
    ensures
        r == faces(alignment, zero),
{
    alignment < zero
}

} // verus!
