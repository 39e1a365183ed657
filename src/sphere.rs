use vstd::prelude::*;

verus! {

// Distances along a ray are carried as order keys: unsigned integers that
// compare as the distances they stand for. Window bounds are exclusive.

/// Whether `t` lies strictly between `t_min` and `t_max`.
pub open spec fn within(t: u64, t_min: u64, t_max: u64) -> bool {
    t_min < t && t < t_max
}

/// The two distances at which a ray meets a sphere's surface, nearer first.
/// A ray that grazes the sphere meets it at one distance, held twice.
#[derive(Clone, Copy, Debug, PartialEq, Eq, Structural)]
pub struct Roots {
    pub near: u64,
    pub far: u64,
}

impl Roots {
    /// The nearer root never lies beyond the farther one.
    pub open spec fn wf(self) -> bool {
        self.near <= self.far
    }

    /// The root reported for the window `(t_min, t_max)`: the nearer root if it
    /// lies inside, else the farther one if it does, else none.
    pub open spec fn accepted(self, t_min: u64, t_max: u64) -> Option<u64> {
        if within(self.near, t_min, t_max) {
            Some(self.near)
        } else if within(self.far, t_min, t_max) {
            Some(self.far)
        } else {
            None
        }
    }

    /// The roots of a quadratic, given in either order.
    pub fn new(t0: u64, t1: u64) -> (r: Roots)
        ensures
            r.wf(),
            t0 <= t1 ==> r.near == t0 && r.far == t1,
            t1 < t0 ==> r.near == t1 && r.far == t0,
    {
        if t0 <= t1 {
            Roots { near: t0, far: t1 }
        } else {
            Roots { near: t1, far: t0 }
        }
    }

    /// The distance at which a ray that meets the sphere at these roots is
    /// reported as hitting it within `(t_min, t_max)`: the smaller root is tried
    /// first, so the nearest valid intersection is the one reported.
    pub fn hit_within(&self, t_min: u64, t_max: u64) -> (r: Option<u64>)
        ensures
            r == self.accepted(t_min, t_max),
    {
        if t_min < self.near && self.near < t_max {
            Some(self.near)
        } else if t_min < self.far && self.far < t_max {
            Some(self.far)
        } else {
            None
        }
    }
}

/// What a window that narrows to `t_max` reports, compared with the wider
/// window it narrows from: a root nearer than the new bound is still reported,
/// any other is not.
pub proof fn lemma_accepted_narrowed(r: Roots, t_min: u64, t_max: u64, wide_max: u64)
    requires
        r.wf(),
        t_max <= wide_max,
    ensures
        r.accepted(t_min, wide_max) is None ==> r.accepted(t_min, t_max) is None,
        r.accepted(t_min, wide_max) is Some ==> (if r.accepted(t_min, wide_max)->0 < t_max {
            r.accepted(t_min, t_max) == r.accepted(t_min, wide_max)
        } else {
            r.accepted(t_min, t_max) is None
        }),
{
}

/// A sphere reports the nearest of its roots that lies inside the window, and
/// reports none exactly when neither root lies inside.
pub proof fn lemma_nearest_root_reported(r: Roots, t_min: u64, t_max: u64)
    requires
        r.wf(),
    ensures
        r.accepted(t_min, t_max) is None <==> !within(r.near, t_min, t_max) && !within(
            r.far,
            t_min,
            t_max,
        ),
        r.accepted(t_min, t_max) is Some ==> {
            let t = r.accepted(t_min, t_max)->0;
            &&& within(t, t_min, t_max)
            &&& (t == r.near || t == r.far)
            &&& within(r.near, t_min, t_max) ==> t <= r.near
            &&& within(r.far, t_min, t_max) ==> t <= r.far
        },
{
}

} // verus!
