use vstd::prelude::*;

use crate::sphere::Roots;

verus! {

/// The distance that an object reports within `(t_min, t_max)`; an object that
/// the ray misses altogether (`None`) reports none.
pub open spec fn object_hit(object: Option<Roots>, t_min: u64, t_max: u64) -> Option<u64> {
    match object {
        Some(roots) => roots.accepted(t_min, t_max),
        None => None,
    }
}

/// Every object's roots are in order.
pub open spec fn all_wf(objects: Seq<Option<Roots>>) -> bool {
    forall|j: int| 0 <= j < objects.len() && objects[j] is Some ==> (#[trigger] objects[j])->0.wf()
}

/// `found` is the nearest hit among the first `n` objects: the object, and the
/// distance, whose reported hit no other object's undercuts, the earliest such
/// object on a tie; none when no object among them is hit.
pub open spec fn is_nearest_among(
    objects: Seq<Option<Roots>>,
    n: int,
    t_min: u64,
    t_max: u64,
    found: Option<(usize, u64)>,
) -> bool {
    match found {
        None => forall|j: int| 0 <= j < n ==> (#[trigger] object_hit(objects[j], t_min, t_max)) is None,
        Some((i, t)) => {
            &&& 0 <= i < n
            &&& object_hit(objects[i as int], t_min, t_max) == Some(t)
            &&& forall|j: int|
                0 <= j < n && (#[trigger] object_hit(objects[j], t_min, t_max)) is Some ==> t
                    <= object_hit(objects[j], t_min, t_max)->0
            &&& forall|j: int|
                0 <= j < i && (#[trigger] object_hit(objects[j], t_min, t_max)) is Some ==> t
                    < object_hit(objects[j], t_min, t_max)->0
        },
    }
}

/// `found` is the nearest hit of the whole scene within `(t_min, t_max)`.
pub open spec fn is_nearest(
    objects: Seq<Option<Roots>>,
    t_min: u64,
    t_max: u64,
    found: Option<(usize, u64)>,
) -> bool {
    is_nearest_among(objects, objects.len() as int, t_min, t_max, found)
}

/// The nearest hit of a scene within `(t_min, t_max)`: which object, and at
/// what distance. `objects[j]` holds the roots at which the ray meets object
/// `j`, or `None` where it misses it. The objects are scanned in order, each
/// queried with the window narrowed to the closest hit found so far.
pub fn nearest_hit(objects: &Vec<Option<Roots>>, t_min: u64, t_max: u64) -> (found: Option<(usize, u64)>)
    requires
        all_wf(objects@),
    ensures
        is_nearest(objects@, t_min, t_max, found),
{
    let mut closest_so_far: u64 = t_max;
    let mut found: Option<(usize, u64)> = None;
    let mut k: usize = 0;
    while k < objects.len()
        invariant
            k <= objects.len(),
            all_wf(objects@),
            is_nearest_among(objects@, k as int, t_min, t_max, found),
            closest_so_far <= t_max,
            closest_so_far == match found {
                Some((_, t)) => t,
                None => t_max,
            },
        decreases objects.len() - k,
    {
        if let Some(roots) = objects[k] {
            proof {
                assert(objects@[k as int] is Some);
                crate::sphere::lemma_accepted_narrowed(roots, t_min, closest_so_far, t_max);
            }
            if let Some(t) = roots.hit_within(t_min, closest_so_far) {
                closest_so_far = t;
                found = Some((k, t));
            }
        }
        k += 1;
    }
    found
}

/// Where the ray hits two objects within the window, one nearer than the
/// other, the nearest hit of the scene is never the farther object, and lies no
/// farther along the ray than the nearer object's hit.
pub proof fn lemma_nearer_object_hides_farther(
    objects: Seq<Option<Roots>>,
    t_min: u64,
    t_max: u64,
    nearer: int,
    farther: int,
)
    requires
        0 <= nearer < objects.len(),
        0 <= farther < objects.len(),
        object_hit(objects[nearer], t_min, t_max) is Some,
        object_hit(objects[farther], t_min, t_max) is Some,
        object_hit(objects[nearer], t_min, t_max)->0 < object_hit(objects[farther], t_min, t_max)->0,
    ensures
        forall|found: Option<(usize, u64)>|
            #[trigger] is_nearest(objects, t_min, t_max, found) ==> {
                &&& found is Some
                &&& (found->0).0 != farther
                &&& (found->0).1 <= object_hit(objects[nearer], t_min, t_max)->0
            },
{
    assert forall|found: Option<(usize, u64)>|
        #[trigger] is_nearest(objects, t_min, t_max, found) implies {
            &&& found is Some
            &&& (found->0).0 != farther
            &&& (found->0).1 <= object_hit(objects[nearer], t_min, t_max)->0
        } by {
        if found is None {
            assert(object_hit(objects[nearer], t_min, t_max) is None);
        } else {
            assert(object_hit(objects[nearer], t_min, t_max) is Some);
        }
    }
}

/// The distance of the nearest hit does not depend on the order in which the
/// objects are scanned: two scenes that hold the same objects, in any order,
/// are both missed or both hit at the same distance.
pub proof fn lemma_nearest_distance_ignores_order(
    a: Seq<Option<Roots>>,
    b: Seq<Option<Roots>>,
    t_min: u64,
    t_max: u64,
)
    requires
        forall|i: int| 0 <= i < a.len() ==> b.contains(#[trigger] a[i]),
        forall|j: int| 0 <= j < b.len() ==> a.contains(#[trigger] b[j]),
    ensures
        forall|fa: Option<(usize, u64)>, fb: Option<(usize, u64)>|
            #[trigger] is_nearest(a, t_min, t_max, fa) && #[trigger] is_nearest(b, t_min, t_max, fb)
                ==> {
                &&& (fa is None <==> fb is None)
                &&& fa is Some ==> (fa->0).1 == (fb->0).1
            },
{
    assert forall|fa: Option<(usize, u64)>, fb: Option<(usize, u64)>|
        #[trigger] is_nearest(a, t_min, t_max, fa) && #[trigger] is_nearest(b, t_min, t_max, fb)
            implies {
            &&& (fa is None <==> fb is None)
            &&& fa is Some ==> (fa->0).1 == (fb->0).1
        } by {
        if let Some((i, t)) = fa {
            let j = choose|j: int| 0 <= j < b.len() && b[j] == a[i as int];
            assert(object_hit(b[j], t_min, t_max) == Some(t));
            if let Some((i2, t2)) = fb {
                let k = choose|k: int| 0 <= k < a.len() && a[k] == b[i2 as int];
                assert(object_hit(a[k], t_min, t_max) == Some(t2));
            }
        }
        if let Some((i2, t2)) = fb {
            let k = choose|k: int| 0 <= k < a.len() && a[k] == b[i2 as int];
            assert(object_hit(a[k], t_min, t_max) == Some(t2));
        }
    }
}

} // verus!
