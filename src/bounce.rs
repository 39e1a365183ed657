use vstd::prelude::*;

verus! {

/// Times a ray may bounce off surfaces before it carries no more light.
pub const RAY_BOUNCE_LIMIT: u8 = 50;

/// The bounce budget of the ray that scatters from a ray with `depth` bounces
/// left; `None` when none are left, and the ray contributes black.
pub open spec fn depth_after(depth: u8) -> Option<u8> {
    if depth == 0 {
        None
    } else {
        Some((depth - 1) as u8)
    }
}

/// How many times a ray traced with `depth` bounces left is scattered, where
/// `hits[k]` says whether the ray's `k`-th query of the scene struck a surface:
/// a ray that strikes nothing takes the sky's color and goes no further.
pub open spec fn scatter_count(depth: u8, hits: Seq<bool>) -> nat
    decreases hits.len(),
{
    match depth_after(depth) {
        None => 0,
        Some(next) => if hits.len() > 0 && hits[0] {
            1 + scatter_count(next, hits.drop_first())
        } else {
            0
        },
    }
}

/// The bounce budget of the ray that scatters from a ray with `depth` bounces
/// left, or `None` where the ray has run out of bounces.
pub fn next_depth(depth: u8) -> (r: Option<u8>)
    ensures
        r == depth_after(depth),
{
    if depth == 0 {
        None
    } else {
        Some(depth - 1)
    }
}

/// A ray traced with a budget of `depth` bounces is scattered at most `depth`
/// times, whatever it strikes: tracing ends even where a ray is trapped
/// between mirrors.
pub proof fn lemma_tracing_ends(depth: u8, hits: Seq<bool>)
    ensures
        scatter_count(depth, hits) <= depth,
    decreases hits.len(),
{
    if depth > 0 && hits.len() > 0 && hits[0] {
        lemma_tracing_ends((depth - 1) as u8, hits.drop_first());
    }
}

} // verus!
