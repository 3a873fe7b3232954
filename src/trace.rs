//! The integrator's control rules. Tracing one path alternates two questions:
//! did the ray hit a surface, and did that surface's material scatter it.
//! The answers (computed in floating point by the caller) decide whether the
//! path ends in the sky, ends black, or bounces on with one bounce fewer.
use vstd::prelude::*;

verus! {

/// What the integrator does next with the current ray.
#[derive(Clone, Copy, Debug, PartialEq, Eq, Structural)]
pub enum Step {
    /// The ray left the scene: the path's radiance is the sky's color for
    /// the ray's direction.
    Sky,
    /// The path ends with no light: the bounce budget was spent or the
    /// material absorbed the ray.
    Black,
    /// Ask the hit surface's material to scatter the ray.
    Scatter,
    /// Trace the scattered ray with this many bounces left, and weight the
    /// result by the scatter's attenuation.
    Bounce(usize),
}

/// The step after intersecting the scene with `bounces_left` bounces left.
pub open spec fn after_hit_test(bounces_left: nat, hit: bool) -> Step {
    if !hit {
        Step::Sky
    } else if bounces_left == 0 {
        Step::Black
    } else {
        Step::Scatter
    }
}

/// The step after a material was asked to scatter, with `bounces_left`
/// (at least one) bounces left.
pub open spec fn after_scatter(bounces_left: nat, scattered: bool) -> Step {
    if scattered {
        Step::Bounce((bounces_left - 1) as usize)
    } else {
        Step::Black
    }
}

/// Decides what follows an intersection test: a miss shows the sky; a hit
/// with no bounce left is black, whatever the material; otherwise the
/// material is asked.
pub fn on_hit_test(bounces_left: usize, hit: bool) -> (r: Step)
    ensures
        r == after_hit_test(bounces_left as nat, hit),
{
    if !hit {
        Step::Sky
    } else if bounces_left == 0 {
        Step::Black
    } else {
        Step::Scatter
    }
}

/// Decides what follows a scatter query: an absorbed ray is black; a
/// scattered one is traced on with one bounce fewer.
pub fn on_scatter(bounces_left: usize, scattered: bool) -> (r: Step)
    requires
        bounces_left > 0,
    ensures
        r == after_scatter(bounces_left as nat, scattered),
        r is Bounce ==> r->0 < bounces_left,
{
    if scattered {
        Step::Bounce(bounces_left - 1)
    } else {
        Step::Black
    }
}

/// How a path ended, after how many scatter events.
#[derive(Clone, Copy, Debug, PartialEq, Eq, Structural)]
pub enum PathEnd {
    /// The last ray reached the sky; the radiance is the sky's color times
    /// the attenuations of the scatters.
    Sky(usize),
    /// The path was cut (budget spent or ray absorbed); the radiance is black.
    Black(usize),
}

/// What one path vertex turned out to be, as reported by the geometry and
/// the material.
#[derive(Clone, Copy, Debug, PartialEq, Eq, Structural)]
pub enum Vertex {
    /// No surface was hit.
    Miss,
    /// A surface was hit and its material absorbed the ray.
    Absorbed,
    /// A surface was hit and its material scattered the ray.
    Scattered,
}

/// The end of a path traced with `bounces` bounces allowed, whose vertices
/// are `vs` in order (`scatters` scatters already taken). A vertex that
/// would be needed but is not listed counts as a miss.
pub open spec fn path_end(bounces: nat, vs: Seq<Vertex>, scatters: nat) -> PathEnd
    decreases vs.len(),
{
    if vs.len() == 0 || vs[0] is Miss {
        PathEnd::Sky(scatters as usize)
    } else if bounces == 0 || vs[0] is Absorbed {
        PathEnd::Black(scatters as usize)
    } else {
        path_end((bounces - 1) as nat, vs.drop_first(), scatters + 1)
    }
}

/// A ray that hits nothing ends in the sky at once, whatever the bounce
/// budget: in an empty scene every path's radiance is exactly the sky's
/// color for the camera ray's direction (no scatter, no attenuation).
pub proof fn lemma_miss_is_sky(bounces: nat, vs: Seq<Vertex>)
    requires
        vs.len() == 0 || vs[0] is Miss,
    ensures
        after_hit_test(bounces, false) == Step::Sky,
        path_end(bounces, vs, 0) == PathEnd::Sky(0),
{
}

/// With no bounce allowed, a ray that hits any surface is black, whatever
/// the material (which is not even asked), and a ray that hits nothing shows
/// the sky.
pub proof fn lemma_no_bounce_budget(vs: Seq<Vertex>)
    requires
        vs.len() > 0,
    ensures
        after_hit_test(0, true) == Step::Black,
        after_hit_test(0, false) == Step::Sky,
        vs[0] is Miss ==> path_end(0, vs, 0) == PathEnd::Sky(0),
        !(vs[0] is Miss) ==> path_end(0, vs, 0) == PathEnd::Black(0),
{
}

/// A path never scatters more often than its bounce budget allows.
pub proof fn lemma_scatters_within_budget(bounces: nat, vs: Seq<Vertex>, scatters: nat)
    requires
        scatters + bounces <= usize::MAX,
    ensures
        match path_end(bounces, vs, scatters) {
            PathEnd::Sky(n) => scatters <= n <= scatters + bounces,
            PathEnd::Black(n) => scatters <= n <= scatters + bounces,
        },
    decreases vs.len(),
{
    if vs.len() == 0 || vs[0] is Miss {
    } else if bounces == 0 || vs[0] is Absorbed {
    } else {
        lemma_scatters_within_budget((bounces - 1) as nat, vs.drop_first(), scatters + 1);
    }
}

/// Runs the integrator's rules along a path whose vertices are known in
/// advance and reports how it ends.
pub fn trace_path(max_bounces: usize, vertices: &Vec<Vertex>) -> (r: PathEnd)
    ensures
        r == path_end(max_bounces as nat, vertices@, 0),
        match r {
            PathEnd::Sky(n) => n <= max_bounces,
            PathEnd::Black(n) => n <= max_bounces,
        },
{
    proof {
        lemma_scatters_within_budget(max_bounces as nat, vertices@, 0);
    }
    let mut bounces_left: usize = max_bounces;
    let mut i: usize = 0;
    assert(vertices@.skip(0) =~= vertices@);
    while i < vertices.len()
        invariant
            i <= vertices@.len(),
            i + bounces_left == max_bounces,
            path_end(max_bounces as nat, vertices@, 0) == path_end(
                bounces_left as nat,
                vertices@.skip(i as int),
                i as nat,
            ),
        decreases vertices@.len() - i,
    {
        let v = vertices[i];
        assert(vertices@.skip(i as int)[0] == v);
        let step = on_hit_test(bounces_left, !matches!(v, Vertex::Miss));
        match step {
            Step::Sky => {
                return PathEnd::Sky(i);
            },
            Step::Black => {
                return PathEnd::Black(i);
            },
            _ => {},
        }
        let next = on_scatter(bounces_left, matches!(v, Vertex::Scattered));
        match next {
            Step::Bounce(n) => {
                assert(vertices@.skip(i as int).drop_first() =~= vertices@.skip(i + 1));
                bounces_left = n;
                i = i + 1;
            },
            _ => {
                return PathEnd::Black(i);
            },
        }
    }
    PathEnd::Sky(i)
}

} // verus!
