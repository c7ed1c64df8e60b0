//! Chaikin's corner-cutting step for an open polyline, anchored at both ends.

use vstd::arithmetic::power2::{lemma2_to64, lemma_pow2_unfold, pow2};
use vstd::prelude::*;

verus! {

/// Weight, in quarters, of the endpoint a cut point lies next to.
pub const NEAR_WEIGHT: u8 = 3;

/// Weight, in quarters, of the endpoint a cut point lies away from.
pub const FAR_WEIGHT: u8 = 1;

/// The blend may be called on both ends of segment `i` of `src`, from
/// `src[i]` to `src[i + 1]`, with either of the two weightings that corner
/// cutting uses.
pub open spec fn accepts_segment<P, F: Fn(P, u8, P, u8) -> P>(blend: F, src: Seq<P>, i: int) -> bool {
    &&& blend.requires((src[i], NEAR_WEIGHT, src[i + 1], FAR_WEIGHT))
    &&& blend.requires((src[i], FAR_WEIGHT, src[i + 1], NEAR_WEIGHT))
}

/// The blend may be called on every segment of `src`.
pub open spec fn accepts_segments<P, F: Fn(P, u8, P, u8) -> P>(blend: F, src: Seq<P>) -> bool {
    forall|i: int| 0 <= i < src.len() - 1 ==> #[trigger] accepts_segment(blend, src, i)
}

/// The blend may be called on any two points with either of the two
/// weightings that corner cutting uses.
pub open spec fn blend_total<P, F: Fn(P, u8, P, u8) -> P>(blend: F) -> bool {
    forall|a: P, b: P|
        #![trigger blend.requires((a, NEAR_WEIGHT, b, FAR_WEIGHT))]
        #![trigger blend.requires((a, FAR_WEIGHT, b, NEAR_WEIGHT))]
        blend.requires((a, NEAR_WEIGHT, b, FAR_WEIGHT)) && blend.requires(
            (a, FAR_WEIGHT, b, NEAR_WEIGHT),
        )
}

/// Segment `i` of `src`, from `src[i]` to `src[i + 1]`, is cut in `out`: the
/// point a quarter of the way along it stands at `2i + 1`, the point three
/// quarters of the way along it at `2i + 2`.
pub open spec fn cuts_segment<P, F: Fn(P, u8, P, u8) -> P>(
    blend: F,
    src: Seq<P>,
    out: Seq<P>,
    i: int,
) -> bool {
    &&& blend.ensures((src[i], NEAR_WEIGHT, src[i + 1], FAR_WEIGHT), out[2 * i + 1])
    &&& blend.ensures((src[i], FAR_WEIGHT, src[i + 1], NEAR_WEIGHT), out[2 * i + 2])
}

/// `out` is a corner cutting of `src` under `blend`.
///
/// A sequence with fewer than two points has no segment to cut and stays as
/// it is. Otherwise `out` starts with the first point of `src`, then holds
/// for each segment `(p0, p1)`, in order, the point `(3 * p0 + p1) / 4`
/// followed by the point `(p0 + 3 * p1) / 4`, and ends with the last point of
/// `src`.
pub open spec fn is_chaikin_step<P, F: Fn(P, u8, P, u8) -> P>(
    blend: F,
    src: Seq<P>,
    out: Seq<P>,
) -> bool {
    if src.len() < 2 {
        out == src
    } else {
        &&& out.len() == 2 * src.len()
        &&& out[0] == src[0]
        &&& out[out.len() - 1] == src[src.len() - 1]
        &&& forall|i: int| 0 <= i < src.len() - 1 ==> #[trigger] cuts_segment(blend, src, out, i)
    }
}

/// A fresh vector holding the same points in the same order.
pub fn copy_points<P: Copy>(points: &[P]) -> (copy: Vec<P>)
    ensures
        copy@ == points@,
{
    let n: usize = points.len();
    let mut copy: Vec<P> = Vec::new();
    let mut k: usize = 0;
    while k < n
        invariant
            n == points.len(),
            k <= n,
            copy@ == points@.take(k as int),
        decreases n - k,
    {
        copy.push(points[k]);
        k += 1;
    }
    assert(points@.take(n as int) == points@);
    copy
}

/// One corner-cutting pass over `points`.
pub fn chaikin_step<P: Copy, F: Fn(P, u8, P, u8) -> P>(points: &[P], blend: &F) -> (refined: Vec<P>)
    requires
        accepts_segments(*blend, points@),
    ensures
        is_chaikin_step(*blend, points@, refined@),
{
    let n: usize = points.len();
    if n < 2 {
        return copy_points(points);
    }
    let mut new_points: Vec<P> = Vec::new();
    new_points.push(points[0]);
    let mut i: usize = 0;
    while i < n - 1
        invariant
            n == points.len(),
            n >= 2,
            i <= n - 1,
            accepts_segments(*blend, points@),
            new_points.len() == 2 * i + 1,
            new_points[0] == points[0],
            forall|j: int| 0 <= j < i ==> #[trigger] cuts_segment(*blend, points@, new_points@, j),
        decreases n - 1 - i,
    {
        let p0: P = points[i];
        let p1: P = points[i + 1];
        assert(accepts_segment(*blend, points@, i as int));
        let q: P = blend(p0, NEAR_WEIGHT, p1, FAR_WEIGHT);
        let r: P = blend(p0, FAR_WEIGHT, p1, NEAR_WEIGHT);
        let ghost before = new_points@;
        new_points.push(q);
        new_points.push(r);
        assert forall|j: int| 0 <= j < i + 1 implies #[trigger] cuts_segment(
            *blend,
            points@,
            new_points@,
            j,
        ) by {
            if j < i {
                assert(cuts_segment(*blend, points@, before, j));
            }
        }
        i += 1;
    }
    let ghost before = new_points@;
    new_points.push(points[n - 1]);
    assert forall|j: int| 0 <= j < n - 1 implies #[trigger] cuts_segment(
        *blend,
        points@,
        new_points@,
        j,
    ) by {
        assert(cuts_segment(*blend, points@, before, j));
    }
    new_points
}

/// `out` results from `steps` successive corner cuttings of `src`, each one
/// applied to the whole result of the one before.
pub open spec fn is_refinement<P, F: Fn(P, u8, P, u8) -> P>(
    blend: F,
    src: Seq<P>,
    steps: nat,
    out: Seq<P>,
) -> bool
    decreases steps,
{
    if steps == 0 {
        out == src
    } else {
        exists|mid: Seq<P>|
            is_refinement(blend, src, (steps - 1) as nat, mid) && #[trigger] is_chaikin_step(
                blend,
                mid,
                out,
            )
    }
}

/// Cuts the corners of `points` `steps` times over, starting afresh from
/// `points` itself.
pub fn refine<P: Copy, F: Fn(P, u8, P, u8) -> P>(points: &[P], steps: u32, blend: &F) -> (refined:
    Vec<P>)
    requires
        blend_total(*blend),
    ensures
        is_refinement(*blend, points@, steps as nat, refined@),
{
    let mut temp_points: Vec<P> = copy_points(points);
    let mut done: u32 = 0;
    while done < steps
        invariant
            done <= steps,
            blend_total(*blend),
            is_refinement(*blend, points@, done as nat, temp_points@),
        decreases steps - done,
    {
        let ghost before = temp_points@;
        temp_points = chaikin_step(temp_points.as_slice(), blend);
        done += 1;
        assert(is_chaikin_step(*blend, before, temp_points@));
    }
    temp_points
}

/// The segments of the line strip through `points`, in order: one from each
/// point to the next, and none where there are fewer than two points.
pub fn line_strip<P: Copy>(points: &[P]) -> (segments: Vec<(P, P)>)
    ensures
        points.len() < 2 ==> segments.len() == 0,
        points.len() >= 2 ==> segments.len() == points.len() - 1,
        forall|i: int|
            0 <= i < segments.len() ==> #[trigger] segments[i] == (points[i], points[i + 1]),
{
    let n: usize = points.len();
    let mut segments: Vec<(P, P)> = Vec::new();
    if n < 2 {
        return segments;
    }
    let mut i: usize = 0;
    while i < n - 1
        invariant
            n == points.len(),
            n >= 2,
            i <= n - 1,
            segments.len() == i,
            forall|j: int| 0 <= j < i ==> #[trigger] segments[j] == (points[j], points[j + 1]),
        decreases n - 1 - i,
    {
        segments.push((points[i], points[i + 1]));
        i += 1;
    }
    segments
}

/// The blend allows at most one result for each choice of points and weights.
pub open spec fn single_valued<P, F: Fn(P, u8, P, u8) -> P>(blend: F) -> bool {
    forall|a: P, wa: u8, b: P, wb: u8, r1: P, r2: P|
        #![trigger blend.ensures((a, wa, b, wb), r1), blend.ensures((a, wa, b, wb), r2)]
        blend.ensures((a, wa, b, wb), r1) && blend.ensures((a, wa, b, wb), r2) ==> r1 == r2
}

/// Number of points after `steps` corner cuttings of `len` points: each pass
/// doubles a sequence that has a segment and leaves a shorter one alone.
pub open spec fn refined_len(len: nat, steps: nat) -> nat {
    if len < 2 {
        len
    } else {
        len * pow2(steps)
    }
}

/// Corner cutting is a function of its input: under a single-valued blend,
/// two corner cuttings of the same sequence are the same sequence.
pub proof fn lemma_chaikin_step_unique<P, F: Fn(P, u8, P, u8) -> P>(
    blend: F,
    src: Seq<P>,
    a: Seq<P>,
    b: Seq<P>,
)
    requires
        single_valued(blend),
        is_chaikin_step(blend, src, a),
        is_chaikin_step(blend, src, b),
    ensures
        a == b,
{
    if src.len() >= 2 {
        assert forall|k: int| 0 <= k < a.len() implies a[k] == b[k] by {
            if 0 < k < a.len() - 1 {
                let i = (k - 1) / 2;
                assert(cuts_segment(blend, src, a, i));
                assert(cuts_segment(blend, src, b, i));
            }
        }
        assert(a =~= b);
    }
}

/// Repeated corner cutting is deterministic: under a single-valued blend,
/// the same input and the same number of steps always give the same
/// sequence.
pub proof fn lemma_refinement_unique<P, F: Fn(P, u8, P, u8) -> P>(
    blend: F,
    src: Seq<P>,
    steps: nat,
    a: Seq<P>,
    b: Seq<P>,
)
    requires
        single_valued(blend),
        is_refinement(blend, src, steps, a),
        is_refinement(blend, src, steps, b),
    ensures
        a == b,
    decreases steps,
{
    if steps > 0 {
        let prev = (steps - 1) as nat;
        let mid_a = choose|mid: Seq<P>|
            is_refinement(blend, src, prev, mid) && #[trigger] is_chaikin_step(blend, mid, a);
        let mid_b = choose|mid: Seq<P>|
            is_refinement(blend, src, prev, mid) && #[trigger] is_chaikin_step(blend, mid, b);
        lemma_refinement_unique(blend, src, prev, mid_a, mid_b);
        lemma_chaikin_step_unique(blend, mid_a, a, b);
    }
}

/// Refinements compose: `more` further steps on the result of `steps` steps
/// are `steps + more` steps.
pub proof fn lemma_refinement_composes<P, F: Fn(P, u8, P, u8) -> P>(
    blend: F,
    src: Seq<P>,
    steps: nat,
    mid: Seq<P>,
    more: nat,
    out: Seq<P>,
)
    requires
        is_refinement(blend, src, steps, mid),
        is_refinement(blend, mid, more, out),
    ensures
        is_refinement(blend, src, steps + more, out),
    decreases more,
{
    if more > 0 {
        let prev = (more - 1) as nat;
        let last = choose|last: Seq<P>|
            is_refinement(blend, mid, prev, last) && #[trigger] is_chaikin_step(blend, last, out);
        lemma_refinement_composes(blend, src, steps, mid, prev, last);
        assert((steps + more - 1) as nat == steps + prev);
    }
}

/// However often the corners are cut, the curve keeps its two end points,
/// and a sequence with at least one segment doubles in length with each
/// step.
pub proof fn lemma_refinement_shape<P, F: Fn(P, u8, P, u8) -> P>(
    blend: F,
    src: Seq<P>,
    steps: nat,
    out: Seq<P>,
)
    requires
        is_refinement(blend, src, steps, out),
    ensures
        out.len() == refined_len(src.len(), steps),
        src.len() > 0 ==> out[0] == src[0] && out[out.len() - 1] == src[src.len() - 1],
        src.len() < 2 ==> out == src,
    decreases steps,
{
    if steps == 0 {
        lemma2_to64();
    } else {
        let prev = (steps - 1) as nat;
        let mid = choose|mid: Seq<P>|
            is_refinement(blend, src, prev, mid) && #[trigger] is_chaikin_step(blend, mid, out);
        lemma_refinement_shape(blend, src, prev, mid);
        lemma_pow2_unfold(steps);
        if src.len() >= 2 {
            assert(mid.len() >= 2) by {
                vstd::arithmetic::power2::lemma_pow2_pos(prev);
                assert(src.len() * pow2(prev) >= src.len()) by (nonlinear_arith)
                    requires
                        pow2(prev) >= 1,
                ;
            }
            assert(src.len() * (2 * pow2(prev)) == 2 * (src.len() * pow2(prev)))
                by (nonlinear_arith);
        }
    }
}

} // verus!
