//! Properties that hold of the library's operations on every input.

use crate::csg::{BooleanShape, Op, FUZZ_BITS};
use crate::filter::Filter;
use crate::hit::Hit;
use crate::path::{
    lemma_simplify_ends, spec_embeds, spec_embeds_at, spec_farthest, spec_filter, spec_flatten, spec_path_chop, spec_path_filter, spec_path_simplify, spec_scan, spec_simplify,
};
use crate::ray::Ray;
use crate::scalar::Scalar;
use crate::shape::Shape;
use crate::bounding_box::{spec_coordinate, Box};
use crate::tree::{
    spec_boxes, spec_choice, spec_hits, spec_nearest, spec_on_side, spec_side, Node, Tree, LEAF_SIZE,
};
use crate::vector::Vector;
use std::sync::Arc;
use vstd::prelude::*;

verus! {

/// Whether every path of the collection has two points or more.
pub open spec fn spec_all_drawable(paths: Seq<Seq<Vector>>) -> bool {
    forall|i: int| 0 <= i < paths.len() ==> (#[trigger] paths[i]).len() >= 2
}

proof fn lemma_scan_runs_drawable<F: Filter>(path: Seq<Vector>, f: &F, n: nat)
    requires
        n <= path.len(),
    ensures
        spec_all_drawable(spec_scan(path, f, n).0),
    decreases n,
{
    if n > 0 {
        lemma_scan_runs_drawable(path, f, (n - 1) as nat);
    }
}

proof fn lemma_flatten_drawable(parts: Seq<Seq<Seq<Vector>>>)
    requires
        forall|i: int| 0 <= i < parts.len() ==> spec_all_drawable(#[trigger] parts[i]),
    ensures
        spec_all_drawable(spec_flatten(parts)),
    decreases parts.len(),
{
    if parts.len() > 0 {
        lemma_flatten_drawable(parts.drop_last());
        assert(spec_all_drawable(parts.last()));
    }
}

/// Filtering never emits a path of fewer than two points: a run of one kept
/// point is dropped.
pub proof fn lemma_filter_drops_short_runs<F: Filter>(path: Seq<Vector>, f: &F)
    ensures
        spec_all_drawable(spec_path_filter(path, f)),
{
    lemma_scan_runs_drawable(path, f, path.len());
}

/// Filtering a collection never emits a path of fewer than two points.
pub proof fn lemma_filter_all_drops_short_runs<F: Filter>(paths: Seq<Seq<Vector>>, f: &F)
    ensures
        spec_all_drawable(spec_filter(paths, f)),
{
    let parts = Seq::new(paths.len(), |i: int| spec_path_filter(paths[i], f));
    assert forall|i: int| 0 <= i < parts.len() implies spec_all_drawable(#[trigger] parts[i]) by {
        lemma_filter_drops_short_runs(paths[i], f);
    }
    lemma_flatten_drawable(parts);
}

/// Whether the filter keeps the point of the path at place `i`.
pub open spec fn spec_kept<F: Filter>(path: Seq<Vector>, f: &F, i: int) -> bool {
    f.spec_filter(path[i]) is Some
}

/// Whether `run` is what the filter makes of the points of the path from
/// `start` on, as far as `run` reaches, and no kept point comes before it.
pub open spec fn spec_is_run_from<F: Filter>(
    path: Seq<Vector>,
    f: &F,
    start: int,
    run: Seq<Vector>,
) -> bool {
    &&& 0 <= start
    &&& start + run.len() <= path.len()
    &&& forall|j: int|
        0 <= j < run.len() ==> f.spec_filter(path[start + j]) == Some(#[trigger] run[j])
    &&& start == 0 || !spec_kept(path, f, start - 1)
}

/// Whether `run` is a maximal run of kept points of the path that begins
/// at `start`: what the filter makes of the points from `start` on, with
/// no kept point right before it and none right behind it.
pub open spec fn spec_is_maximal_run<F: Filter>(
    path: Seq<Vector>,
    f: &F,
    start: int,
    run: Seq<Vector>,
) -> bool {
    &&& spec_is_run_from(path, f, start, run)
    &&& start + run.len() == path.len() || !spec_kept(path, f, start + run.len())
}

/// Whether `runs` are maximal runs of two points or more among the first
/// `n` points of the path, beginning at `starts` and following one
/// another, and every two kept neighbours before place `limit` lie in one
/// of them.
pub open spec fn spec_runs_cover<F: Filter>(
    path: Seq<Vector>,
    f: &F,
    runs: Seq<Seq<Vector>>,
    starts: Seq<int>,
    limit: int,
) -> bool {
    &&& starts.len() == runs.len()
    &&& forall|k: int|
        0 <= k < runs.len() ==> (#[trigger] runs[k]).len() >= 2 && spec_is_maximal_run(
            path,
            f,
            starts[k],
            runs[k],
        ) && starts[k] + runs[k].len() <= limit
    &&& forall|k: int, m: int|
        0 <= k < m < runs.len() ==> starts[k] + (#[trigger] runs[k]).len() < #[trigger] starts[m]
    &&& forall|i: int|
        0 <= i && i + 1 < limit && #[trigger] spec_kept(path, f, i) && spec_kept(path, f, i + 1)
            ==> exists|k: int|
            0 <= k < runs.len() && #[trigger] starts[k] <= i && i + 1 < starts[k] + runs[k].len()
}

/// After the walk over the first `n` points, the closed runs are the
/// maximal runs before the open run, and the open run is what the filter
/// made of the last points.
proof fn lemma_scan_gives_runs<F: Filter>(path: Seq<Vector>, f: &F, n: nat) -> (starts: Seq<int>)
    requires
        n <= path.len(),
    ensures
        ({
            let walked = spec_scan(path, f, n);
            let open_from = n - walked.1.len();
            &&& spec_is_run_from(path, f, open_from, walked.1)
            &&& spec_runs_cover(path, f, walked.0, starts, open_from)
        }),
    decreases n,
{
    if n == 0 {
        Seq::empty()
    } else {
        let before = spec_scan(path, f, (n - 1) as nat);
        let old_starts = lemma_scan_gives_runs(path, f, (n - 1) as nat);
        let from = n - 1 - before.1.len();
        match f.spec_filter(path[n - 1]) {
            Some(w) => {
                let run = before.1.push(w);
                assert forall|j: int| 0 <= j < run.len() implies f.spec_filter(path[from + j])
                    == Some(#[trigger] run[j]) by {
                    if j < before.1.len() {
                        assert(run[j] == before.1[j]);
                    }
                }
                old_starts
            },
            None => {
                assert(!spec_kept(path, f, n - 1));
                if before.1.len() > 1 {
                    let runs = before.0.push(before.1);
                    let starts = old_starts.push(from);
                    assert forall|k: int| 0 <= k < runs.len() implies (#[trigger] runs[k]).len()
                        >= 2 && spec_is_maximal_run(path, f, starts[k], runs[k]) && starts[k]
                        + runs[k].len() <= n by {
                        if k < before.0.len() {
                            assert(runs[k] == before.0[k]);
                            assert(starts[k] == old_starts[k]);
                        }
                    }
                    assert forall|k: int, m: int| 0 <= k < m < runs.len() implies starts[k] + (
                    #[trigger] runs[k]).len() < #[trigger] starts[m] by {
                        assert(runs[k] == before.0[k]);
                        assert(starts[k] == old_starts[k]);
                        if m < before.0.len() {
                            assert(starts[m] == old_starts[m]);
                        } else {
                            assert(from == 0 || !spec_kept(path, f, from - 1));
                            assert(spec_is_maximal_run(path, f, old_starts[k], before.0[k]));
                            if old_starts[k] + before.0[k].len() == from {
                                // The run would end where the open run begins,
                                // but a kept point follows it there.
                                assert(f.spec_filter(path[from + 0]) == Some(before.1[0]));
                                assert(spec_kept(path, f, from));
                            }
                        }
                    }
                    assert forall|i: int|
                        0 <= i && i + 1 < n && #[trigger] spec_kept(path, f, i) && spec_kept(
                            path,
                            f,
                            i + 1,
                        ) implies exists|k: int|
                        0 <= k < runs.len() && #[trigger] starts[k] <= i && i + 1 < starts[k]
                            + runs[k].len() by {
                        if i + 1 < from {
                            let k = choose|k: int|
                                0 <= k < before.0.len() && #[trigger] old_starts[k] <= i && i + 1
                                    < old_starts[k] + before.0[k].len();
                            assert(starts[k] == old_starts[k] && runs[k] == before.0[k]);
                        } else {
                            assert(i >= from);
                            let k = before.0.len() as int;
                            assert(starts[k] == from && runs[k] == before.1);
                        }
                    }
                    starts
                } else {
                    assert forall|i: int|
                        0 <= i && i + 1 < n && #[trigger] spec_kept(path, f, i) && spec_kept(
                            path,
                            f,
                            i + 1,
                        ) implies exists|k: int|
                        0 <= k < before.0.len() && #[trigger] old_starts[k] <= i && i + 1
                            < old_starts[k] + before.0[k].len() by {
                        if i + 1 < from {
                        } else {
                            assert(i >= from);
                            assert(false);
                        }
                    }
                    old_starts
                }
            },
        }
    }
}

/// Filtering a path gives its maximal runs of kept points, as far as they
/// have two points or more: each path that comes out is what the filter
/// made of such a run, the runs come out in their order, and every two
/// kept neighbours of the path lie in one of them.
pub proof fn lemma_filter_gives_the_maximal_runs<F: Filter>(path: Seq<Vector>, f: &F)
    ensures
        exists|starts: Seq<int>|
            spec_runs_cover(path, f, spec_path_filter(path, f), starts, path.len() as int),
{
    let n = path.len();
    let before = spec_scan(path, f, n);
    let old_starts = lemma_scan_gives_runs(path, f, n);
    let from = n - before.1.len();
    let runs = spec_path_filter(path, f);
    if before.1.len() > 1 {
        let starts = old_starts.push(from);
        assert forall|k: int| 0 <= k < runs.len() implies (#[trigger] runs[k]).len() >= 2
            && spec_is_maximal_run(path, f, starts[k], runs[k]) && starts[k] + runs[k].len()
            <= n by {
            if k < before.0.len() {
                assert(runs[k] == before.0[k]);
                assert(starts[k] == old_starts[k]);
            }
        }
        assert forall|k: int, m: int| 0 <= k < m < runs.len() implies starts[k] + (
        #[trigger] runs[k]).len() < #[trigger] starts[m] by {
            assert(runs[k] == before.0[k]);
            assert(starts[k] == old_starts[k]);
            if m < before.0.len() {
                assert(starts[m] == old_starts[m]);
            } else {
                assert(spec_is_maximal_run(path, f, old_starts[k], before.0[k]));
                if old_starts[k] + before.0[k].len() == from {
                    assert(f.spec_filter(path[from + 0]) == Some(before.1[0]));
                    assert(spec_kept(path, f, from));
                }
            }
        }
        assert forall|i: int|
            0 <= i && i + 1 < n && #[trigger] spec_kept(path, f, i) && spec_kept(path, f, i + 1)
            implies exists|k: int|
            0 <= k < runs.len() && #[trigger] starts[k] <= i && i + 1 < starts[k] + runs[k].len() by {
            if i + 1 < from {
                let k = choose|k: int|
                    0 <= k < before.0.len() && #[trigger] old_starts[k] <= i && i + 1
                        < old_starts[k] + before.0[k].len();
                assert(starts[k] == old_starts[k] && runs[k] == before.0[k]);
            } else {
                assert(i >= from);
                let k = before.0.len() as int;
                assert(starts[k] == from && runs[k] == before.1);
            }
        }
        assert(spec_runs_cover(path, f, runs, starts, n as int));
    } else {
        assert forall|i: int|
            0 <= i && i + 1 < n && #[trigger] spec_kept(path, f, i) && spec_kept(path, f, i + 1)
            implies exists|k: int|
            0 <= k < before.0.len() && #[trigger] old_starts[k] <= i && i + 1 < old_starts[k]
                + before.0[k].len() by {
            if i + 1 < from {
            } else {
                assert(i >= from);
                assert(false);
            }
        }
        assert(spec_runs_cover(path, f, runs, old_starts, n as int));
    }
}

/// Chopping keeps every point of a path, in order: the path can be had
/// back from the chopped path by leaving points out.
pub proof fn lemma_chop_keeps_vertices(path: Seq<Vector>, step: Scalar)
    ensures
        spec_embeds(path, spec_path_chop(path, step)),
    decreases path.len(),
{
    let chopped = spec_path_chop(path, step);
    if path.len() == 0 {
        assert(spec_embeds_at(path, chopped, Seq::<int>::empty()));
    } else if path.len() == 1 {
        assert(spec_embeds_at(path, chopped, seq![0int]));
    } else {
        let shorter = path.drop_last();
        lemma_chop_keeps_vertices(shorter, step);
        let before = spec_path_chop(shorter, step);
        let old_at = choose|at: Seq<int>| spec_embeds_at(shorter, before, at);
        let at = old_at.push(chopped.len() - 1);
        assert forall|i: int| 0 <= i < at.len() implies 0 <= #[trigger] at[i] < chopped.len()
            && chopped[at[i]] == path[i] by {
            if i < old_at.len() {
                assert(0 <= old_at[i] < before.len());
                assert(chopped[old_at[i]] == before[old_at[i]]);
                assert(shorter[i] == path[i]);
            }
        }
        assert forall|i: int, j: int| 0 <= i < j < at.len() implies at[i] < at[j] by {
            if j < old_at.len() {
                assert(old_at[i] < old_at[j]);
            } else {
                assert(0 <= old_at[i] < before.len());
            }
        }
        assert(spec_embeds_at(path, chopped, at));
    }
}

/// A difference of a solid and itself contains no point that lies in the
/// solid by more than the tolerance.
pub proof fn lemma_self_difference_is_empty<S: Shape>(shape: BooleanShape<S>, p: Vector, f: Scalar)
    requires
        shape.op == Op::Difference,
        shape.a == shape.b,
        shape.a.spec_contains(p, (Scalar { bits: FUZZ_BITS }).spec_neg()),
    ensures
        !shape.spec_contains(p, f),
{
}

/// An intersection with an operand that encloses the other contains what
/// the other contains: where every point of `a` is a point of `b`, a point
/// is in the intersection if and only if it is in `a`.
pub proof fn lemma_intersection_absorbs<S: Shape>(shape: BooleanShape<S>, p: Vector, f: Scalar)
    requires
        shape.op == Op::Intersection,
        forall|q: Vector| #[trigger]
            shape.a.spec_contains(q, Scalar { bits: FUZZ_BITS }) ==> shape.b.spec_contains(
                q,
                Scalar { bits: FUZZ_BITS },
            ),
    ensures
        shape.spec_contains(p, f) == shape.a.spec_contains(p, Scalar { bits: FUZZ_BITS }),
{
}

/// The distance of the point at place `j` from the chord between the ends
/// of the path.
pub open spec fn spec_chord_distance(path: Seq<Vector>, j: int) -> Scalar {
    path[j].spec_segment_distance(path[0], path.last())
}

/// Whether every point of `s` but its ends is a point of `x` other than
/// its ends.
pub open spec fn spec_interior_from(s: Seq<Vector>, x: Seq<Vector>) -> bool {
    forall|j: int|
        0 < j < s.len() - 1 ==> exists|k: int| 0 < k < x.len() - 1 && #[trigger] s[j] == x[k]
}

/// What `spec_farthest` has found after the places 1 to `n - 1`: a
/// distance that is a number and not below zero; above zero, and the
/// distance of the place found, unless the place is 0; not exceeded at any
/// place seen; and not reached at any place before the one found.
proof fn lemma_farthest_facts(path: Seq<Vector>, n: int)
    requires
        n <= path.len(),
    ensures
        ({
            let far = spec_farthest(path, n);
            &&& far.1.spec_ge(Scalar::spec_zero())
            &&& far.0 == 0 ==> far.1 == Scalar::spec_zero()
            &&& far.0 != 0 ==> 1 <= far.0 < n && far.1 == spec_chord_distance(path, far.0)
                && far.1.spec_gt(Scalar::spec_zero())
            &&& forall|j: int| 1 <= j < n ==> !(#[trigger] spec_chord_distance(path, j)).spec_gt(far.1)
            &&& forall|j: int|
                1 <= j < far.0 ==> !(#[trigger] spec_chord_distance(path, j)).spec_ge(far.1)
        }),
    decreases n,
{
    if n > 1 {
        lemma_farthest_facts(path, n - 1);
        let before = spec_farthest(path, n - 1);
        let d = spec_chord_distance(path, n - 1);
        if d.spec_gt(before.1) {
            assert forall|j: int| 1 <= j < n - 1 implies !(#[trigger] spec_chord_distance(
                path,
                j,
            )).spec_ge(d) by {
                assert(!spec_chord_distance(path, j).spec_gt(before.1));
            }
        }
    }
}

/// `spec_farthest` finds the place `k` with the distance `d` if `d` is the
/// distance at `k` and above zero, no earlier place reaches it, and no
/// later place exceeds it.
proof fn lemma_farthest_found(path: Seq<Vector>, k: int, d: Scalar, n: int)
    requires
        1 <= k < n <= path.len(),
        d == spec_chord_distance(path, k),
        d.spec_gt(Scalar::spec_zero()),
        forall|j: int| 1 <= j < k ==> !(#[trigger] spec_chord_distance(path, j)).spec_ge(d),
        forall|j: int| k < j < n ==> !(#[trigger] spec_chord_distance(path, j)).spec_gt(d),
    ensures
        spec_farthest(path, n) == (k, d),
    decreases n,
{
    if n == k + 1 {
        lemma_farthest_facts(path, k);
        let before = spec_farthest(path, k);
        if before.0 != 0 {
            assert(!spec_chord_distance(path, before.0).spec_ge(d));
        }
        assert(d.spec_gt(before.1));
    } else {
        lemma_farthest_found(path, k, d, n - 1);
        assert(!spec_chord_distance(path, n - 1).spec_gt(d));
    }
}

/// Every point of a simplified path but its ends is a point of the path
/// other than its ends.
proof fn lemma_simplify_interior(path: Seq<Vector>, threshold: Scalar)
    ensures
        spec_interior_from(spec_path_simplify(path, threshold), path),
    decreases path.len(),
{
    let s = spec_path_simplify(path, threshold);
    if path.len() >= 3 {
        let far = spec_farthest(path, path.len() - 1);
        if far.1.spec_gt(threshold) && 0 < far.0 < path.len() - 1 {
            let i = far.0;
            let left = path.subrange(0, i + 1);
            let right = path.subrange(i, path.len() as int);
            let l = spec_path_simplify(left, threshold);
            let r = spec_path_simplify(right, threshold);
            lemma_simplify_interior(left, threshold);
            lemma_simplify_interior(right, threshold);
            lemma_simplify_ends(left, threshold);
            lemma_simplify_ends(right, threshold);
            let k = l.len() - 1;
            assert forall|j: int| 0 < j < s.len() - 1 implies exists|m: int|
                0 < m < path.len() - 1 && #[trigger] s[j] == path[m] by {
                if j < k {
                    assert(s[j] == l[j]);
                    let m = choose|m: int| 0 < m < left.len() - 1 && l[j] == left[m];
                    assert(left[m] == path[m]);
                    assert(0 < m < path.len() - 1 && s[j] == path[m]);
                } else if j == k {
                    assert(s[j] == r[0]);
                    assert(right[0] == path[i]);
                    assert(0 < i < path.len() - 1 && s[j] == path[i]);
                } else {
                    assert(s[j] == r[j - k]);
                    let m = choose|m: int| 0 < m < right.len() - 1 && r[j - k] == right[m];
                    assert(right[m] == path[i + m]);
                    assert(0 < i + m < path.len() - 1 && s[j] == path[i + m]);
                }
            }
        } else {
            assert(s.len() == 2);
        }
    } else {
        assert forall|j: int| 0 < j < s.len() - 1 implies exists|m: int|
            0 < m < path.len() - 1 && #[trigger] s[j] == path[m] by {
            assert(s[j] == path[j]);
        }
    }
}

/// Simplifying is idempotent: a simplified path is its own simplification
/// with the same threshold.
pub proof fn lemma_simplify_idempotent(path: Seq<Vector>, threshold: Scalar)
    ensures
        spec_path_simplify(spec_path_simplify(path, threshold), threshold) == spec_path_simplify(
            path,
            threshold,
        ),
    decreases path.len(),
{
    let q = spec_path_simplify(path, threshold);
    if path.len() >= 3 {
        let n = path.len() as int;
        let far = spec_farthest(path, n - 1);
        if far.1.spec_gt(threshold) && 0 < far.0 < n - 1 {
            let i = far.0;
            let d = far.1;
            let left = path.subrange(0, i + 1);
            let right = path.subrange(i, n);
            let l = spec_path_simplify(left, threshold);
            let r = spec_path_simplify(right, threshold);
            lemma_simplify_ends(left, threshold);
            lemma_simplify_ends(right, threshold);
            lemma_simplify_interior(left, threshold);
            lemma_simplify_interior(right, threshold);
            lemma_simplify_idempotent(left, threshold);
            lemma_simplify_idempotent(right, threshold);
            lemma_farthest_facts(path, n - 1);
            let k = l.len() - 1;
            assert(q == l.drop_last() + r);
            assert(q[0] == path[0]);
            assert(q.last() == path.last());
            assert(q[k] == path[i]);
            assert(spec_chord_distance(q, k) == spec_chord_distance(path, i));
            assert forall|j: int| 1 <= j < k implies !(#[trigger] spec_chord_distance(
                q,
                j,
            )).spec_ge(d) by {
                assert(q[j] == l[j]);
                let m = choose|m: int| 0 < m < left.len() - 1 && l[j] == left[m];
                assert(left[m] == path[m]);
                assert(spec_chord_distance(q, j) == spec_chord_distance(path, m));
            }
            assert forall|j: int| k < j < q.len() - 1 implies !(#[trigger] spec_chord_distance(
                q,
                j,
            )).spec_gt(d) by {
                assert(q[j] == r[j - k]);
                let m = choose|m: int| 0 < m < right.len() - 1 && r[j - k] == right[m];
                assert(right[m] == path[i + m]);
                assert(spec_chord_distance(q, j) == spec_chord_distance(path, i + m));
            }
            lemma_farthest_found(q, k, d, q.len() - 1);
            assert(q.subrange(0, k + 1) =~= l);
            assert(q.subrange(k, q.len() as int) =~= r);
        }
    }
}

/// Simplifying every path of a collection is idempotent.
pub proof fn lemma_simplify_all_idempotent(paths: Seq<Seq<Vector>>, threshold: Scalar)
    ensures
        spec_simplify(spec_simplify(paths, threshold), threshold) == spec_simplify(
            paths,
            threshold,
        ),
{
    let once = spec_simplify(paths, threshold);
    assert forall|i: int| 0 <= i < paths.len() implies spec_path_simplify(once[i], threshold)
        == once[i] by {
        lemma_simplify_idempotent(paths[i], threshold);
    }
    assert(spec_simplify(once, threshold) =~= once);
}

/// The nearest of a sequence of hits is one of them or "no hit", its
/// distance is a number, and no hit of the sequence is nearer.
pub proof fn lemma_nearest_is_least(hits: Seq<Hit>)
    ensures
        spec_nearest(hits) == Hit::spec_no_hit() || exists|i: int|
            0 <= i < hits.len() && #[trigger] hits[i] == spec_nearest(hits),
        !spec_nearest(hits).t.spec_is_nan(),
        forall|i: int| 0 <= i < hits.len() ==> !(#[trigger] hits[i]).t.spec_lt(spec_nearest(hits).t),
    decreases hits.len(),
{
    if hits.len() > 0 {
        lemma_nearest_is_least(hits.drop_last());
        let before = spec_nearest(hits.drop_last());
        let now = spec_nearest(hits);
        assert forall|i: int| 0 <= i < hits.len() implies !(#[trigger] hits[i]).t.spec_lt(
            now.t,
        ) by {
            if i < hits.len() - 1 {
                assert(hits.drop_last()[i] == hits[i]);
            }
        }
        if now == hits.last() {
            assert(hits[hits.len() - 1] == now);
        } else if before != Hit::spec_no_hit() {
            let i = choose|i: int|
                0 <= i < hits.drop_last().len() && #[trigger] hits.drop_last()[i] == before;
            assert(hits[i] == now);
        }
    }
}

/// A side of a split holds only solids of the collection that was split.
proof fn lemma_side_is_part<S: Shape>(
    shapes: Seq<Arc<S>>,
    axis: crate::axis::Axis,
    point: Scalar,
    left: bool,
    shape: Arc<S>,
)
    requires
        spec_side(shapes, axis, point, left).contains(shape),
    ensures
        shapes.contains(shape),
    decreases shapes.len(),
{
    if shapes.len() > 0 {
        let rest = spec_side(shapes.drop_last(), axis, point, left);
        let side = spec_side(shapes, axis, point, left);
        let i = choose|i: int| 0 <= i < side.len() && side[i] == shape;
        if i < rest.len() {
            assert(rest[i] == shape);
            lemma_side_is_part(shapes.drop_last(), axis, point, left, shape);
            let j = choose|j: int| 0 <= j < shapes.drop_last().len() && shapes.drop_last()[j] == shape;
            assert(shapes[j] == shape);
        } else {
            assert(shapes[shapes.len() - 1] == shape);
        }
    }
}

/// An index holds only solids of the collection it was built over.
pub proof fn lemma_index_holds_only_its_solids<S: Shape>(
    node: Node<S>,
    shapes: Seq<Arc<S>>,
    shape: Arc<S>,
)
    requires
        node.spec_built_from(shapes),
        node.spec_holds(shape),
    ensures
        shapes.contains(shape),
    decreases node,
{
    let choice = spec_choice(spec_boxes(shapes));
    if shapes.len() < LEAF_SIZE || choice.0 == crate::axis::Axis::NoAxis {
    } else {
        let l = node.left->0;
        let r = node.right->0;
        if l.spec_holds(shape) {
            lemma_index_holds_only_its_solids(*l, spec_side(shapes, choice.0, choice.1, true), shape);
            lemma_side_is_part(shapes, choice.0, choice.1, true, shape);
        } else {
            lemma_index_holds_only_its_solids(*r, spec_side(shapes, choice.0, choice.1, false), shape);
            lemma_side_is_part(shapes, choice.0, choice.1, false, shape);
        }
    }
}

/// Whether the split coordinate of every inner node at and below the node
/// is a number.
pub open spec fn spec_splits_are_numbers<S: Shape>(node: Node<S>) -> bool
    decreases node,
{
    match node.axis {
        crate::axis::Axis::NoAxis => true,
        _ => {
            &&& !node.point.spec_is_nan()
            &&& match node.left {
                Some(l) => spec_splits_are_numbers(*l),
                None => true,
            }
            &&& match node.right {
                Some(r) => spec_splits_are_numbers(*r),
                None => true,
            }
        },
    }
}

/// Whether the least corner of a box lies at or below its greatest corner
/// along every axis.
pub open spec fn spec_ordered(b: Box) -> bool {
    b.min.x.spec_le(b.max.x) && b.min.y.spec_le(b.max.y) && b.min.z.spec_le(b.max.z)
}

/// A solid that goes to a side of a split is among the solids of that
/// side.
proof fn lemma_side_keeps<S: Shape>(
    shapes: Seq<Arc<S>>,
    axis: crate::axis::Axis,
    point: Scalar,
    left: bool,
    i: int,
)
    requires
        0 <= i < shapes.len(),
        spec_on_side(shapes[i].spec_bounding_box(), axis, point, left),
    ensures
        spec_side(shapes, axis, point, left).contains(shapes[i]),
    decreases shapes.len(),
{
    let side = spec_side(shapes, axis, point, left);
    if i == shapes.len() - 1 {
        assert(side[side.len() - 1] == shapes[i]);
    } else {
        lemma_side_keeps(shapes.drop_last(), axis, point, left, i);
        let rest = spec_side(shapes.drop_last(), axis, point, left);
        let k = choose|k: int| 0 <= k < rest.len() && rest[k] == shapes.drop_last()[i];
        assert(side[k] == shapes[i]);
    }
}

/// The index loses no solid: a solid whose box is ordered is held by a
/// leaf, as long as every split coordinate of the index is a number.
pub proof fn lemma_index_holds_every_solid<S: Shape>(node: Node<S>, shapes: Seq<Arc<S>>, i: int)
    requires
        node.spec_built_from(shapes),
        spec_splits_are_numbers(node),
        0 <= i < shapes.len(),
        spec_ordered(shapes[i].spec_bounding_box()),
    ensures
        node.spec_holds(shapes[i]),
    decreases node,
{
    let choice = spec_choice(spec_boxes(shapes));
    if shapes.len() < LEAF_SIZE || choice.0 == crate::axis::Axis::NoAxis {
        assert(node.shapes@[i] == shapes[i]);
    } else {
        let b = shapes[i].spec_bounding_box();
        let low = spec_coordinate(b.min, choice.0);
        let high = spec_coordinate(b.max, choice.0);
        assert(low.spec_le(high));
        let goes_left = spec_on_side(b, choice.0, choice.1, true);
        assert(goes_left || spec_on_side(b, choice.0, choice.1, false));
        let side = spec_side(shapes, choice.0, choice.1, goes_left);
        lemma_side_keeps(shapes, choice.0, choice.1, goes_left, i);
        let k = choose|k: int| 0 <= k < side.len() && side[k] == shapes[i];
        if goes_left {
            lemma_index_holds_every_solid(*node.left->0, side, k);
        } else {
            lemma_index_holds_every_solid(*node.right->0, side, k);
        }
    }
}

/// The answer of a node is "no hit" or the answer of a solid that the node
/// holds.
pub proof fn lemma_node_hit_comes_from_a_solid<S: Shape>(
    node: Node<S>,
    r: Ray,
    tmin: Scalar,
    tmax: Scalar,
)
    ensures
        node.spec_intersect(r, tmin, tmax) == Hit::spec_no_hit() || exists|shape: Arc<S>|
            node.spec_holds(shape) && node.spec_intersect(r, tmin, tmax)
                == #[trigger] shape.spec_intersect(r),
    decreases node,
{
    let h = node.spec_intersect(r, tmin, tmax);
    match node.axis {
        crate::axis::Axis::NoAxis => {
            let hits = spec_hits(node.shapes@, r);
            lemma_nearest_is_least(hits);
            if h != Hit::spec_no_hit() {
                let i = choose|i: int| 0 <= i < hits.len() && #[trigger] hits[i] == h;
                let shape = node.shapes@[i];
                assert(node.spec_holds(shape) && h == shape.spec_intersect(r));
            }
        },
        _ => {
            match (node.left, node.right) {
                (Some(left), Some(right)) => {
                    let origin = crate::bounding_box::spec_coordinate(r.origin, node.axis);
                    let direction = crate::bounding_box::spec_coordinate(r.direction, node.axis);
                    let tsplit = node.point.spec_sub(origin).spec_div(direction);
                    let left_first = origin.spec_lt(node.point) || (origin.spec_eq(node.point)
                        && direction.spec_le(Scalar::spec_zero()));
                    let first = if left_first {
                        left
                    } else {
                        right
                    };
                    let second = if left_first {
                        right
                    } else {
                        left
                    };
                    lemma_node_hit_comes_from_a_solid(*first, r, tmin, tmax);
                    lemma_node_hit_comes_from_a_solid(*second, r, tmin, tmax);
                    lemma_node_hit_comes_from_a_solid(*first, r, tmin, tsplit);
                    let h1 = first.spec_intersect(r, tmin, tsplit);
                    lemma_node_hit_comes_from_a_solid(*second, r, tsplit, tmax.spec_min(h1.t));
                    if h != Hit::spec_no_hit() {
                        let shape = choose|shape: Arc<S>|
                            (first.spec_holds(shape) || second.spec_holds(shape)) && h
                                == #[trigger] shape.spec_intersect(r);
                        assert(node.spec_holds(shape));
                    }
                },
                _ => {},
            }
        },
    }
}

/// The index answers a ray with the answer of one of the solids it was
/// built over, or with "no hit"; and its answer is never nearer than the
/// nearest answer of the solids.
pub proof fn lemma_index_hit_comes_from_a_solid<S: Shape>(
    tree: Tree<S>,
    shapes: Seq<Arc<S>>,
    r: Ray,
)
    requires
        tree.root.spec_built_from(shapes),
    ensures
        tree.spec_intersect(r) == Hit::spec_no_hit() || exists|i: int|
            0 <= i < shapes.len() && tree.spec_intersect(r) == (#[trigger] shapes[i]).spec_intersect(
                r,
            ),
        !tree.spec_intersect(r).t.spec_lt(spec_nearest(spec_hits(shapes, r)).t),
{
    let h = tree.spec_intersect(r);
    let hits = spec_hits(shapes, r);
    lemma_nearest_is_least(hits);
    if h != Hit::spec_no_hit() {
        let t = tree.bx.spec_intersect(r);
        lemma_node_hit_comes_from_a_solid(tree.root, r, t.0, t.1);
        let shape = choose|shape: Arc<S>|
            tree.root.spec_holds(shape) && h == #[trigger] shape.spec_intersect(r);
        lemma_index_holds_only_its_solids(tree.root, shapes, shape);
        let i = choose|i: int| 0 <= i < shapes.len() && shapes[i] == shape;
        assert(h == shapes[i].spec_intersect(r));
        assert(hits[i] == h);
    }
}

/// An index that is a single leaf answers a ray that passes the box around
/// its solids with the nearest of the solids' answers.
pub proof fn lemma_leaf_index_is_exact<S: Shape>(tree: Tree<S>, shapes: Seq<Arc<S>>, r: Ray)
    requires
        tree.root.spec_built_from(shapes),
        tree.root.axis == crate::axis::Axis::NoAxis,
    ensures
        ({
            let t = tree.bx.spec_intersect(r);
            tree.spec_intersect(r) == if t.1.spec_lt(t.0) || t.1.spec_le(Scalar::spec_zero()) {
                Hit::spec_no_hit()
            } else {
                spec_nearest(spec_hits(shapes, r))
            }
        }),
{
}

/// A sample without a direction towards the eye is not visible, whatever
/// the scene holds: where a coordinate of the unit vector from the point
/// to the eye is not a number, as it is for a point at the eye.
pub proof fn lemma_sample_without_direction_is_invisible<S: Shape>(
    scene: crate::scene::Scene<S>,
    eye: Vector,
    point: Vector,
)
    requires
        eye.spec_sub(point).spec_normalize().spec_has_nan(),
    ensures
        !scene.spec_visible(eye, point),
{
}

/// A sample whose coordinates are not all numbers is not visible, as far as
/// its distance from the eye is then not a number either.
pub proof fn lemma_sample_at_no_distance_is_invisible<S: Shape>(
    scene: crate::scene::Scene<S>,
    eye: Vector,
    point: Vector,
)
    requires
        eye.spec_sub(point).spec_length().spec_is_nan(),
    ensures
        !scene.spec_visible(eye, point),
{
}

} // verus!
