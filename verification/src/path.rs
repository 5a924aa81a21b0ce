//! Polylines and collections of polylines.

use crate::bounding_box::{spec_point_boxes, spec_union, Box};
use crate::filter::Filter;
use crate::matrix::Matrix;
use crate::scalar::Scalar;
use crate::vector::Vector;
use vstd::prelude::*;

verus! {

/// A polyline: its points in order.
pub type Path = Vec<Vector>;

/// An ordered collection of polylines.
#[derive(Clone, Debug)]
pub struct Paths {
    pub paths: Vec<Path>,
}

/// The polylines held by a vector of paths, as sequences of points.
pub open spec fn spec_deep(paths: Vec<Path>) -> Seq<Seq<Vector>> {
    Seq::new(paths.len() as nat, |i: int| paths[i]@)
}

impl View for Paths {
    type V = Seq<Seq<Vector>>;

    open spec fn view(&self) -> Seq<Seq<Vector>> {
        spec_deep(self.paths)
    }
}

/// The concatenation of a sequence of path collections.
pub open spec fn spec_flatten(parts: Seq<Seq<Seq<Vector>>>) -> Seq<Seq<Vector>>
    decreases parts.len(),
{
    if parts.len() == 0 {
        Seq::empty()
    } else {
        spec_flatten(parts.drop_last()) + parts.last()
    }
}

/// The box around all points of all paths.
pub open spec fn spec_bounding_box(paths: Seq<Seq<Vector>>) -> Box {
    spec_union(Seq::new(paths.len(), |i: int| spec_union(spec_point_boxes(paths[i]))))
}

/// The images of a path's points under `matrix`.
pub open spec fn spec_path_transform(path: Seq<Vector>, matrix: Matrix) -> Seq<Vector> {
    Seq::new(path.len(), |i: int| matrix.spec_mul_position(path[i]))
}

/// Each path transformed by `matrix`.
pub open spec fn spec_transform(paths: Seq<Seq<Vector>>, matrix: Matrix) -> Seq<Seq<Vector>> {
    Seq::new(paths.len(), |i: int| spec_path_transform(paths[i], matrix))
}

/// The points put between the ends of a segment that starts at `a`, runs
/// along `v` and has length `l`: one at each distance `d`, `d + step`,
/// `d + step + step`, ... that is below `l`. The walk ends where adding
/// `step` no longer increases the distance.
pub open spec fn spec_steps(a: Vector, v: Vector, l: Scalar, step: Scalar, d: Scalar) -> Seq<
    Vector,
>
    decreases
            (if d.spec_lt(l) {
                l.rank() - d.rank()
            } else {
                0
            }),
{
    if d.spec_lt(l) {
        let p = a.spec_add(v.spec_mul_scalar(d.spec_div(l)));
        let next = d.spec_add(step);
        if next.spec_gt(d) {
            seq![p] + spec_steps(a, v, l, step, next)
        } else {
            seq![p]
        }
    } else {
        Seq::empty()
    }
}

/// The points put between `a` and `b` when the segment is chopped.
pub open spec fn spec_segment_points(a: Vector, b: Vector, step: Scalar) -> Seq<Vector> {
    let v = b.spec_sub(a);
    spec_steps(a, v, v.spec_length(), step, step)
}

/// A path with each of its segments chopped: the points of the path, and
/// between each two neighbours the points of `spec_segment_points`. A path
/// of fewer than two points has no segment and stays as it is.
pub open spec fn spec_path_chop(path: Seq<Vector>, step: Scalar) -> Seq<Vector>
    decreases path.len(),
{
    if path.len() < 2 {
        path
    } else {
        spec_path_chop(path.drop_last(), step) + spec_segment_points(
            path[path.len() - 2],
            path[path.len() - 1],
            step,
        ) + seq![path.last()]
    }
}

/// Each path chopped.
pub open spec fn spec_chop(paths: Seq<Seq<Vector>>, step: Scalar) -> Seq<Seq<Vector>> {
    Seq::new(paths.len(), |i: int| spec_path_chop(paths[i], step))
}

/// The runs closed so far together with `run`, if `run` is long enough to
/// be a path: runs of fewer than two points are dropped.
pub open spec fn spec_close(done: Seq<Seq<Vector>>, run: Seq<Vector>) -> Seq<Seq<Vector>> {
    if run.len() > 1 {
        done.push(run)
    } else {
        done
    }
}

/// The walk of a filter over the first `n` points of a path: the runs that
/// are closed (first), and the run that is still open (second). A point
/// that the filter keeps extends the open run by what the filter made of
/// it; a point that the filter drops closes the run.
pub open spec fn spec_scan<F: Filter>(path: Seq<Vector>, f: &F, n: nat) -> (
    Seq<Seq<Vector>>,
    Seq<Vector>,
)
    decreases n,
{
    if n == 0 {
        (Seq::empty(), Seq::empty())
    } else {
        let before = spec_scan(path, f, (n - 1) as nat);
        match f.spec_filter(path[n - 1]) {
            Some(w) => (before.0, before.1.push(w)),
            None => (spec_close(before.0, before.1), Seq::empty()),
        }
    }
}

/// The maximal runs of points of `path` that the filter keeps, each as a
/// path of its own, without the runs of fewer than two points.
pub open spec fn spec_path_filter<F: Filter>(path: Seq<Vector>, f: &F) -> Seq<Seq<Vector>> {
    let walked = spec_scan(path, f, path.len());
    spec_close(walked.0, walked.1)
}

/// The runs of every path, in the order of the paths.
pub open spec fn spec_filter<F: Filter>(paths: Seq<Seq<Vector>>, f: &F) -> Seq<Seq<Vector>> {
    spec_flatten(Seq::new(paths.len(), |i: int| spec_path_filter(paths[i], f)))
}

/// Among the points of `path` at the places 1 to `n - 1`, the one farthest
/// from the segment between the path's ends: its place and its distance.
/// On a tie the earliest place; `(0, 0.0)` where no distance is above zero.
pub open spec fn spec_farthest(path: Seq<Vector>, n: int) -> (int, Scalar)
    decreases n,
{
    if n <= 1 {
        (0, Scalar::spec_zero())
    } else {
        let before = spec_farthest(path, n - 1);
        let d = path[n - 1].spec_segment_distance(path[0], path.last());
        if d.spec_gt(before.1) {
            (n - 1, d)
        } else {
            before
        }
    }
}

/// The Ramer-Douglas-Peucker simplification of a path. A path of fewer than
/// three points is kept. Otherwise, where the interior point farthest from
/// the chord between the ends is farther than `threshold`, the path is
/// split there, both halves are simplified, and the results are joined at
/// the shared point; where it is not, the path collapses to its two ends.
pub open spec fn spec_path_simplify(path: Seq<Vector>, threshold: Scalar) -> Seq<Vector>
    decreases path.len(),
{
    if path.len() < 3 {
        path
    } else {
        let far = spec_farthest(path, path.len() - 1);
        if far.1.spec_gt(threshold) && 0 < far.0 < path.len() - 1 {
            spec_path_simplify(path.subrange(0, far.0 + 1), threshold).drop_last()
                + spec_path_simplify(path.subrange(far.0, path.len() as int), threshold)
        } else {
            seq![path[0], path.last()]
        }
    }
}

/// Each path simplified.
pub open spec fn spec_simplify(paths: Seq<Seq<Vector>>, threshold: Scalar) -> Seq<Seq<Vector>> {
    Seq::new(paths.len(), |i: int| spec_path_simplify(paths[i], threshold))
}

/// Whether `small` can be had from `big` by leaving points out.
pub open spec fn spec_embeds(small: Seq<Vector>, big: Seq<Vector>) -> bool {
    exists|at: Seq<int>| spec_embeds_at(small, big, at)
}

/// Whether `at` gives, in increasing order, the places in `big` of the
/// points of `small`.
pub open spec fn spec_embeds_at(small: Seq<Vector>, big: Seq<Vector>, at: Seq<int>) -> bool {
    &&& at.len() == small.len()
    &&& forall|i: int| 0 <= i < at.len() ==> 0 <= #[trigger] at[i] < big.len() && big[at[i]] == small[i]
    &&& forall|i: int, j: int| 0 <= i < j < at.len() ==> at[i] < at[j]
}

impl Paths {
    pub fn new() -> (r: Paths)
        ensures
            r@ == Seq::<Seq<Vector>>::empty(),
    {
        let r = Paths { paths: Vec::new() };
        assert(r@ =~= Seq::<Seq<Vector>>::empty());
        r
    }

    pub fn from_vec(paths: Vec<Path>) -> (r: Paths)
        ensures
            r.paths == paths,
            r@ == spec_deep(paths),
    {
        Paths { paths }
    }

    /// Appends one path.
    pub fn push(&mut self, path: Path)
        ensures
            final(self)@ == old(self)@.push(path@),
    {
        self.paths.push(path);
        assert(self@ =~= old(self)@.push(path@));
    }

    /// Appends the paths of another collection, in their order.
    pub fn extend(&mut self, other: Paths)
        ensures
            final(self)@ == old(self)@ + other@,
    {
        let mut rest = other.paths;
        self.paths.append(&mut rest);
        assert(self@ =~= old(self)@ + other@);
    }

    /// The box around all points of all paths; the box at the origin for an
    /// empty collection.
    pub fn bounding_box(&self) -> (b: Box)
        ensures
            b == spec_bounding_box(self@),
    {
        if self.paths.len() == 0 {
            return Box::default();
        }
        let ghost boxes = Seq::new(self@.len(), |i: int| spec_union(spec_point_boxes(self@[i])));
        let mut bx = Box::for_vectors(&self.paths[0]);
        assert(boxes.subrange(0, 1) =~= seq![boxes[0]]);
        let mut i: usize = 1;
        while i < self.paths.len()
            invariant
                1 <= i <= self.paths.len(),
                boxes == Seq::new(self@.len(), |i: int| spec_union(spec_point_boxes(self@[i]))),
                bx == spec_union(boxes.subrange(0, i as int)),
            decreases self.paths.len() - i,
        {
            proof {
                assert(boxes.subrange(0, i + 1).drop_last() =~= boxes.subrange(0, i as int));
            }
            bx = bx.extend(Box::for_vectors(&self.paths[i]));
            i += 1;
        }
        assert(boxes.subrange(0, self.paths.len() as int) =~= boxes);
        bx
    }

    /// A copy with every point mapped by `matrix`.
    pub fn transform(&self, matrix: &Matrix) -> (r: Paths)
        ensures
            r@ == spec_transform(self@, *matrix),
    {
        let mut paths: Vec<Path> = Vec::new();
        let mut i: usize = 0;
        while i < self.paths.len()
            invariant
                i <= self.paths.len(),
                paths.len() == i,
                forall|k: int| 0 <= k < i ==> (#[trigger] paths[k])@ == spec_path_transform(self@[k], *matrix),
            decreases self.paths.len() - i,
        {
            paths.push(path_transform(&self.paths[i], matrix));
            i += 1;
        }
        let r = Paths { paths };
        assert(r@ =~= spec_transform(self@, *matrix));
        r
    }

    /// A copy with every path chopped into steps of at most `step`.
    pub fn chop(&self, step: Scalar) -> (r: Paths)
        ensures
            r@ == spec_chop(self@, step),
            r@.len() == self@.len(),
            forall|k: int| 0 <= k < self@.len() ==> spec_embeds(self@[k], #[trigger] r@[k]),
    {
        proof {
            assert forall|k: int| 0 <= k < self@.len() implies spec_embeds(
                self@[k],
                #[trigger] spec_chop(self@, step)[k],
            ) by {
                crate::laws::lemma_chop_keeps_vertices(self@[k], step);
            }
        }
        let mut paths: Vec<Path> = Vec::new();
        let mut i: usize = 0;
        while i < self.paths.len()
            invariant
                i <= self.paths.len(),
                paths.len() == i,
                forall|k: int| 0 <= k < i ==> (#[trigger] paths[k])@ == spec_path_chop(self@[k], step),
            decreases self.paths.len() - i,
        {
            paths.push(path_chop(&self.paths[i], step));
            i += 1;
        }
        let r = Paths { paths };
        assert(r@ =~= spec_chop(self@, step));
        r
    }

    /// The runs of points that the filter keeps, path by path. A path is
    /// cut at every point that the filter drops, and a run of fewer than
    /// two points is no path.
    pub fn filter<F: Filter>(&self, f: &F) -> (r: Paths)
        ensures
            r@ == spec_filter(self@, f),
            crate::laws::spec_all_drawable(r@),
    {
        proof {
            crate::laws::lemma_filter_all_drops_short_runs(self@, f);
        }
        let mut result: Vec<Path> = Vec::new();
        let ghost parts = Seq::new(self@.len(), |i: int| spec_path_filter(self@[i], f));
        let mut i: usize = 0;
        while i < self.paths.len()
            invariant
                i <= self.paths.len(),
                parts == Seq::new(self@.len(), |i: int| spec_path_filter(self@[i], f)),
                spec_deep(result) == spec_flatten(parts.subrange(0, i as int)),
            decreases self.paths.len() - i,
        {
            let mut runs = path_filter(&self.paths[i], f);
            let ghost before = spec_deep(result);
            let ghost added = spec_deep(runs);
            result.append(&mut runs);
            proof {
                assert(parts.subrange(0, i + 1).drop_last() =~= parts.subrange(0, i as int));
                assert(spec_deep(result) =~= before + added);
            }
            i += 1;
        }
        assert(parts.subrange(0, self.paths.len() as int) =~= parts);
        Paths { paths: result }
    }

    /// A copy with every path simplified.
    pub fn simplify(&self, threshold: Scalar) -> (r: Paths)
        ensures
            r@ == spec_simplify(self@, threshold),
    {
        let mut paths: Vec<Path> = Vec::new();
        let mut i: usize = 0;
        while i < self.paths.len()
            invariant
                i <= self.paths.len(),
                paths.len() == i,
                forall|k: int|
                    0 <= k < i ==> (#[trigger] paths[k])@ == spec_path_simplify(self@[k], threshold),
            decreases self.paths.len() - i,
        {
            paths.push(path_simplify(&self.paths[i], threshold));
            i += 1;
        }
        let r = Paths { paths };
        assert(r@ =~= spec_simplify(self@, threshold));
        r
    }
}

impl Default for Paths {
    fn default() -> (r: Paths)
        ensures
            r@ == Seq::<Seq<Vector>>::empty(),
    {
        Paths::new()
    }
}

/// The images of a path's points under `matrix`.
pub fn path_transform(path: &Path, matrix: &Matrix) -> (r: Path)
    ensures
        r@ == spec_path_transform(path@, *matrix),
{
    let mut r: Vec<Vector> = Vec::new();
    let mut i: usize = 0;
    while i < path.len()
        invariant
            i <= path.len(),
            r.len() == i,
            forall|k: int| 0 <= k < i ==> #[trigger] r[k] == matrix.spec_mul_position(path[k]),
        decreases path.len() - i,
    {
        r.push(matrix.mul_position(path[i]));
        i += 1;
    }
    assert(r@ =~= spec_path_transform(path@, *matrix));
    r
}

/// Appends to `result` the points between `a` and `b`.
fn chop_segment(a: Vector, b: Vector, step: Scalar, result: &mut Vec<Vector>)
    ensures
        final(result)@ == old(result)@ + spec_segment_points(a, b, step),
{
    let v = b.sub(a);
    let l = v.length();
    let mut d = step;
    let mut live = d.lt(l);
    while live
        invariant
            live ==> d.spec_lt(l),
            old(result)@ + spec_steps(a, v, l, step, step) == result@ + (if live {
                spec_steps(a, v, l, step, d)
            } else {
                Seq::empty()
            }),
        decreases
                (if live {
                    l.rank() - d.rank()
                } else {
                    0
                }),
    {
        let ghost before = result@;
        let ghost rest = spec_steps(a, v, l, step, d);
        let p = a.add(v.mul_scalar(d.div(l)));
        result.push(p);
        let next = d.add(step);
        proof {
            if next.spec_gt(d) {
                let tail = spec_steps(a, v, l, step, next);
                assert(before + (seq![p] + tail) =~= before.push(p) + tail);
                assert(tail =~= tail + Seq::<Vector>::empty());
            } else {
                assert(before + seq![p] =~= before.push(p) + Seq::<Vector>::empty());
            }
        }
        if next.gt(d) {
            d = next;
            live = d.lt(l);
        } else {
            live = false;
        }
    }
}

/// A path with each of its segments chopped into steps of at most `step`.
pub fn path_chop(path: &Path, step: Scalar) -> (r: Path)
    ensures
        r@ == spec_path_chop(path@, step),
        spec_embeds(path@, r@),
{
    proof {
        crate::laws::lemma_chop_keeps_vertices(path@, step);
    }
    let mut result: Vec<Vector> = Vec::new();
    if path.len() == 0 {
        assert(result@ =~= path@);
        return result;
    }
    result.push(path[0]);
    assert(result@ =~= path@.subrange(0, 1));
    let mut i: usize = 0;
    while i < path.len() - 1
        invariant
            path.len() >= 1,
            i <= path.len() - 1,
            result@ == spec_path_chop(path@.subrange(0, i + 1), step),
        decreases path.len() - i,
    {
        let a = path[i];
        let b = path[i + 1];
        chop_segment(a, b, step, &mut result);
        result.push(b);
        proof {
            let now = path@.subrange(0, i + 2);
            assert(now.drop_last() =~= path@.subrange(0, i + 1));
        }
        i += 1;
    }
    assert(path@.subrange(0, path.len() as int) =~= path@);
    result
}

/// The maximal runs of points of `path` that the filter keeps, each as a
/// path of its own, without the runs of fewer than two points.
pub fn path_filter<F: Filter>(path: &Path, f: &F) -> (result: Vec<Path>)
    ensures
        spec_deep(result) == spec_path_filter(path@, f),
        crate::laws::spec_all_drawable(spec_deep(result)),
{
    proof {
        crate::laws::lemma_filter_drops_short_runs(path@, f);
    }
    let mut result: Vec<Path> = Vec::new();
    let mut current: Vec<Vector> = Vec::new();
    let mut i: usize = 0;
    assert(spec_deep(result) =~= Seq::<Seq<Vector>>::empty());
    while i < path.len()
        invariant
            i <= path.len(),
            (spec_deep(result), current@) == spec_scan(path@, f, i as nat),
        decreases path.len() - i,
    {
        let ghost done = spec_deep(result);
        match f.filter(path[i]) {
            Some(w) => {
                current.push(w);
            },
            None => {
                if current.len() > 1 {
                    result.push(current);
                    assert(spec_deep(result) =~= done.push(current@));
                }
                current = Vec::new();
            },
        }
        i += 1;
    }
    if current.len() > 1 {
        let ghost done = spec_deep(result);
        result.push(current);
        assert(spec_deep(result) =~= done.push(current@));
    }
    result
}

/// A simplified path begins and ends where the path does, and has two
/// points or more where the path has.
pub proof fn lemma_simplify_ends(path: Seq<Vector>, threshold: Scalar)
    ensures
        path.len() < 3 ==> spec_path_simplify(path, threshold) == path,
        path.len() >= 2 ==> {
            let s = spec_path_simplify(path, threshold);
            s.len() >= 2 && s[0] == path[0] && s.last() == path.last()
        },
    decreases path.len(),
{
    if path.len() >= 3 {
        let far = spec_farthest(path, path.len() - 1);
        if far.1.spec_gt(threshold) && 0 < far.0 < path.len() - 1 {
            lemma_simplify_ends(path.subrange(0, far.0 + 1), threshold);
            lemma_simplify_ends(path.subrange(far.0, path.len() as int), threshold);
        }
    }
}

/// Appends to `out` the simplification of the points of `path` from `lo` to
/// `hi`, without its first point.
fn simplify_tail(path: &Path, lo: usize, hi: usize, threshold: Scalar, out: &mut Vec<Vector>)
    requires
        lo <= hi < path.len(),
    ensures
        final(out)@ == old(out)@ + spec_path_simplify(
            path@.subrange(lo as int, hi + 1),
            threshold,
        ).drop_first(),
    decreases hi - lo,
{
    let ghost part = path@.subrange(lo as int, hi + 1);
    if hi - lo < 2 {
        if hi > lo {
            out.push(path[hi]);
            assert(part.drop_first() =~= seq![path[hi as int]]);
        } else {
            assert(part.drop_first() =~= Seq::<Vector>::empty());
        }
        assert(out@ =~= old(out)@ + part.drop_first());
        return ;
    }
    let a = path[lo];
    let b = path[hi];
    let mut index: usize = lo;
    let mut distance = Scalar::zero();
    let mut i: usize = lo + 1;
    while i < hi
        invariant
            lo + 1 <= i <= hi < path.len(),
            part == path@.subrange(lo as int, hi + 1),
            a == part[0],
            b == part.last(),
            lo <= index < i,
            (index - lo, distance) == spec_farthest(part, i - lo),
        decreases hi - i,
    {
        let d = path[i].segment_distance(a, b);
        if d.gt(distance) {
            index = i;
            distance = d;
        }
        i += 1;
    }
    if distance.gt(threshold) && index > lo {
        let ghost left = part.subrange(0, index - lo + 1);
        let ghost right = part.subrange(index - lo, part.len() as int);
        proof {
            assert(left =~= path@.subrange(lo as int, index + 1));
            assert(right =~= path@.subrange(index as int, hi + 1));
            lemma_simplify_ends(left, threshold);
            lemma_simplify_ends(right, threshold);
        }
        simplify_tail(path, lo, index, threshold, out);
        simplify_tail(path, index, hi, threshold, out);
        proof {
            let s1 = spec_path_simplify(left, threshold);
            let s2 = spec_path_simplify(right, threshold);
            assert((s1.drop_last() + s2).drop_first() =~= s1.drop_first() + s2.drop_first());
        }
    } else {
        out.push(b);
        assert(seq![part[0], part.last()].drop_first() =~= seq![b]);
        assert(out@ =~= old(out)@ + seq![b]);
    }
}

/// The Ramer-Douglas-Peucker simplification of a path with the given
/// distance threshold.
pub fn path_simplify(path: &Path, threshold: Scalar) -> (r: Path)
    ensures
        r@ == spec_path_simplify(path@, threshold),
{
    let mut out: Vec<Vector> = Vec::new();
    if path.len() == 0 {
        assert(out@ =~= path@);
        return out;
    }
    out.push(path[0]);
    simplify_tail(path, 0, path.len() - 1, threshold, &mut out);
    proof {
        assert(path@.subrange(0, path.len() as int) =~= path@);
        lemma_simplify_ends(path@, threshold);
        let s = spec_path_simplify(path@, threshold);
        if path.len() == 1 {
            assert(s.drop_first() =~= Seq::<Vector>::empty());
        }
        assert(out@ =~= s);
    }
    out
}

} // verus!
