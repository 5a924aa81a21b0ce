//! The spatial index: a binary partition of a collection of solids that
//! answers nearest-hit queries without asking every solid.

use crate::axis::Axis;
use crate::bounding_box::{coordinate, spec_coordinate, spec_union, Box};
use crate::hit::Hit;
use crate::ray::Ray;
use crate::scalar::Scalar;
use crate::shape::{share, Shape};
use crate::sorting::{sort, spec_sorted};
use crate::util::{median, spec_median};
use std::sync::Arc;
use vstd::prelude::*;

verus! {

/// A node holds fewer solids than this only as a leaf.
pub const LEAF_SIZE: usize = 8;

/// A node of the index: a leaf, which holds solids and has `Axis::NoAxis`
/// and no children, or an inner node, which holds no solids and has a split
/// axis, a split coordinate and two children.
pub struct Node<S> {
    pub axis: Axis,
    pub point: Scalar,
    pub shapes: Vec<Arc<S>>,
    pub left: Option<std::boxed::Box<Node<S>>>,
    pub right: Option<std::boxed::Box<Node<S>>>,
}

/// The index over a collection of solids: the box around all of them, as it
/// was when the index was built, and the root node.
pub struct Tree<S> {
    pub bx: Box,
    pub root: Node<S>,
}

/// The bounding boxes of the solids.
pub open spec fn spec_boxes<S: Shape>(shapes: Seq<Arc<S>>) -> Seq<Box> {
    Seq::new(shapes.len(), |i: int| shapes[i].spec_bounding_box())
}

/// What the solids answer to the ray.
pub open spec fn spec_hits<S: Shape>(shapes: Seq<Arc<S>>, r: Ray) -> Seq<Hit> {
    Seq::new(shapes.len(), |i: int| shapes[i].spec_intersect(r))
}

/// The nearest of the hits: the first whose distance is below that of all
/// before it and not above that of any after it; "no hit" where no distance
/// is below infinity.
pub open spec fn spec_nearest(hits: Seq<Hit>) -> Hit
    decreases hits.len(),
{
    if hits.len() == 0 {
        Hit::spec_no_hit()
    } else {
        let best = spec_nearest(hits.drop_last());
        if hits.last().t.spec_lt(best.t) {
            hits.last()
        } else {
            best
        }
    }
}

/// The least and greatest coordinate of each box along the axis, box by
/// box.
pub open spec fn spec_coordinates(boxes: Seq<Box>, axis: Axis) -> Seq<Scalar> {
    Seq::new(
        2 * boxes.len(),
        |k: int|
            if k % 2 == 0 {
                spec_coordinate(boxes[k / 2].min, axis)
            } else {
                spec_coordinate(boxes[k / 2].max, axis)
            },
    )
}

/// The split coordinate that an axis offers: the median of the boxes'
/// coordinates along it.
pub open spec fn spec_candidate(boxes: Seq<Box>, axis: Axis) -> Scalar {
    spec_median(spec_sorted(spec_coordinates(boxes, axis)))
}

/// Whether a box goes to the left (or to the right) of a split. A box that
/// straddles the split goes to both sides.
pub open spec fn spec_on_side(b: Box, axis: Axis, point: Scalar, left: bool) -> bool {
    if left {
        b.spec_partition(axis, point).0
    } else {
        b.spec_partition(axis, point).1
    }
}

/// The number of boxes that go to one side of a split.
pub open spec fn spec_count(boxes: Seq<Box>, axis: Axis, point: Scalar, left: bool) -> nat
    decreases boxes.len(),
{
    if boxes.len() == 0 {
        0
    } else {
        spec_count(boxes.drop_last(), axis, point, left) + if spec_on_side(
            boxes.last(),
            axis,
            point,
            left,
        ) {
            1nat
        } else {
            0nat
        }
    }
}

/// The score of a split: the size of its larger side.
pub open spec fn spec_score(boxes: Seq<Box>, axis: Axis, point: Scalar) -> nat {
    let l = spec_count(boxes, axis, point, true);
    let r = spec_count(boxes, axis, point, false);
    if l >= r {
        l
    } else {
        r
    }
}

/// Whether a split with the given score pays for a node of `n` solids: the
/// score is below 0.85 times `n`.
pub open spec fn spec_pays(score: nat, n: nat) -> bool {
    20 * score < 17 * n
}

/// The score that a split must beat: the least integer that is not below
/// 0.85 times the number of solids. A score is below it exactly where it
/// is below 0.85 times that number.
pub open spec fn spec_baseline(n: nat) -> nat {
    ((17 * n + 19) / 20) as nat
}

/// A score is below the baseline exactly where the split pays.
pub proof fn lemma_baseline_is_exact(score: nat, n: nat)
    ensures
        score < spec_baseline(n) <==> spec_pays(score, n),
{
}

/// The split chosen for a node that holds the given boxes: among the three
/// axes, each with its candidate coordinate, the one with the least score,
/// on a tie the earlier axis; `Axis::NoAxis` where no score is below 0.85
/// times the number of boxes.
pub open spec fn spec_choice(boxes: Seq<Box>) -> (Axis, Scalar) {
    let mx = spec_candidate(boxes, Axis::X);
    let my = spec_candidate(boxes, Axis::Y);
    let mz = spec_candidate(boxes, Axis::Z);
    let sx = spec_score(boxes, Axis::X, mx);
    let sy = spec_score(boxes, Axis::Y, my);
    let sz = spec_score(boxes, Axis::Z, mz);
    let start = (spec_baseline(boxes.len()), Axis::NoAxis, Scalar::spec_zero());
    let first = if sx < start.0 {
        (sx, Axis::X, mx)
    } else {
        start
    };
    let second = if sy < first.0 {
        (sy, Axis::Y, my)
    } else {
        first
    };
    if sz < second.0 {
        (Axis::Z, mz)
    } else {
        (second.1, second.2)
    }
}

/// The solids that go to one side of a split, in their order.
pub open spec fn spec_side<S: Shape>(
    shapes: Seq<Arc<S>>,
    axis: Axis,
    point: Scalar,
    left: bool,
) -> Seq<Arc<S>>
    decreases shapes.len(),
{
    if shapes.len() == 0 {
        Seq::empty()
    } else {
        let rest = spec_side(shapes.drop_last(), axis, point, left);
        if spec_on_side(shapes.last().spec_bounding_box(), axis, point, left) {
            rest.push(shapes.last())
        } else {
            rest
        }
    }
}

/// A side of a split holds as many solids as `spec_count` counts boxes.
pub proof fn lemma_side_len<S: Shape>(shapes: Seq<Arc<S>>, axis: Axis, point: Scalar, left: bool)
    ensures
        spec_side(shapes, axis, point, left).len() == spec_count(
            spec_boxes(shapes),
            axis,
            point,
            left,
        ),
        spec_count(spec_boxes(shapes), axis, point, left) <= shapes.len(),
    decreases shapes.len(),
{
    if shapes.len() > 0 {
        lemma_side_len(shapes.drop_last(), axis, point, left);
        assert(spec_boxes(shapes).drop_last() =~= spec_boxes(shapes.drop_last()));
    }
}

/// A split that is chosen leaves fewer solids on each side than there were.
pub proof fn lemma_choice_shrinks(boxes: Seq<Box>)
    ensures
        spec_choice(boxes).0 != Axis::NoAxis ==> spec_score(
            boxes,
            spec_choice(boxes).0,
            spec_choice(boxes).1,
        ) < boxes.len(),
{
}

/// A node is split exactly where the split along one of the axes, at that
/// axis's candidate, pays: where its score is below 0.85 times the number
/// of boxes. The split that is chosen pays, is made at the candidate of its
/// axis, and has the least of the three scores.
pub proof fn lemma_split_is_taken_where_it_pays(boxes: Seq<Box>)
    ensures
        ({
            let n = boxes.len();
            let sx = spec_score(boxes, Axis::X, spec_candidate(boxes, Axis::X));
            let sy = spec_score(boxes, Axis::Y, spec_candidate(boxes, Axis::Y));
            let sz = spec_score(boxes, Axis::Z, spec_candidate(boxes, Axis::Z));
            let choice = spec_choice(boxes);
            let score = spec_score(boxes, choice.0, choice.1);
            &&& choice.0 != Axis::NoAxis <==> spec_pays(sx, n) || spec_pays(sy, n) || spec_pays(
                sz,
                n,
            )
            &&& choice.0 != Axis::NoAxis ==> {
                &&& choice.1 == spec_candidate(boxes, choice.0)
                &&& spec_pays(score, n)
                &&& score <= sx && score <= sy && score <= sz
            }
        }),
{
}


/// The box around all the solids; the box at the origin for none.
pub fn box_for_arc_shapes<S: Shape>(shapes: &Vec<Arc<S>>) -> (b: Box)
    ensures
        b == spec_union(spec_boxes(shapes@)),
{
    if shapes.len() == 0 {
        return Box::default();
    }
    let ghost boxes = spec_boxes(shapes@);
    let mut bx = shapes[0].bounding_box();
    assert(boxes.subrange(0, 1) =~= seq![boxes[0]]);
    let mut i: usize = 1;
    while i < shapes.len()
        invariant
            1 <= i <= shapes.len(),
            boxes == spec_boxes(shapes@),
            bx == spec_union(boxes.subrange(0, i as int)),
        decreases shapes.len() - i,
    {
        proof {
            assert(boxes.subrange(0, i + 1).drop_last() =~= boxes.subrange(0, i as int));
        }
        bx = bx.extend(shapes[i].bounding_box());
        i += 1;
    }
    assert(boxes.subrange(0, shapes.len() as int) =~= boxes);
    bx
}

impl<S: Shape> Node<S> {
    /// Whether the node is a leaf or a proper inner node, and so are all
    /// nodes below it.
    pub open spec fn wf(&self) -> bool
        decreases self,
    {
        match self.axis {
            Axis::NoAxis => self.left is None && self.right is None,
            _ => {
                &&& self.shapes@.len() == 0
                &&& match self.left {
                    Some(l) => l.wf(),
                    None => false,
                }
                &&& match self.right {
                    Some(r) => r.wf(),
                    None => false,
                }
            },
        }
    }

    /// Whether a solid is held by a leaf at or below the node.
    pub open spec fn spec_holds(&self, shape: Arc<S>) -> bool
        decreases self,
    {
        match self.axis {
            Axis::NoAxis => self.shapes@.contains(shape),
            _ => {
                ||| match self.left {
                    Some(l) => l.spec_holds(shape),
                    None => false,
                }
                ||| match self.right {
                    Some(r) => r.spec_holds(shape),
                    None => false,
                }
            },
        }
    }

    /// Whether the node is the index that `split` builds over the given
    /// solids: a leaf that holds them where they are fewer than
    /// `LEAF_SIZE` or no split is chosen, else an inner node with the
    /// chosen split, whose children are the indexes over its two sides.
    pub open spec fn spec_built_from(&self, shapes: Seq<Arc<S>>) -> bool
        decreases self,
    {
        let choice = spec_choice(spec_boxes(shapes));
        if shapes.len() < LEAF_SIZE || choice.0 == Axis::NoAxis {
            &&& self.axis == Axis::NoAxis
            &&& self.shapes@ == shapes
            &&& self.left is None
            &&& self.right is None
        } else {
            &&& self.axis == choice.0
            &&& self.point == choice.1
            &&& self.shapes@.len() == 0
            &&& match self.left {
                Some(l) => l.spec_built_from(spec_side(shapes, choice.0, choice.1, true)),
                None => false,
            }
            &&& match self.right {
                Some(r) => r.spec_built_from(spec_side(shapes, choice.0, choice.1, false)),
                None => false,
            }
        }
    }

    /// The answer of the node to a ray, for the part of the ray between the
    /// parameters `tmin` and `tmax`. A leaf gives the nearest hit among its
    /// solids. An inner node asks first the child on whose side the ray
    /// starts, up to the parameter at which the ray crosses the split
    /// plane; a hit at or before the crossing is the answer. Else it asks
    /// the other child beyond the crossing, and the nearer of the two hits
    /// is the answer. Where the crossing lies outside the part, only the
    /// child on that side of it is asked. An inner node that lacks a child
    /// answers "no hit".
    pub open spec fn spec_intersect(&self, r: Ray, tmin: Scalar, tmax: Scalar) -> Hit
        decreases self,
    {
        match self.axis {
            Axis::NoAxis => spec_nearest(spec_hits(self.shapes@, r)),
            _ => match (self.left, self.right) {
                (Some(left), Some(right)) => {
                    let origin = spec_coordinate(r.origin, self.axis);
                    let direction = spec_coordinate(r.direction, self.axis);
                    let tsplit = self.point.spec_sub(origin).spec_div(direction);
                    let left_first = origin.spec_lt(self.point) || (origin.spec_eq(self.point)
                        && direction.spec_le(Scalar::spec_zero()));
                    let first = if left_first {
                        left
                    } else {
                        right
                    };
                    let second = if left_first {
                        right
                    } else {
                        left
                    };
                    if tsplit.spec_gt(tmax) || tsplit.spec_le(Scalar::spec_zero()) {
                        first.spec_intersect(r, tmin, tmax)
                    } else if tsplit.spec_lt(tmin) {
                        second.spec_intersect(r, tmin, tmax)
                    } else {
                        let h1 = first.spec_intersect(r, tmin, tsplit);
                        if h1.t.spec_le(tsplit) {
                            h1
                        } else {
                            let h2 = second.spec_intersect(r, tsplit, tmax.spec_min(h1.t));
                            if h1.t.spec_le(h2.t) {
                                h1
                            } else {
                                h2
                            }
                        }
                    }
                },
                _ => Hit::spec_no_hit(),
            },
        }
    }

    /// A leaf that holds the given solids.
    pub fn new(shapes: Vec<Arc<S>>) -> (node: Node<S>)
        ensures
            node.axis == Axis::NoAxis,
            node.point == Scalar::spec_zero(),
            node.shapes == shapes,
            node.left is None,
            node.right is None,
            node.wf(),
    {
        Node { axis: Axis::NoAxis, point: Scalar::zero(), shapes, left: None, right: None }
    }

    /// The nearest hit of the ray between `tmin` and `tmax`, among the
    /// solids at and below the node.
    pub fn intersect(&self, r: Ray, tmin: Scalar, tmax: Scalar) -> (h: Hit)
        ensures
            h == self.spec_intersect(r, tmin, tmax),
            h == Hit::spec_no_hit() || exists|shape: Arc<S>|
                self.spec_holds(shape) && h == #[trigger] shape.spec_intersect(r),
        decreases self,
    {
        proof {
            crate::laws::lemma_node_hit_comes_from_a_solid(*self, r, tmin, tmax);
        }
        if self.axis == Axis::NoAxis {
            return self.intersect_shapes(r);
        }
        let origin = coordinate(r.origin, self.axis);
        let direction = coordinate(r.direction, self.axis);
        let tsplit = self.point.sub(origin).div(direction);
        let left_first = origin.lt(self.point) || (origin.eq(self.point) && direction.le(
            Scalar::zero(),
        ));
        match (&self.left, &self.right) {
            (Some(left), Some(right)) => {
                let first = if left_first {
                    left
                } else {
                    right
                };
                let second = if left_first {
                    right
                } else {
                    left
                };
                if tsplit.gt(tmax) || tsplit.le(Scalar::zero()) {
                    first.intersect(r, tmin, tmax)
                } else if tsplit.lt(tmin) {
                    second.intersect(r, tmin, tmax)
                } else {
                    let h1 = first.intersect(r, tmin, tsplit);
                    if h1.t.le(tsplit) {
                        h1
                    } else {
                        let h2 = second.intersect(r, tsplit, tmax.min(h1.t));
                        if h1.t.le(h2.t) {
                            h1
                        } else {
                            h2
                        }
                    }
                }
            },
            _ => Hit::no_hit(),
        }
    }

    /// The nearest hit among the solids that the node itself holds.
    fn intersect_shapes(&self, r: Ray) -> (h: Hit)
        ensures
            h == spec_nearest(spec_hits(self.shapes@, r)),
    {
        let ghost hits = spec_hits(self.shapes@, r);
        let mut hit = Hit::no_hit();
        let mut i: usize = 0;
        while i < self.shapes.len()
            invariant
                i <= self.shapes.len(),
                hits == spec_hits(self.shapes@, r),
                hit == spec_nearest(hits.subrange(0, i as int)),
            decreases self.shapes.len() - i,
        {
            proof {
                assert(hits.subrange(0, i + 1).drop_last() =~= hits.subrange(0, i as int));
            }
            let h = self.shapes[i].intersect(r);
            if h.t.lt(hit.t) {
                hit = h;
            }
            i += 1;
        }
        assert(hits.subrange(0, self.shapes.len() as int) =~= hits);
        hit
    }

    /// The size of the larger side of a split.
    fn partition_score(&self, axis: Axis, point: Scalar) -> (score: usize)
        ensures
            score == spec_score(spec_boxes(self.shapes@), axis, point),
            score <= self.shapes.len(),
    {
        let ghost boxes = spec_boxes(self.shapes@);
        let mut left: usize = 0;
        let mut right: usize = 0;
        let mut i: usize = 0;
        while i < self.shapes.len()
            invariant
                i <= self.shapes.len(),
                boxes == spec_boxes(self.shapes@),
                left == spec_count(boxes.subrange(0, i as int), axis, point, true),
                right == spec_count(boxes.subrange(0, i as int), axis, point, false),
                left <= i,
                right <= i,
            decreases self.shapes.len() - i,
        {
            proof {
                assert(boxes.subrange(0, i + 1).drop_last() =~= boxes.subrange(0, i as int));
            }
            let bx = self.shapes[i].bounding_box();
            let sides = bx.partition(axis, point);
            if sides.0 {
                left += 1;
            }
            if sides.1 {
                right += 1;
            }
            i += 1;
        }
        assert(boxes.subrange(0, self.shapes.len() as int) =~= boxes);
        if left >= right {
            left
        } else {
            right
        }
    }

    /// The solids that go to the left of a split, and those that go to the
    /// right. A solid whose box straddles the split goes to both.
    fn partition(&self, axis: Axis, point: Scalar) -> (sides: (Vec<Arc<S>>, Vec<Arc<S>>))
        ensures
            sides.0@ == spec_side(self.shapes@, axis, point, true),
            sides.1@ == spec_side(self.shapes@, axis, point, false),
    {
        let mut left: Vec<Arc<S>> = Vec::new();
        let mut right: Vec<Arc<S>> = Vec::new();
        let mut i: usize = 0;
        while i < self.shapes.len()
            invariant
                i <= self.shapes.len(),
                left@ == spec_side(self.shapes@.subrange(0, i as int), axis, point, true),
                right@ == spec_side(self.shapes@.subrange(0, i as int), axis, point, false),
            decreases self.shapes.len() - i,
        {
            proof {
                assert(self.shapes@.subrange(0, i + 1).drop_last() =~= self.shapes@.subrange(
                    0,
                    i as int,
                ));
            }
            let bx = self.shapes[i].bounding_box();
            let sides = bx.partition(axis, point);
            if sides.0 {
                left.push(share(&self.shapes[i]));
            }
            if sides.1 {
                right.push(share(&self.shapes[i]));
            }
            i += 1;
        }
        assert(self.shapes@.subrange(0, self.shapes.len() as int) =~= self.shapes@);
        (left, right)
    }

    /// The median of the boxes' coordinates along each axis.
    fn candidates(&self) -> (m: (Scalar, Scalar, Scalar))
        ensures
            m.0 == spec_candidate(spec_boxes(self.shapes@), Axis::X),
            m.1 == spec_candidate(spec_boxes(self.shapes@), Axis::Y),
            m.2 == spec_candidate(spec_boxes(self.shapes@), Axis::Z),
    {
        let ghost boxes = spec_boxes(self.shapes@);
        let mut xs: Vec<Scalar> = Vec::new();
        let mut ys: Vec<Scalar> = Vec::new();
        let mut zs: Vec<Scalar> = Vec::new();
        let mut i: usize = 0;
        while i < self.shapes.len()
            invariant
                i <= self.shapes.len(),
                boxes == spec_boxes(self.shapes@),
                xs@ == spec_coordinates(boxes.subrange(0, i as int), Axis::X),
                ys@ == spec_coordinates(boxes.subrange(0, i as int), Axis::Y),
                zs@ == spec_coordinates(boxes.subrange(0, i as int), Axis::Z),
            decreases self.shapes.len() - i,
        {
            let bx = self.shapes[i].bounding_box();
            xs.push(bx.min.x);
            xs.push(bx.max.x);
            ys.push(bx.min.y);
            ys.push(bx.max.y);
            zs.push(bx.min.z);
            zs.push(bx.max.z);
            proof {
                let next = boxes.subrange(0, i + 1);
                assert(xs@ =~= spec_coordinates(next, Axis::X));
                assert(ys@ =~= spec_coordinates(next, Axis::Y));
                assert(zs@ =~= spec_coordinates(next, Axis::Z));
            }
            i += 1;
        }
        assert(boxes.subrange(0, self.shapes.len() as int) =~= boxes);
        sort(&mut xs);
        sort(&mut ys);
        sort(&mut zs);
        (median(xs.as_slice()), median(ys.as_slice()), median(zs.as_slice()))
    }

    /// Turns a leaf that holds `LEAF_SIZE` solids or more into an inner
    /// node, if one of the three candidate splits leaves fewer than 0.85
    /// times its solids on each side, and goes on in the same way with the
    /// two children. Any other node is left as it is. `depth` is the number
    /// of nodes above this one.
    pub fn split(&mut self, depth: usize)
        requires
            old(self).wf(),
            depth + old(self).shapes.len() <= usize::MAX,
        ensures
            final(self).wf(),
            old(self).axis == Axis::NoAxis ==> final(self).spec_built_from(old(self).shapes@),
            old(self).axis != Axis::NoAxis || final(self).axis == Axis::NoAxis ==> *final(self)
                == *old(self),
        decreases old(self).shapes.len(),
    {
        let n = self.shapes.len();
        if n < LEAF_SIZE {
            return ;
        }
        let ghost shapes = self.shapes@;
        let ghost boxes = spec_boxes(shapes);
        let (mx, my, mz) = self.candidates();

        let mut best: usize = n / 20 * 17 + ((n % 20) * 17 + 19) / 20;
        assert(best == spec_baseline(n as nat));
        let mut best_axis = Axis::NoAxis;
        let mut best_point = Scalar::zero();

        let sx = self.partition_score(Axis::X, mx);
        if sx < best {
            best = sx;
            best_axis = Axis::X;
            best_point = mx;
        }
        let sy = self.partition_score(Axis::Y, my);
        if sy < best {
            best = sy;
            best_axis = Axis::Y;
            best_point = my;
        }
        let sz = self.partition_score(Axis::Z, mz);
        if sz < best {
            best_axis = Axis::Z;
            best_point = mz;
        }
        assert((best_axis, best_point) == spec_choice(boxes));
        if best_axis == Axis::NoAxis {
            return ;
        }
        let (l, r) = self.partition(best_axis, best_point);
        proof {
            lemma_choice_shrinks(boxes);
            lemma_side_len(shapes, best_axis, best_point, true);
            lemma_side_len(shapes, best_axis, best_point, false);
        }
        self.axis = best_axis;
        self.point = best_point;

        let mut left = Node::new(l);
        let mut right = Node::new(r);
        left.split(depth + 1);
        right.split(depth + 1);

        self.left = Some(std::boxed::Box::new(left));
        self.right = Some(std::boxed::Box::new(right));
        self.shapes.clear();
    }
}

impl<S: Shape> Tree<S> {
    /// Whether every node of the index is a leaf or a proper inner node.
    pub open spec fn wf(&self) -> bool {
        self.root.wf()
    }

    /// The answer of the index to a ray: "no hit" where the ray misses the
    /// box around all solids, else the answer of the root for the part of
    /// the ray inside that box.
    pub open spec fn spec_intersect(&self, r: Ray) -> Hit {
        let t = self.bx.spec_intersect(r);
        if t.1.spec_lt(t.0) || t.1.spec_le(Scalar::spec_zero()) {
            Hit::spec_no_hit()
        } else {
            self.root.spec_intersect(r, t.0, t.1)
        }
    }

    /// The index over the given solids.
    pub fn new(shapes: Vec<Arc<S>>) -> (tree: Tree<S>)
        ensures
            tree.wf(),
            tree.bx == spec_union(spec_boxes(shapes@)),
            tree.root.spec_built_from(shapes@),
    {
        let bx = box_for_arc_shapes(&shapes);
        let mut root = Node::new(shapes);
        root.split(0);
        Tree { bx, root }
    }

    /// The nearest hit of the ray among the solids of the index.
    pub fn intersect(&self, r: Ray) -> (h: Hit)
        ensures
            h == self.spec_intersect(r),
            h == Hit::spec_no_hit() || exists|shape: Arc<S>|
                self.root.spec_holds(shape) && h == #[trigger] shape.spec_intersect(r),
    {
        let (tmin, tmax) = self.bx.intersect(r);
        if tmax.lt(tmin) || tmax.le(Scalar::zero()) {
            return Hit::no_hit();
        }
        self.root.intersect(r, tmin, tmax)
    }
}

} // verus!
