//! Constructive solid geometry: solids made of two others by a set
//! operation.

use crate::bounding_box::Box;
use crate::filter::Filter;
use crate::hit::Hit;
use crate::path::{spec_chop, spec_filter, Paths};
use crate::ray::Ray;
use crate::scalar::Scalar;
use crate::shape::{share, Shape};
use crate::vector::Vector;
use std::sync::Arc;
use vstd::prelude::*;

verus! {

/// The bits of `1e-3`, the tolerance of the containment tests of a
/// combination.
pub const FUZZ_BITS: u64 = 0x3F50_624D_D2F1_A9FC;

/// The bits of `0.01`: the distance by which a ray is moved on past a hit
/// that is no boundary of the combination, and the step at which the
/// operands' curves are sampled.
pub const NUDGE_BITS: u64 = 0x3F84_7AE1_47AE_147B;

/// A set operation on two solids.
#[derive(Clone, Copy, Debug, PartialEq, Eq, Structural)]
pub enum Op {
    Intersection,
    Difference,
}

/// An operand of a combination: nothing, a solid, or a combination.
pub enum Csg<S> {
    Empty,
    Leaf(Arc<S>),
    Combined(Arc<BooleanShape<S>>),
}

/// The solid made of the operands `a` and `b` by `op`. `limit` bounds the
/// number of times a ray query starts again behind a hit that is no
/// boundary of the combination.
pub struct BooleanShape<S> {
    pub op: Op,
    pub a: Csg<S>,
    pub b: Csg<S>,
    pub limit: usize,
}

/// Whether a point is in a combination, from whether it is in `a` and
/// whether it is in `b`.
pub open spec fn spec_combine(op: Op, in_a: bool, in_b: bool) -> bool {
    match op {
        Op::Intersection => in_a && in_b,
        Op::Difference => in_a && !in_b,
    }
}

/// The tolerance with which `b` is asked: positive for the test "inside
/// `b`" of an intersection, negative for the test "outside `b`" of a
/// difference.
pub open spec fn spec_fuzz_b(op: Op) -> Scalar {
    match op {
        Op::Intersection => Scalar { bits: FUZZ_BITS },
        Op::Difference => Scalar { bits: FUZZ_BITS }.spec_neg(),
    }
}

impl<S: Shape> Csg<S> {
    pub open spec fn spec_bounding_box(&self) -> Box
        decreases self,
    {
        match self {
            Csg::Empty => Box::spec_default(),
            Csg::Leaf(s) => s.spec_bounding_box(),
            Csg::Combined(c) => c.spec_bounding_box(),
        }
    }

    pub open spec fn spec_contains(&self, v: Vector, f: Scalar) -> bool
        decreases self,
    {
        match self {
            Csg::Empty => false,
            Csg::Leaf(s) => s.spec_contains(v, f),
            Csg::Combined(c) => c.spec_contains(v, f),
        }
    }

    pub open spec fn spec_intersect(&self, r: Ray) -> Hit
        decreases self, 0nat, 0nat,
    {
        match self {
            Csg::Empty => Hit::spec_no_hit(),
            Csg::Leaf(s) => s.spec_intersect(r),
            Csg::Combined(c) => c.spec_intersect(r),
        }
    }

    pub open spec fn spec_paths(&self) -> Seq<Seq<Vector>>
        decreases self,
    {
        match self {
            Csg::Empty => Seq::empty(),
            Csg::Leaf(s) => s.spec_paths(),
            Csg::Combined(c) => c.spec_paths(),
        }
    }

    /// A second handle to the same operand.
    pub fn share(&self) -> (r: Csg<S>)
        ensures
            r == *self,
    {
        match self {
            Csg::Empty => Csg::Empty,
            Csg::Leaf(s) => Csg::Leaf(share(s)),
            Csg::Combined(c) => Csg::Combined(share(c)),
        }
    }

    pub fn bounding_box(&self) -> (b: Box)
        ensures
            b == self.spec_bounding_box(),
        decreases self,
    {
        match self {
            Csg::Empty => Box::default(),
            Csg::Leaf(s) => s.bounding_box(),
            Csg::Combined(c) => c.bounding_box(),
        }
    }

    pub fn contains(&self, v: Vector, f: Scalar) -> (b: bool)
        ensures
            b == self.spec_contains(v, f),
        decreases self,
    {
        match self {
            Csg::Empty => false,
            Csg::Leaf(s) => s.contains(v, f),
            Csg::Combined(c) => c.contains(v, f),
        }
    }

    pub fn intersect(&self, r: Ray) -> (h: Hit)
        ensures
            h == self.spec_intersect(r),
        decreases self, 0nat, 0nat,
    {
        match self {
            Csg::Empty => Hit::no_hit(),
            Csg::Leaf(s) => s.intersect(r),
            Csg::Combined(c) => c.intersect(r),
        }
    }

    pub fn paths(&self) -> (p: Paths)
        ensures
            p@ == self.spec_paths(),
        decreases self,
    {
        match self {
            Csg::Empty => Paths::new(),
            Csg::Leaf(s) => s.paths(),
            Csg::Combined(c) => c.paths(),
        }
    }
}

impl<S: Shape> BooleanShape<S> {
    /// The union of the operands' boxes.
    pub open spec fn spec_bounding_box(&self) -> Box
        decreases self,
    {
        self.a.spec_bounding_box().spec_extend(self.b.spec_bounding_box())
    }

    /// Whether the point is in the combination. The tolerance that the
    /// caller names is not used: `a` is asked with the tolerance `1e-3`,
    /// and `b` with `1e-3` for an intersection and with `-1e-3` for a
    /// difference.
    pub open spec fn spec_contains(&self, v: Vector, f: Scalar) -> bool
        decreases self,
    {
        spec_combine(
            self.op,
            self.a.spec_contains(v, Scalar { bits: FUZZ_BITS }),
            self.b.spec_contains(v, spec_fuzz_b(self.op)),
        )
    }

    /// The nearer of the operands' hits.
    pub open spec fn spec_raw_hit(&self, r: Ray) -> Hit
        decreases self, 0nat, 1nat,
    {
        self.a.spec_intersect(r).spec_min(self.b.spec_intersect(r))
    }

    /// The ray that goes on in the same direction from 0.01 behind the hit.
    pub open spec fn spec_onward(r: Ray, h: Hit) -> Ray {
        Ray {
            origin: r.spec_position(h.t.spec_add(Scalar { bits: NUDGE_BITS })),
            direction: r.direction,
        }
    }

    /// The hit of the ray on the combination, with `fuel` restarts left.
    /// The nearer of the operands' hits is the answer where it is "no hit"
    /// or its point is in the combination. Else the query starts again
    /// from behind that hit; its answer is measured from where it started.
    /// With no restart left the answer is "no hit".
    pub open spec fn spec_march(&self, r: Ray, fuel: nat) -> Hit
        decreases self, fuel, 2nat,
    {
        let h = self.spec_raw_hit(r);
        if !h.spec_is_ok() || self.spec_contains(r.spec_position(h.t), Scalar::spec_zero()) {
            h
        } else if fuel == 0 {
            Hit::spec_no_hit()
        } else {
            self.spec_march(Self::spec_onward(r, h), (fuel - 1) as nat)
        }
    }

    /// The hit of the ray on the combination.
    pub open spec fn spec_intersect(&self, r: Ray) -> Hit
        decreases self, self.limit, 3nat,
    {
        self.spec_march(r, self.limit as nat)
    }

    /// The operands' curves, sampled every 0.01 and cut down to the runs of
    /// points that are in the combination.
    pub open spec fn spec_paths(&self) -> Seq<Seq<Vector>>
        decreases self,
    {
        spec_filter(
            spec_chop(self.a.spec_paths() + self.b.spec_paths(), Scalar { bits: NUDGE_BITS }),
            self,
        )
    }

    /// The combination of `a` and `b` by `op`, with no bound on restarts
    /// that a query could reach.
    pub fn new(op: Op, a: Csg<S>, b: Csg<S>) -> (r: BooleanShape<S>)
        ensures
            r.op == op,
            r.a == a,
            r.b == b,
            r.limit == usize::MAX,
    {
        BooleanShape { op, a, b, limit: usize::MAX }
    }

    /// The same combination with the given bound on restarts.
    pub fn with_limit(self, limit: usize) -> (r: BooleanShape<S>)
        ensures
            r.op == self.op,
            r.a == self.a,
            r.b == self.b,
            r.limit == limit,
    {
        BooleanShape { op: self.op, a: self.a, b: self.b, limit }
    }

    pub fn bounding_box(&self) -> (b: Box)
        ensures
            b == self.spec_bounding_box(),
        decreases self,
    {
        let a = self.a.bounding_box();
        let b = self.b.bounding_box();
        a.extend(b)
    }

    pub fn contains(&self, v: Vector, _f: Scalar) -> (b: bool)
        ensures
            b == self.spec_contains(v, _f),
        decreases self,
    {
        let f = Scalar::from_bits(FUZZ_BITS);
        match self.op {
            Op::Intersection => self.a.contains(v, f) && self.b.contains(v, f),
            Op::Difference => self.a.contains(v, f) && !self.b.contains(v, f.neg()),
        }
    }

    fn march(&self, r: Ray, fuel: usize) -> (h: Hit)
        ensures
            h == self.spec_march(r, fuel as nat),
        decreases self, fuel, 2nat,
    {
        let mut ray = r;
        let mut left = fuel;
        loop
            invariant
                self.spec_march(r, fuel as nat) == self.spec_march(ray, left as nat),
            decreases left,
        {
            let h1 = self.a.intersect(ray);
            let h2 = self.b.intersect(ray);
            let h = h1.min(h2);
            assert(h == self.spec_raw_hit(ray));
            let v = ray.position(h.t);
            if !h.is_ok() || self.contains(v, Scalar::zero()) {
                return h;
            }
            if left == 0 {
                return Hit::no_hit();
            }
            ray = Ray::new(ray.position(h.t.add(Scalar::from_bits(NUDGE_BITS))), ray.direction);
            left = left - 1;
        }
    }

    pub fn intersect(&self, r: Ray) -> (h: Hit)
        ensures
            h == self.spec_intersect(r),
        decreases self, self.limit, 3nat,
    {
        self.march(r, self.limit)
    }

    pub fn paths(&self) -> (p: Paths)
        ensures
            p@ == self.spec_paths(),
        decreases self,
    {
        let mut p = self.a.paths();
        p.extend(self.b.paths());
        p = p.chop(Scalar::from_bits(NUDGE_BITS));
        p.filter(self)
    }
}

impl<S: Shape> Filter for BooleanShape<S> {
    open spec fn spec_filter(&self, v: Vector) -> Option<Vector> {
        if self.spec_contains(v, Scalar::spec_zero()) {
            Some(v)
        } else {
            None
        }
    }

    fn filter(&self, v: Vector) -> (r: Option<Vector>) {
        if self.contains(v, Scalar::zero()) {
            Some(v)
        } else {
            None
        }
    }
}

impl<S: Shape> Shape for BooleanShape<S> {
    open spec fn spec_bounding_box(&self) -> Box {
        BooleanShape::spec_bounding_box(self)
    }

    open spec fn spec_contains(&self, v: Vector, f: Scalar) -> bool {
        BooleanShape::spec_contains(self, v, f)
    }

    open spec fn spec_intersect(&self, r: Ray) -> Hit {
        BooleanShape::spec_intersect(self, r)
    }

    open spec fn spec_paths(&self) -> Seq<Seq<Vector>> {
        BooleanShape::spec_paths(self)
    }

    fn bounding_box(&self) -> (b: Box) {
        BooleanShape::bounding_box(self)
    }

    fn contains(&self, v: Vector, f: Scalar) -> (b: bool) {
        BooleanShape::contains(self, v, f)
    }

    fn intersect(&self, r: Ray) -> (h: Hit) {
        BooleanShape::intersect(self, r)
    }

    fn paths(&self) -> (p: Paths) {
        BooleanShape::paths(self)
    }
}

impl<S: Shape> Shape for Csg<S> {
    open spec fn spec_bounding_box(&self) -> Box {
        Csg::spec_bounding_box(self)
    }

    open spec fn spec_contains(&self, v: Vector, f: Scalar) -> bool {
        Csg::spec_contains(self, v, f)
    }

    open spec fn spec_intersect(&self, r: Ray) -> Hit {
        Csg::spec_intersect(self, r)
    }

    open spec fn spec_paths(&self) -> Seq<Seq<Vector>> {
        Csg::spec_paths(self)
    }

    fn bounding_box(&self) -> (b: Box) {
        Csg::bounding_box(self)
    }

    fn contains(&self, v: Vector, f: Scalar) -> (b: bool) {
        Csg::contains(self, v, f)
    }

    fn intersect(&self, r: Ray) -> (h: Hit) {
        Csg::intersect(self, r)
    }

    fn paths(&self) -> (p: Paths) {
        Csg::paths(self)
    }
}

/// The left fold of `op` over the first `n` solids: nothing for none, the
/// first solid for one, else the combination of the fold over the first
/// `n - 1` with the last.
pub open spec fn spec_fold<S: Shape>(op: Op, shapes: Seq<Arc<S>>, n: nat) -> Csg<S>
    decreases n,
{
    if n == 0 {
        Csg::Empty
    } else if n == 1 {
        Csg::Leaf(shapes[0])
    } else {
        Csg::Combined(
            Arc::new(
                BooleanShape {
                    op,
                    a: spec_fold(op, shapes, (n - 1) as nat),
                    b: Csg::Leaf(shapes[n - 1]),
                    limit: usize::MAX,
                },
            ),
        )
    }
}

/// The combination of the solids by `op`, pair by pair from the left. No
/// solids give the operand that contains nothing.
pub fn new_boolean_shape<S: Shape>(op: Op, shapes: Vec<Arc<S>>) -> (r: Csg<S>)
    ensures
        r == spec_fold(op, shapes@, shapes@.len()),
{
    if shapes.len() == 0 {
        return Csg::Empty;
    }
    let mut shape: Csg<S> = Csg::Leaf(share(&shapes[0]));
    let mut i: usize = 1;
    while i < shapes.len()
        invariant
            1 <= i <= shapes.len(),
            shape == spec_fold(op, shapes@, i as nat),
        decreases shapes.len() - i,
    {
        let next = Csg::Leaf(share(&shapes[i]));
        shape = Csg::Combined(Arc::new(BooleanShape::new(op, shape, next)));
        i += 1;
    }
    shape
}

/// The part of space that all the solids share.
pub fn new_intersection<S: Shape>(shapes: Vec<Arc<S>>) -> (r: Csg<S>)
    ensures
        r == spec_fold(Op::Intersection, shapes@, shapes@.len()),
{
    new_boolean_shape(Op::Intersection, shapes)
}

/// The first solid without the others.
pub fn new_difference<S: Shape>(shapes: Vec<Arc<S>>) -> (r: Csg<S>)
    ensures
        r == spec_fold(Op::Difference, shapes@, shapes@.len()),
{
    new_boolean_shape(Op::Difference, shapes)
}

} // verus!
