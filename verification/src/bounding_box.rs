//! Axis-aligned bounding boxes.

use crate::axis::Axis;
use crate::ray::Ray;
use crate::scalar::Scalar;
use crate::shape::Shape;
use crate::triangle::Triangle;
use crate::vector::Vector;
use vstd::prelude::*;

verus! {

/// An axis-aligned box, by its least and greatest corner.
#[derive(Clone, Copy, Debug)]
pub struct Box {
    pub min: Vector,
    pub max: Vector,
}

/// The coordinate of `v` along `axis`; zero for `Axis::NoAxis`.
pub open spec fn spec_coordinate(v: Vector, axis: Axis) -> Scalar {
    match axis {
        Axis::X => v.x,
        Axis::Y => v.y,
        Axis::Z => v.z,
        Axis::NoAxis => Scalar::spec_zero(),
    }
}

/// The coordinate of `v` along `axis`; zero for `Axis::NoAxis`.
pub fn coordinate(v: Vector, axis: Axis) -> (c: Scalar)
    ensures
        c == spec_coordinate(v, axis),
{
    match axis {
        Axis::X => v.x,
        Axis::Y => v.y,
        Axis::Z => v.z,
        Axis::NoAxis => Scalar::zero(),
    }
}

/// The interval of ray parameters between two parallel planes (a slab) at
/// `lo` and `hi`, for a ray that starts at `origin` and moves by `direction`
/// per unit: entry first, exit second. A zero `direction` gives infinities
/// or NaNs, which are handed on as they are.
pub open spec fn spec_slab(lo: Scalar, hi: Scalar, origin: Scalar, direction: Scalar) -> (
    Scalar,
    Scalar,
) {
    let a = lo.spec_sub(origin).spec_div(direction);
    let b = hi.spec_sub(origin).spec_div(direction);
    if a.spec_gt(b) {
        (b, a)
    } else {
        (a, b)
    }
}

fn slab(lo: Scalar, hi: Scalar, origin: Scalar, direction: Scalar) -> (r: (Scalar, Scalar))
    ensures
        r == spec_slab(lo, hi, origin, direction),
{
    let a = lo.sub(origin).div(direction);
    let b = hi.sub(origin).div(direction);
    if a.gt(b) {
        (b, a)
    } else {
        (a, b)
    }
}

/// The union of the boxes of a sequence, taken from the left; the box at
/// the origin for an empty sequence.
pub open spec fn spec_union(boxes: Seq<Box>) -> Box
    decreases boxes.len(),
{
    if boxes.len() == 0 {
        Box::spec_default()
    } else if boxes.len() == 1 {
        boxes[0]
    } else {
        spec_union(boxes.drop_last()).spec_extend(boxes.last())
    }
}

/// The degenerate boxes of a sequence of points.
pub open spec fn spec_point_boxes(vectors: Seq<Vector>) -> Seq<Box> {
    Seq::new(vectors.len(), |i: int| (Box { min: vectors[i], max: vectors[i] }))
}

impl Box {
    pub open spec fn spec_new(min: Vector, max: Vector) -> Box {
        Box { min, max }
    }

    /// The box whose two corners are the origin.
    pub open spec fn spec_default() -> Box {
        Box { min: Vector::spec_zero(), max: Vector::spec_zero() }
    }

    pub open spec fn spec_size(self) -> Vector {
        self.max.spec_sub(self.min)
    }

    /// The point at the given fraction of the box's extent along each axis.
    pub open spec fn spec_anchor(self, anchor: Vector) -> Vector {
        self.min.spec_add(self.spec_size().spec_mul(anchor))
    }

    pub open spec fn spec_center(self) -> Vector {
        self.spec_anchor(
            Vector {
                x: Scalar { bits: crate::scalar::HALF_BITS },
                y: Scalar { bits: crate::scalar::HALF_BITS },
                z: Scalar { bits: crate::scalar::HALF_BITS },
            },
        )
    }

    /// Whether the point lies in the closed box.
    pub open spec fn spec_contains(self, v: Vector) -> bool {
        &&& self.min.x.spec_le(v.x)
        &&& self.max.x.spec_ge(v.x)
        &&& self.min.y.spec_le(v.y)
        &&& self.max.y.spec_ge(v.y)
        &&& self.min.z.spec_le(v.z)
        &&& self.max.z.spec_ge(v.z)
    }

    /// The smallest box around both boxes.
    pub open spec fn spec_extend(self, other: Box) -> Box {
        Box { min: self.min.spec_min(other.min), max: self.max.spec_max(other.max) }
    }

    /// The interval of ray parameters in which the ray is inside the box:
    /// the latest entry and the earliest exit over the three slabs.
    pub open spec fn spec_intersect(self, r: Ray) -> (Scalar, Scalar) {
        let x = spec_slab(self.min.x, self.max.x, r.origin.x, r.direction.x);
        let y = spec_slab(self.min.y, self.max.y, r.origin.y, r.direction.y);
        let z = spec_slab(self.min.z, self.max.z, r.origin.z, r.direction.z);
        (x.0.spec_max(y.0).spec_max(z.0), x.1.spec_min(y.1).spec_min(z.1))
    }

    /// Whether the box reaches to the left of the plane at `point` across
    /// `axis` (first), and whether it reaches to the right (second). Both
    /// hold of a box that straddles the plane; neither for `Axis::NoAxis`.
    pub open spec fn spec_partition(self, axis: Axis, point: Scalar) -> (bool, bool) {
        match axis {
            Axis::NoAxis => (false, false),
            _ => (
                spec_coordinate(self.min, axis).spec_le(point),
                spec_coordinate(self.max, axis).spec_ge(point),
            ),
        }
    }

    pub fn new(min: Vector, max: Vector) -> (b: Box)
        ensures
            b == (Box { min, max }),
    {
        Box { min, max }
    }

    /// The box around the solids; the box at the origin for none.
    pub fn for_shapes<S: Shape>(shapes: &[&S]) -> (b: Box)
        ensures
            b == spec_union(Seq::new(shapes@.len(), |i: int| shapes@[i].spec_bounding_box())),
    {
        if shapes.len() == 0 {
            return Box::default();
        }
        let ghost boxes = Seq::new(shapes@.len(), |i: int| shapes@[i].spec_bounding_box());
        let mut bx = shapes[0].bounding_box();
        assert(boxes.subrange(0, 1) =~= seq![boxes[0]]);
        let mut i: usize = 1;
        while i < shapes.len()
            invariant
                1 <= i <= shapes.len(),
                boxes == Seq::new(shapes@.len(), |i: int| shapes@[i].spec_bounding_box()),
                bx == spec_union(boxes.subrange(0, i as int)),
            decreases shapes.len() - i,
        {
            proof {
                assert(boxes.subrange(0, i + 1).drop_last() =~= boxes.subrange(0, i as int));
            }
            bx = bx.extend(shapes[i].bounding_box());
            i += 1;
        }
        assert(boxes.subrange(0, shapes.len() as int) =~= boxes);
        bx
    }

    /// The box around the triangles' boxes; the box at the origin for none.
    pub fn for_triangles(triangles: &[Triangle]) -> (b: Box)
        ensures
            b == spec_union(crate::mesh::spec_triangle_boxes(triangles@)),
    {
        if triangles.len() == 0 {
            return Box::default();
        }
        let ghost boxes = crate::mesh::spec_triangle_boxes(triangles@);
        let mut bx = triangles[0].bx;
        assert(boxes.subrange(0, 1) =~= seq![boxes[0]]);
        let mut i: usize = 1;
        while i < triangles.len()
            invariant
                1 <= i <= triangles.len(),
                boxes == crate::mesh::spec_triangle_boxes(triangles@),
                bx == spec_union(boxes.subrange(0, i as int)),
            decreases triangles.len() - i,
        {
            proof {
                assert(boxes.subrange(0, i + 1).drop_last() =~= boxes.subrange(0, i as int));
            }
            bx = bx.extend(triangles[i].bx);
            i += 1;
        }
        assert(boxes.subrange(0, triangles.len() as int) =~= boxes);
        bx
    }

    /// The smallest box around the points; the box at the origin for none.
    pub fn for_vectors(vectors: &Vec<Vector>) -> (b: Box)
        ensures
            b == spec_union(spec_point_boxes(vectors@)),
    {
        if vectors.len() == 0 {
            return Box::default();
        }
        let ghost boxes = spec_point_boxes(vectors@);
        let mut bx = Box::new(vectors[0], vectors[0]);
        let mut i: usize = 1;
        assert(boxes.subrange(0, 1) =~= seq![boxes[0]]);
        while i < vectors.len()
            invariant
                1 <= i <= vectors.len(),
                boxes == spec_point_boxes(vectors@),
                bx == spec_union(boxes.subrange(0, i as int)),
            decreases vectors.len() - i,
        {
            let v = vectors[i];
            proof {
                let next = boxes.subrange(0, i + 1);
                assert(next.drop_last() =~= boxes.subrange(0, i as int));
            }
            bx = bx.extend(Box::new(v, v));
            i += 1;
        }
        assert(boxes.subrange(0, vectors.len() as int) =~= boxes);
        bx
    }

    pub fn anchor(&self, anchor: Vector) -> (r: Vector)
        ensures
            r == self.spec_anchor(anchor),
    {
        self.min.add(self.size().mul(anchor))
    }

    pub fn center(&self) -> (r: Vector)
        ensures
            r == self.spec_center(),
    {
        let half = Scalar::from_bits(crate::scalar::HALF_BITS);
        self.anchor(Vector::new(half, half, half))
    }

    pub fn size(&self) -> (r: Vector)
        ensures
            r == self.spec_size(),
    {
        self.max.sub(self.min)
    }

    pub fn contains(&self, v: Vector) -> (b: bool)
        ensures
            b == self.spec_contains(v),
    {
        self.min.x.le(v.x) && self.max.x.ge(v.x) && self.min.y.le(v.y) && self.max.y.ge(v.y)
            && self.min.z.le(v.z) && self.max.z.ge(v.z)
    }

    pub fn extend(&self, other: Box) -> (b: Box)
        ensures
            b == self.spec_extend(other),
    {
        Box { min: self.min.min(other.min), max: self.max.max(other.max) }
    }

    pub fn intersect(&self, r: Ray) -> (t: (Scalar, Scalar))
        ensures
            t == self.spec_intersect(r),
    {
        let x = slab(self.min.x, self.max.x, r.origin.x, r.direction.x);
        let y = slab(self.min.y, self.max.y, r.origin.y, r.direction.y);
        let z = slab(self.min.z, self.max.z, r.origin.z, r.direction.z);
        let t1 = x.0.max(y.0).max(z.0);
        let t2 = x.1.min(y.1).min(z.1);
        (t1, t2)
    }

    pub fn partition(&self, axis: Axis, point: Scalar) -> (r: (bool, bool))
        ensures
            r == self.spec_partition(axis, point),
    {
        match axis {
            Axis::X => (self.min.x.le(point), self.max.x.ge(point)),
            Axis::Y => (self.min.y.le(point), self.max.y.ge(point)),
            Axis::Z => (self.min.z.le(point), self.max.z.ge(point)),
            Axis::NoAxis => (false, false),
        }
    }
}

impl Default for Box {
    fn default() -> (b: Box)
        ensures
            b == Box::spec_default(),
    {
        Box { min: Vector::zero(), max: Vector::zero() }
    }
}

/// A box that holds a point still holds it after it is extended, as long as
/// no coordinate of the other box is a NaN.
pub proof fn lemma_extend_keeps_points(a: Box, b: Box, v: Vector)
    requires
        a.spec_contains(v),
        !b.min.x.spec_is_nan() && !b.min.y.spec_is_nan() && !b.min.z.spec_is_nan(),
        !b.max.x.spec_is_nan() && !b.max.y.spec_is_nan() && !b.max.z.spec_is_nan(),
    ensures
        a.spec_extend(b).spec_contains(v),
        b.spec_extend(a).spec_contains(v),
{
}

} // verus!
