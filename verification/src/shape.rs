//! The capability that every solid offers to the renderer.

use crate::bounding_box::Box;
use crate::hit::Hit;
use crate::matrix::Matrix;
use crate::path::Paths;
use crate::ray::Ray;
use crate::scalar::Scalar;
use crate::vector::Vector;
use std::sync::Arc;
use vstd::prelude::*;

verus! {

/// A solid that can be rendered. Each query is a function of the solid and
/// the arguments alone: the `spec_` function names its answer, and a solid
/// that does not define it leaves the answer unspecified. No query fails;
/// "no hit", `false` and the empty collection are ordinary answers.
pub trait Shape {
    /// The solid's bounding box.
    open spec fn spec_bounding_box(&self) -> Box {
        arbitrary()
    }

    /// Whether the point lies in the solid, with the tolerance `f`.
    open spec fn spec_contains(&self, v: Vector, f: Scalar) -> bool {
        arbitrary()
    }

    /// The nearest hit of the ray on the solid.
    open spec fn spec_intersect(&self, r: Ray) -> Hit {
        arbitrary()
    }

    /// The curves drawn on the solid's surface.
    open spec fn spec_paths(&self) -> Seq<Seq<Vector>> {
        arbitrary()
    }

    /// Prepares the solid for queries. What the queries answer afterwards
    /// is up to the solid.
    fn compile(&mut self) {
    }

    fn bounding_box(&self) -> (b: Box)
        ensures
            b == self.spec_bounding_box(),
    ;

    fn contains(&self, v: Vector, f: Scalar) -> (b: bool)
        ensures
            b == self.spec_contains(v, f),
    ;

    fn intersect(&self, r: Ray) -> (h: Hit)
        ensures
            h == self.spec_intersect(r),
    ;

    fn paths(&self) -> (p: Paths)
        ensures
            p@ == self.spec_paths(),
    ;
}

/// `Arc::clone`: a second handle to the same solid.
#[verifier::external_body]
pub(crate) fn share<S>(shape: &Arc<S>) -> (r: Arc<S>)
    ensures
        r == *shape,
{
    Arc::clone(shape)
}

/// The solid that contains nothing, is never hit and has no curves. Its
/// bounding box is the point at the origin.
#[derive(Clone, Copy, Debug)]
pub struct EmptyShape;

impl Shape for EmptyShape {
    open spec fn spec_bounding_box(&self) -> Box {
        Box::spec_default()
    }

    open spec fn spec_contains(&self, v: Vector, f: Scalar) -> bool {
        false
    }

    open spec fn spec_intersect(&self, r: Ray) -> Hit {
        Hit::spec_no_hit()
    }

    open spec fn spec_paths(&self) -> Seq<Seq<Vector>> {
        Seq::empty()
    }

    fn bounding_box(&self) -> (b: Box) {
        Box::new(Vector::zero(), Vector::zero())
    }

    fn contains(&self, _v: Vector, _f: Scalar) -> (b: bool) {
        false
    }

    fn intersect(&self, _r: Ray) -> (h: Hit) {
        Hit::no_hit()
    }

    fn paths(&self) -> (p: Paths) {
        Paths::new()
    }
}

impl Default for EmptyShape {
    fn default() -> (r: EmptyShape) {
        EmptyShape
    }
}

/// A solid moved by a matrix. Queries are answered by the solid itself, on
/// the point or ray moved back by the inverse matrix.
pub struct TransformedShape<S> {
    pub shape: Arc<S>,
    pub matrix: Matrix,
    pub inverse: Matrix,
}

impl<S: Shape> TransformedShape<S> {
    pub fn new(shape: Arc<S>, matrix: Matrix) -> (r: TransformedShape<S>)
        ensures
            r.shape == shape,
            r.matrix == matrix,
            r.inverse == matrix.spec_inverse(),
    {
        let inverse = matrix.inverse();
        TransformedShape { shape, matrix, inverse }
    }
}

impl<S: Shape> Shape for TransformedShape<S> {
    open spec fn spec_bounding_box(&self) -> Box {
        self.matrix.spec_mul_box(self.shape.spec_bounding_box())
    }

    open spec fn spec_contains(&self, v: Vector, f: Scalar) -> bool {
        self.shape.spec_contains(self.inverse.spec_mul_position(v), f)
    }

    open spec fn spec_intersect(&self, r: Ray) -> Hit {
        self.shape.spec_intersect(self.inverse.spec_mul_ray(r))
    }

    open spec fn spec_paths(&self) -> Seq<Seq<Vector>> {
        crate::path::spec_transform(self.shape.spec_paths(), self.matrix)
    }

    fn bounding_box(&self) -> (b: Box) {
        self.matrix.mul_box(self.shape.bounding_box())
    }

    fn contains(&self, v: Vector, f: Scalar) -> (b: bool) {
        self.shape.contains(self.inverse.mul_position(v), f)
    }

    fn intersect(&self, r: Ray) -> (h: Hit) {
        self.shape.intersect(self.inverse.mul_ray(r))
    }

    fn paths(&self) -> (p: Paths) {
        self.shape.paths().transform(&self.matrix)
    }
}

} // verus!
