//! The render pipeline: from a collection of solids to the polylines that
//! are visible from a camera.

use crate::filter::ClipFilter;
use crate::hit::Hit;
use crate::matrix::Matrix;
use crate::path::{spec_chop, spec_filter, spec_flatten, spec_simplify, spec_transform, Paths};
use crate::ray::Ray;
use crate::scalar::{Scalar, ONE_BITS, TWO_BITS};
use crate::shape::{share, Shape};
use crate::tree::Tree;
use crate::vector::Vector;
use std::sync::Arc;
use vstd::prelude::*;

verus! {

/// The bits of `1e-6`, the distance below which `render` takes a point of
/// a path to lie on the line between its neighbours.
pub const SIMPLIFY_THRESHOLD_BITS: u64 = 0x3EB0_C6F7_A0B5_ED8D;

/// A collection of solids and, once compiled, the spatial index over them.
/// The index is built once. A solid that is added later is drawn, but hides
/// nothing until the index is reset and built again.
pub struct Scene<S> {
    pub shapes: Vec<Arc<S>>,
    pub tree: Option<Tree<S>>,
}

/// The matrix that maps the clip square from -1 to 1 onto the pixels from 0
/// to `width` and from 0 to `height`.
pub open spec fn spec_screen(width: Scalar, height: Scalar) -> Matrix {
    let one = Scalar { bits: ONE_BITS };
    let two = Scalar { bits: TWO_BITS };
    Matrix::spec_translate(Vector { x: one, y: one, z: Scalar::spec_zero() }).spec_scaled(
        Vector { x: width.spec_div(two), y: height.spec_div(two), z: Scalar::spec_zero() },
    )
}

impl<S: Shape> Scene<S> {
    /// Whether the index has been built.
    pub open spec fn spec_compiled(&self) -> bool {
        self.tree is Some
    }

    /// The nearest hit of the ray among the indexed solids; "no hit" before
    /// the index is built.
    pub open spec fn spec_intersect(&self, r: Ray) -> Hit {
        match self.tree {
            Some(tree) => tree.spec_intersect(r),
            None => Hit::spec_no_hit(),
        }
    }

    /// Whether `point` can be seen from `eye`: the direction from the point
    /// towards the eye is a direction, and the ray along it hits nothing
    /// nearer than the eye. A sample without a direction towards the eye
    /// is not visible: one at the eye itself, whose direction is zero
    /// divided by zero, and one that is not a number or lies infinitely
    /// far away. False also where the comparison of the distances involves
    /// a NaN.
    pub open spec fn spec_visible(&self, eye: Vector, point: Vector) -> bool {
        let v = eye.spec_sub(point);
        let direction = v.spec_normalize();
        let r = Ray { origin: point, direction };
        !direction.spec_has_nan() && self.spec_intersect(r).t.spec_ge(v.spec_length())
    }

    /// The surface curves of all solids, solid by solid in the order in
    /// which they were added.
    pub open spec fn spec_paths(&self) -> Seq<Seq<Vector>> {
        spec_flatten(Seq::new(self.shapes@.len(), |i: int| self.shapes@[i].spec_paths()))
    }

    /// What a compiled scene renders: the surface curves, chopped where
    /// `step` is above zero; cut down to the runs of points that are
    /// visible from `eye` and fall into the clip cube under `matrix`;
    /// simplified where `step` is above zero; and mapped to pixels.
    pub open spec fn spec_render_with_matrix(
        &self,
        matrix: Matrix,
        eye: Vector,
        width: Scalar,
        height: Scalar,
        step: Scalar,
    ) -> Seq<Seq<Vector>> {
        let sampled = step.spec_gt(Scalar::spec_zero());
        let curves = self.spec_paths();
        let chopped = if sampled {
            spec_chop(curves, step)
        } else {
            curves
        };
        let kept = spec_filter(chopped, &(ClipFilter { matrix, eye, scene: self }));
        let simple = if sampled {
            spec_simplify(kept, Scalar { bits: SIMPLIFY_THRESHOLD_BITS })
        } else {
            kept
        };
        spec_transform(simple, spec_screen(width, height))
    }

    /// The camera transform of `render`: the view from `eye` towards
    /// `center`, followed by the perspective projection.
    pub open spec fn spec_camera(
        eye: Vector,
        center: Vector,
        up: Vector,
        width: Scalar,
        height: Scalar,
        fovy: Scalar,
        near: Scalar,
        far: Scalar,
    ) -> Matrix {
        Matrix::spec_look_at(eye, center, up).spec_with_perspective(
            fovy,
            width.spec_div(height),
            near,
            far,
        )
    }

    /// Whether `self` is `before` after `compile`: the same solids, and the
    /// index that was there or, if there was none, the index built over the
    /// solids.
    pub open spec fn spec_compiled_from(&self, before: &Scene<S>) -> bool {
        &&& self.shapes == before.shapes
        &&& match before.tree {
            Some(tree) => self.tree == Some(tree),
            None => match self.tree {
                Some(tree) => {
                    &&& tree.wf()
                    &&& tree.bx == crate::bounding_box::spec_union(
                        crate::tree::spec_boxes(before.shapes@),
                    )
                    &&& tree.root.spec_built_from(before.shapes@)
                },
                None => false,
            },
        }
    }

    /// An empty scene without an index.
    pub fn new() -> (scene: Scene<S>)
        ensures
            scene.shapes@.len() == 0,
            scene.tree is None,
    {
        Scene { shapes: Vec::new(), tree: None }
    }

    /// Builds the index over the solids, unless there is one already.
    pub fn compile(&mut self)
        ensures
            final(self).spec_compiled_from(old(self)),
            final(self).spec_compiled(),
    {
        if self.tree.is_none() {
            let mut shapes: Vec<Arc<S>> = Vec::new();
            let mut i: usize = 0;
            while i < self.shapes.len()
                invariant
                    i <= self.shapes.len(),
                    shapes@ == self.shapes@.subrange(0, i as int),
                    *self == *old(self),
                decreases self.shapes.len() - i,
            {
                shapes.push(share(&self.shapes[i]));
                assert(shapes@ =~= self.shapes@.subrange(0, i + 1));
                i += 1;
            }
            assert(shapes@ =~= self.shapes@);
            self.tree = Some(Tree::new(shapes));
        }
    }

    /// Adds a solid.
    pub fn add(&mut self, shape: S)
        ensures
            final(self).shapes@ == old(self).shapes@.push(Arc::new(shape)),
            final(self).tree == old(self).tree,
    {
        self.shapes.push(Arc::new(shape));
    }

    /// Adds a solid that is shared with others.
    pub fn add_arc(&mut self, shape: Arc<S>)
        ensures
            final(self).shapes@ == old(self).shapes@.push(shape),
            final(self).tree == old(self).tree,
    {
        self.shapes.push(shape);
    }

    /// The nearest hit of the ray among the indexed solids.
    pub fn intersect(&self, r: Ray) -> (h: Hit)
        ensures
            h == self.spec_intersect(r),
    {
        match &self.tree {
            Some(tree) => tree.intersect(r),
            None => Hit::no_hit(),
        }
    }

    /// Whether `point` can be seen from `eye`.
    pub fn visible(&self, eye: Vector, point: Vector) -> (b: bool)
        ensures
            b == self.spec_visible(eye, point),
    {
        let v = eye.sub(point);
        let direction = v.normalize();
        if direction.has_nan() {
            return false;
        }
        let r = Ray::new(point, direction);
        let hit = self.intersect(r);
        hit.t.ge(v.length())
    }

    /// The surface curves of all solids.
    pub fn paths(&self) -> (p: Paths)
        ensures
            p@ == self.spec_paths(),
    {
        let mut result = Paths::new();
        let ghost parts = Seq::new(self.shapes@.len(), |i: int| self.shapes@[i].spec_paths());
        let mut i: usize = 0;
        while i < self.shapes.len()
            invariant
                i <= self.shapes.len(),
                parts == Seq::new(self.shapes@.len(), |i: int| self.shapes@[i].spec_paths()),
                result@ == spec_flatten(parts.subrange(0, i as int)),
            decreases self.shapes.len() - i,
        {
            proof {
                assert(parts.subrange(0, i + 1).drop_last() =~= parts.subrange(0, i as int));
            }
            result.extend(self.shapes[i].paths());
            i += 1;
        }
        assert(parts.subrange(0, self.shapes.len() as int) =~= parts);
        result
    }

    /// Renders the scene as seen from `eye` looking at `center`, onto
    /// `width` by `height` pixels, with the vertical field of view `fovy`
    /// in degrees and the clip planes `near` and `far`. With `step` above
    /// zero the curves are sampled every `step` for visibility; otherwise
    /// only their own points are tested.
    pub fn render(
        &mut self,
        eye: Vector,
        center: Vector,
        up: Vector,
        width: Scalar,
        height: Scalar,
        fovy: Scalar,
        near: Scalar,
        far: Scalar,
        step: Scalar,
    ) -> (p: Paths)
        ensures
            final(self).spec_compiled_from(old(self)),
            p@ == final(self).spec_render_with_matrix(
                Scene::<S>::spec_camera(eye, center, up, width, height, fovy, near, far),
                eye,
                width,
                height,
                step,
            ),
    {
        let aspect = width.div(height);
        let matrix = Matrix::look_at(eye, center, up);
        let matrix = matrix.with_perspective(fovy, aspect, near, far);
        self.render_with_matrix(matrix, eye, width, height, step)
    }

    /// Renders the scene with a camera transform that the caller supplies.
    pub fn render_with_matrix(
        &mut self,
        matrix: Matrix,
        eye: Vector,
        width: Scalar,
        height: Scalar,
        step: Scalar,
    ) -> (p: Paths)
        ensures
            final(self).spec_compiled_from(old(self)),
            p@ == final(self).spec_render_with_matrix(matrix, eye, width, height, step),
    {
        self.compile();
        let mut paths = self.paths();
        let sampled = step.gt(Scalar::zero());
        if sampled {
            paths = paths.chop(step);
        }
        let filter = ClipFilter { matrix, eye, scene: &*self };
        paths = paths.filter(&filter);
        if sampled {
            paths = paths.simplify(Scalar::from_bits(SIMPLIFY_THRESHOLD_BITS));
        }
        let one = Scalar::from_bits(ONE_BITS);
        let two = Scalar::from_bits(TWO_BITS);
        let screen = Matrix::translate(Vector::new(one, one, Scalar::zero())).scaled(
            Vector::new(width.div(two), height.div(two), Scalar::zero()),
        );
        paths.transform(&screen)
    }
}

impl<S: Shape> Default for Scene<S> {
    fn default() -> (scene: Scene<S>)
        ensures
            scene.shapes@.len() == 0,
            scene.tree is None,
    {
        Scene::new()
    }
}

} // verus!
