//! Triangle meshes.

use crate::bounding_box::{spec_union, Box};
use crate::hit::Hit;
use crate::matrix::Matrix;
use crate::path::{spec_flatten, Paths};
use crate::ray::Ray;
use crate::scalar::{Scalar, HALF_BITS, MINUS_ONE_BITS};
use crate::shape::Shape;
use crate::tree::Tree;
use crate::triangle::Triangle;
use crate::vector::Vector;
use std::sync::Arc;
use vstd::prelude::*;

verus! {

/// A collection of triangles with the box around them and, once compiled,
/// the spatial index over them. Before it is compiled a mesh is drawn but
/// no ray hits it.
pub struct Mesh {
    pub bx: Box,
    pub triangles: Vec<Triangle>,
    pub tree: Option<Arc<Tree<Triangle>>>,
}

/// The boxes of the triangles.
pub open spec fn spec_triangle_boxes(triangles: Seq<Triangle>) -> Seq<Box> {
    Seq::new(triangles.len(), |i: int| triangles[i].bx)
}

/// The triangles as solids that an index can share.
pub open spec fn spec_shared(triangles: Seq<Triangle>) -> Seq<Arc<Triangle>> {
    Seq::new(triangles.len(), |i: int| Arc::new(triangles[i]))
}

/// The triangle with its corners mapped by the matrix.
pub open spec fn spec_moved(t: Triangle, matrix: Matrix) -> Triangle {
    Triangle::spec_new(
        matrix.spec_mul_position(t.v1),
        matrix.spec_mul_position(t.v2),
        matrix.spec_mul_position(t.v3),
    )
}

/// The triangles with their corners mapped by the matrix.
pub open spec fn spec_all_moved(triangles: Seq<Triangle>, matrix: Matrix) -> Seq<Triangle> {
    Seq::new(triangles.len(), |i: int| spec_moved(triangles[i], matrix))
}

/// The matrix that moves a mesh with the box `own` so that the point at
/// `anchor` of its box comes to lie at `position`.
pub open spec fn spec_move_matrix(own: Box, position: Vector, anchor: Vector) -> Matrix {
    Matrix::spec_translate(position.spec_sub(own.spec_anchor(anchor)))
}

/// The matrix that scales a mesh with the box `own` by one factor, as
/// large as fits into `bx`, and places it in `bx` at `anchor` where room
/// is left.
pub open spec fn spec_fit_matrix(own: Box, bx: Box, anchor: Vector) -> Matrix {
    let scale = bx.spec_size().spec_div(own.spec_size()).spec_min_component();
    let extra = bx.spec_size().spec_sub(own.spec_size().spec_mul_scalar(scale));
    Matrix::spec_identity().spec_translated(
        own.min.spec_mul_scalar(Scalar { bits: MINUS_ONE_BITS }),
    ).spec_scaled(Vector { x: scale, y: scale, z: scale }).spec_translated(
        bx.min.spec_add(extra.spec_mul(anchor)),
    )
}

impl Mesh {
    /// Whether the mesh is `before` with its triangles mapped by `matrix`:
    /// the box is the box around the new triangles, and the index is gone.
    pub open spec fn spec_transformed_from(&self, before: Seq<Triangle>, matrix: Matrix) -> bool {
        &&& self.triangles@ == spec_all_moved(before, matrix)
        &&& self.bx == spec_union(spec_triangle_boxes(self.triangles@))
        &&& self.tree is None
    }

    /// Whether `self` is `before` after `compile`: the same triangles and
    /// box, and the index that was there or, if there was none, the index
    /// built over the triangles.
    pub open spec fn spec_compiled_from(&self, before: &Mesh) -> bool {
        &&& self.triangles == before.triangles
        &&& self.bx == before.bx
        &&& match before.tree {
            Some(tree) => self.tree == Some(tree),
            None => match self.tree {
                Some(tree) => {
                    &&& tree.wf()
                    &&& tree.bx == spec_union(
                        crate::tree::spec_boxes(spec_shared(before.triangles@)),
                    )
                    &&& tree.root.spec_built_from(spec_shared(before.triangles@))
                },
                None => false,
            },
        }
    }

    /// The mesh of the given triangles.
    pub fn new(triangles: Vec<Triangle>) -> (m: Mesh)
        ensures
            m.triangles == triangles,
            m.bx == spec_union(spec_triangle_boxes(triangles@)),
            m.tree is None,
    {
        let bx = Box::for_triangles(triangles.as_slice());
        Mesh { bx, triangles, tree: None }
    }

    /// Sets the box to the box around the triangles.
    pub fn update_bounding_box(&mut self)
        ensures
            final(self).bx == spec_union(spec_triangle_boxes(old(self).triangles@)),
            final(self).triangles == old(self).triangles,
            final(self).tree == old(self).tree,
    {
        self.bx = Box::for_triangles(self.triangles.as_slice());
    }

    /// Scales and moves the mesh into the unit cube around the origin.
    pub fn unit_cube(&mut self)
        ensures
            exists|fitted: Mesh|
                {
                    &&& #[trigger] fitted.spec_transformed_from(
                        old(self).triangles@,
                        spec_fit_matrix(
                            old(self).bx,
                            Box {
                                min: Vector::spec_zero(),
                                max: Vector {
                                    x: Scalar::spec_one(),
                                    y: Scalar::spec_one(),
                                    z: Scalar::spec_one(),
                                },
                            },
                            Vector::spec_zero(),
                        ),
                    )
                    &&& final(self).spec_transformed_from(
                        fitted.triangles@,
                        spec_move_matrix(
                            fitted.bx,
                            Vector::spec_zero(),
                            Vector {
                                x: Scalar { bits: HALF_BITS },
                                y: Scalar { bits: HALF_BITS },
                                z: Scalar { bits: HALF_BITS },
                            },
                        ),
                    )
                },
    {
        let one = Scalar::one();
        let half = Scalar::from_bits(HALF_BITS);
        self.fit_inside(Box::new(Vector::zero(), Vector::new(one, one, one)), Vector::zero());
        let ghost fitted = *self;
        self.move_to(Vector::zero(), Vector::new(half, half, half));
        assert(fitted.spec_transformed_from(
            old(self).triangles@,
            spec_fit_matrix(
                old(self).bx,
                Box {
                    min: Vector::spec_zero(),
                    max: Vector { x: Scalar::spec_one(), y: Scalar::spec_one(), z: Scalar::spec_one() },
                },
                Vector::spec_zero(),
            ),
        ));
    }

    /// Moves the mesh so that the point at `anchor` of its box comes to lie
    /// at `position`.
    pub fn move_to(&mut self, position: Vector, anchor: Vector)
        ensures
            final(self).spec_transformed_from(
                old(self).triangles@,
                spec_move_matrix(old(self).bx, position, anchor),
            ),
    {
        let matrix = Matrix::translate(position.sub(self.bx.anchor(anchor)));
        self.transform(&matrix);
    }

    /// Scales the mesh by one factor so that it fits into `bx`, and places
    /// it in `bx` at `anchor` where room is left.
    pub fn fit_inside(&mut self, bx: Box, anchor: Vector)
        ensures
            final(self).spec_transformed_from(
                old(self).triangles@,
                spec_fit_matrix(old(self).bx, bx, anchor),
            ),
    {
        let scale = bx.size().div(self.bx.size()).min_component();
        let extra = bx.size().sub(self.bx.size().mul_scalar(scale));
        let mut matrix = Matrix::identity();
        matrix = matrix.translated(self.bx.min.mul_scalar(Scalar::from_bits(MINUS_ONE_BITS)));
        matrix = matrix.scaled(Vector::new(scale, scale, scale));
        matrix = matrix.translated(bx.min.add(extra.mul(anchor)));
        self.transform(&matrix);
    }

    /// Maps the corners of every triangle by `matrix`. The index is
    /// dropped: the mesh has to be compiled again.
    pub fn transform(&mut self, matrix: &Matrix)
        ensures
            final(self).spec_transformed_from(old(self).triangles@, *matrix),
    {
        let mut i: usize = 0;
        while i < self.triangles.len()
            invariant
                i <= self.triangles.len(),
                self.triangles@.len() == old(self).triangles@.len(),
                forall|k: int|
                    0 <= k < i ==> #[trigger] self.triangles@[k] == spec_moved(
                        old(self).triangles@[k],
                        *matrix,
                    ),
                forall|k: int|
                    i <= k < self.triangles@.len() ==> #[trigger] self.triangles@[k] == old(
                        self,
                    ).triangles@[k],
            decreases self.triangles.len() - i,
        {
            let t = self.triangles[i];
            let moved = Triangle::new(
                matrix.mul_position(t.v1),
                matrix.mul_position(t.v2),
                matrix.mul_position(t.v3),
            );
            self.triangles.set(i, moved);
            i += 1;
        }
        assert(self.triangles@ =~= spec_all_moved(old(self).triangles@, *matrix));
        self.update_bounding_box();
        self.tree = None;
    }
}

impl Shape for Mesh {
    open spec fn spec_bounding_box(&self) -> Box {
        self.bx
    }

    open spec fn spec_contains(&self, v: Vector, f: Scalar) -> bool {
        false
    }

    /// The answer of the index; "no hit" before the mesh is compiled.
    open spec fn spec_intersect(&self, r: Ray) -> Hit {
        match self.tree {
            Some(tree) => tree.spec_intersect(r),
            None => Hit::spec_no_hit(),
        }
    }

    /// The sides of all triangles.
    open spec fn spec_paths(&self) -> Seq<Seq<Vector>> {
        spec_flatten(Seq::new(self.triangles@.len(), |i: int| self.triangles@[i].spec_paths()))
    }

    /// Builds the index over the triangles, unless there is one.
    fn compile(&mut self)
        ensures
            final(self).spec_compiled_from(old(self)),
    {
        if self.tree.is_none() {
            let mut shapes: Vec<Arc<Triangle>> = Vec::new();
            let mut i: usize = 0;
            while i < self.triangles.len()
                invariant
                    i <= self.triangles.len(),
                    *self == *old(self),
                    shapes@ == spec_shared(self.triangles@).subrange(0, i as int),
                decreases self.triangles.len() - i,
            {
                shapes.push(Arc::new(self.triangles[i]));
                assert(shapes@ =~= spec_shared(self.triangles@).subrange(0, i + 1));
                i += 1;
            }
            assert(shapes@ =~= spec_shared(self.triangles@));
            self.tree = Some(Arc::new(Tree::new(shapes)));
        }
    }

    fn bounding_box(&self) -> (b: Box) {
        self.bx
    }

    fn contains(&self, _v: Vector, _f: Scalar) -> (b: bool) {
        false
    }

    fn intersect(&self, r: Ray) -> (h: Hit) {
        match &self.tree {
            Some(tree) => tree.intersect(r),
            None => Hit::no_hit(),
        }
    }

    fn paths(&self) -> (p: Paths) {
        let ghost parts = Seq::new(self.triangles@.len(), |i: int| self.triangles@[i].spec_paths());
        let mut result = Paths::new();
        let mut i: usize = 0;
        while i < self.triangles.len()
            invariant
                i <= self.triangles.len(),
                parts == Seq::new(self.triangles@.len(), |i: int| self.triangles@[i].spec_paths()),
                result@ == spec_flatten(parts.subrange(0, i as int)),
            decreases self.triangles.len() - i,
        {
            proof {
                assert(parts.subrange(0, i + 1).drop_last() =~= parts.subrange(0, i as int));
            }
            result.extend(self.triangles[i].paths());
            i += 1;
        }
        assert(parts.subrange(0, self.triangles.len() as int) =~= parts);
        result
    }
}

} // verus!
