//! The library's solids as one type, for scenes that hold solids of
//! different kinds.

use crate::bounding_box::Box;
use crate::cone::Cone;
use crate::cube::Cube;
use crate::cylinder::Cylinder;
use crate::hit::Hit;
use crate::matrix::Matrix;
use crate::mesh::Mesh;
use crate::path::{spec_transform, Paths};
use crate::ray::Ray;
use crate::scalar::Scalar;
use crate::shape::Shape;
use crate::sphere::Sphere;
use crate::triangle::Triangle;
use crate::vector::Vector;
use std::sync::Arc;
use vstd::prelude::*;

verus! {

/// One of the library's solids, or such a solid moved by a matrix. Every
/// query is answered by the solid inside; a moved solid answers as
/// `TransformedShape` does.
pub enum Solid {
    /// The solid that contains nothing.
    Empty,
    Cube(Cube),
    Sphere(Sphere),
    Triangle(Triangle),
    Cylinder(Cylinder),
    Cone(Cone),
    Mesh(Mesh),
    /// A solid moved by `matrix`; `inverse` moves points back.
    Moved { shape: Arc<Solid>, matrix: Matrix, inverse: Matrix },
}

impl Solid {
    pub open spec fn spec_bounding_box(&self) -> Box
        decreases self,
    {
        match self {
            Solid::Empty => Box::spec_default(),
            Solid::Cube(s) => s.spec_bounding_box(),
            Solid::Sphere(s) => s.spec_bounding_box(),
            Solid::Triangle(s) => s.spec_bounding_box(),
            Solid::Cylinder(s) => s.spec_bounding_box(),
            Solid::Cone(s) => s.spec_bounding_box(),
            Solid::Mesh(s) => s.spec_bounding_box(),
            Solid::Moved { shape, matrix, inverse } => matrix.spec_mul_box(
                shape.spec_bounding_box(),
            ),
        }
    }

    pub open spec fn spec_contains(&self, v: Vector, f: Scalar) -> bool
        decreases self,
    {
        match self {
            Solid::Empty => false,
            Solid::Cube(s) => s.spec_contains(v, f),
            Solid::Sphere(s) => s.spec_contains(v, f),
            Solid::Triangle(s) => s.spec_contains(v, f),
            Solid::Cylinder(s) => s.spec_contains(v, f),
            Solid::Cone(s) => s.spec_contains(v, f),
            Solid::Mesh(s) => s.spec_contains(v, f),
            Solid::Moved { shape, matrix, inverse } => shape.spec_contains(
                inverse.spec_mul_position(v),
                f,
            ),
        }
    }

    pub open spec fn spec_intersect(&self, r: Ray) -> Hit
        decreases self,
    {
        match self {
            Solid::Empty => Hit::spec_no_hit(),
            Solid::Cube(s) => s.spec_intersect(r),
            Solid::Sphere(s) => s.spec_intersect(r),
            Solid::Triangle(s) => s.spec_intersect(r),
            Solid::Cylinder(s) => s.spec_intersect(r),
            Solid::Cone(s) => s.spec_intersect(r),
            Solid::Mesh(s) => s.spec_intersect(r),
            Solid::Moved { shape, matrix, inverse } => shape.spec_intersect(
                inverse.spec_mul_ray(r),
            ),
        }
    }

    pub open spec fn spec_paths(&self) -> Seq<Seq<Vector>>
        decreases self,
    {
        match self {
            Solid::Empty => Seq::empty(),
            Solid::Cube(s) => s.spec_paths(),
            Solid::Sphere(s) => s.spec_paths(),
            Solid::Triangle(s) => s.spec_paths(),
            Solid::Cylinder(s) => s.spec_paths(),
            Solid::Cone(s) => s.spec_paths(),
            Solid::Mesh(s) => s.spec_paths(),
            Solid::Moved { shape, matrix, inverse } => spec_transform(shape.spec_paths(), *matrix),
        }
    }

    /// Whether `self` is `before` after `compile`: a mesh is compiled, and
    /// any other solid is as it was.
    pub open spec fn spec_compiled_from(&self, before: &Solid) -> bool {
        match before {
            Solid::Mesh(mesh) => match self {
                Solid::Mesh(compiled) => compiled.spec_compiled_from(mesh),
                _ => false,
            },
            _ => self == before,
        }
    }

    /// The solid moved by `matrix`.
    pub fn moved(shape: Arc<Solid>, matrix: Matrix) -> (r: Solid)
        ensures
            r == (Solid::Moved { shape, matrix, inverse: matrix.spec_inverse() }),
    {
        let inverse = matrix.inverse();
        Solid::Moved { shape, matrix, inverse }
    }

    pub fn bounding_box(&self) -> (b: Box)
        ensures
            b == self.spec_bounding_box(),
        decreases self,
    {
        match self {
            Solid::Empty => Box::default(),
            Solid::Cube(s) => s.bounding_box(),
            Solid::Sphere(s) => s.bounding_box(),
            Solid::Triangle(s) => s.bounding_box(),
            Solid::Cylinder(s) => s.bounding_box(),
            Solid::Cone(s) => s.bounding_box(),
            Solid::Mesh(s) => s.bounding_box(),
            Solid::Moved { shape, matrix, inverse } => matrix.mul_box(shape.bounding_box()),
        }
    }

    pub fn contains(&self, v: Vector, f: Scalar) -> (b: bool)
        ensures
            b == self.spec_contains(v, f),
        decreases self,
    {
        match self {
            Solid::Empty => false,
            Solid::Cube(s) => s.contains(v, f),
            Solid::Sphere(s) => s.contains(v, f),
            Solid::Triangle(s) => s.contains(v, f),
            Solid::Cylinder(s) => s.contains(v, f),
            Solid::Cone(s) => s.contains(v, f),
            Solid::Mesh(s) => s.contains(v, f),
            Solid::Moved { shape, matrix, inverse } => shape.contains(inverse.mul_position(v), f),
        }
    }

    pub fn intersect(&self, r: Ray) -> (h: Hit)
        ensures
            h == self.spec_intersect(r),
        decreases self,
    {
        match self {
            Solid::Empty => Hit::no_hit(),
            Solid::Cube(s) => s.intersect(r),
            Solid::Sphere(s) => s.intersect(r),
            Solid::Triangle(s) => s.intersect(r),
            Solid::Cylinder(s) => s.intersect(r),
            Solid::Cone(s) => s.intersect(r),
            Solid::Mesh(s) => s.intersect(r),
            Solid::Moved { shape, matrix, inverse } => shape.intersect(inverse.mul_ray(r)),
        }
    }

    pub fn paths(&self) -> (p: Paths)
        ensures
            p@ == self.spec_paths(),
        decreases self,
    {
        match self {
            Solid::Empty => Paths::new(),
            Solid::Cube(s) => s.paths(),
            Solid::Sphere(s) => s.paths(),
            Solid::Triangle(s) => s.paths(),
            Solid::Cylinder(s) => s.paths(),
            Solid::Cone(s) => s.paths(),
            Solid::Mesh(s) => s.paths(),
            Solid::Moved { shape, matrix, inverse } => shape.paths().transform(matrix),
        }
    }
}

impl Shape for Solid {
    open spec fn spec_bounding_box(&self) -> Box {
        Solid::spec_bounding_box(self)
    }

    open spec fn spec_contains(&self, v: Vector, f: Scalar) -> bool {
        Solid::spec_contains(self, v, f)
    }

    open spec fn spec_intersect(&self, r: Ray) -> Hit {
        Solid::spec_intersect(self, r)
    }

    open spec fn spec_paths(&self) -> Seq<Seq<Vector>> {
        Solid::spec_paths(self)
    }

    /// Compiles the mesh, if the solid is one. A mesh inside a moved solid
    /// has to be compiled before it is moved.
    fn compile(&mut self)
        ensures
            final(self).spec_compiled_from(old(self)),
    {
        match self {
            Solid::Mesh(mesh) => {
                mesh.compile();
            },
            _ => {},
        }
    }

    fn bounding_box(&self) -> (b: Box) {
        Solid::bounding_box(self)
    }

    fn contains(&self, v: Vector, f: Scalar) -> (b: bool) {
        Solid::contains(self, v, f)
    }

    fn intersect(&self, r: Ray) -> (h: Hit) {
        Solid::intersect(self, r)
    }

    fn paths(&self) -> (p: Paths) {
        Solid::paths(self)
    }
}

} // verus!
