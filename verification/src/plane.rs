//! Planes, and the slices they cut from meshes.

use crate::mesh::Mesh;
use crate::path::{spec_flatten, Path, Paths};
use crate::scalar::Scalar;
use crate::triangle::{Triangle, EPS_BITS};
use crate::vector::Vector;
use vstd::prelude::*;

verus! {

/// The plane through `point` across `normal`.
#[derive(Clone, Copy, Debug)]
pub struct Plane {
    pub point: Vector,
    pub normal: Vector,
}

impl Plane {
    /// The point at which the segment from `v0` to `v1` crosses the plane; `None`
    /// where the segment runs along the plane or ends before it.
    pub open spec fn spec_intersect_segment(&self, v0: Vector, v1: Vector) -> Option<Vector> {
        let eps = (Scalar { bits: EPS_BITS });
        let u = v1.spec_sub(v0);
        let w = v0.spec_sub(self.point);
        let d = self.normal.spec_dot(u);
        let n = self.normal.spec_dot(w).spec_neg();
        let t = n.spec_div(d);
        if d.spec_gt(eps.spec_neg()) && d.spec_lt(eps) {
            None
        } else if t.spec_lt(Scalar::spec_zero()) || t.spec_gt(Scalar::spec_one()) {
            None
        } else {
            Some(v0.spec_add(u.spec_mul_scalar(t)))
        }
    }

    /// The two points at which the plane cuts the sides of the triangle:
    /// the crossings of the first two sides that it cuts.
    pub open spec fn spec_intersect_triangle(&self, t: Triangle) -> Option<(Vector, Vector)> {
        let a = self.spec_intersect_segment(t.v1, t.v2);
        let b = self.spec_intersect_segment(t.v2, t.v3);
        let c = self.spec_intersect_segment(t.v3, t.v1);
        match (a, b, c) {
            (Some(a), Some(b), _) => Some((a, b)),
            (Some(a), _, Some(c)) => Some((a, c)),
            (_, Some(b), Some(c)) => Some((b, c)),
            _ => None,
        }
    }

    /// The cut through one triangle as a collection: one path of two
    /// points, or none.
    pub open spec fn spec_cut(&self, t: Triangle) -> Seq<Seq<Vector>> {
        match self.spec_intersect_triangle(t) {
            Some((a, b)) => seq![seq![a, b]],
            None => Seq::empty(),
        }
    }

    /// The cuts through the triangles, in the order of the triangles.
    pub open spec fn spec_intersect_triangles(&self, triangles: Seq<Triangle>) -> Seq<Seq<Vector>> {
        spec_flatten(Seq::new(triangles.len(), |i: int| self.spec_cut(triangles[i])))
    }

    pub fn new(point: Vector, normal: Vector) -> (p: Plane)
        ensures
            p == (Plane { point, normal }),
    {
        Plane { point, normal }
    }

    /// The point at which the segment from `v0` to `v1` crosses the plane; `None`
    /// where the segment runs along the plane or ends before it.
    pub fn intersect_segment(&self, v0: Vector, v1: Vector) -> (p: Option<Vector>)
        ensures
            p == self.spec_intersect_segment(v0, v1),
    {
        let eps = Scalar::from_bits(EPS_BITS);
        let u = v1.sub(v0);
        let w = v0.sub(self.point);
        let d = self.normal.dot(u);
        let n = self.normal.dot(w).neg();
        let t = n.div(d);
        if d.gt(eps.neg()) && d.lt(eps) {
            None
        } else if t.lt(Scalar::zero()) || t.gt(Scalar::one()) {
            None
        } else {
            Some(v0.add(u.mul_scalar(t)))
        }
    }

    pub fn intersect_triangle(&self, t: &Triangle) -> (r: Option<(Vector, Vector)>)
        ensures
            r == self.spec_intersect_triangle(*t),
    {
        let a = self.intersect_segment(t.v1, t.v2);
        let b = self.intersect_segment(t.v2, t.v3);
        let c = self.intersect_segment(t.v3, t.v1);
        match (a, b, c) {
            (Some(a), Some(b), _) => Some((a, b)),
            (Some(a), _, Some(c)) => Some((a, c)),
            (_, Some(b), Some(c)) => Some((b, c)),
            _ => None,
        }
    }

    /// The slice that the plane cuts from the mesh: for each triangle that
    /// it cuts, the segment across it.
    pub fn intersect_mesh(&self, m: &Mesh) -> (p: Paths)
        ensures
            p@ == self.spec_intersect_triangles(m.triangles@),
    {
        let ghost parts = Seq::new(m.triangles@.len(), |i: int| self.spec_cut(m.triangles@[i]));
        let mut result = Paths::new();
        let mut i: usize = 0;
        while i < m.triangles.len()
            invariant
                i <= m.triangles.len(),
                parts == Seq::new(m.triangles@.len(), |i: int| self.spec_cut(m.triangles@[i])),
                result@ == spec_flatten(parts.subrange(0, i as int)),
            decreases m.triangles.len() - i,
        {
            proof {
                assert(parts.subrange(0, i + 1).drop_last() =~= parts.subrange(0, i as int));
            }
            let ghost before = result@;
            match self.intersect_triangle(&m.triangles[i]) {
                Some((a, b)) => {
                    let line: Path = vec![a, b];
                    assert(line@ =~= seq![a, b]);
                    result.push(line);
                    assert(result@ =~= before + seq![seq![a, b]]);
                },
                None => {
                    assert(result@ =~= before + Seq::<Seq<Vector>>::empty());
                },
            }
            i += 1;
        }
        assert(parts.subrange(0, m.triangles.len() as int) =~= parts);
        result
    }
}

} // verus!
