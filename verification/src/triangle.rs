//! Triangles.

use crate::bounding_box::Box;
use crate::hit::Hit;
use crate::path::{Path, Paths};
use crate::ray::Ray;
use crate::scalar::{Scalar, ONE_BITS};
use crate::shape::Shape;
use crate::vector::Vector;
use vstd::prelude::*;

verus! {

/// The bits of `1e-9`: a determinant or a distance below this counts as
/// zero.
pub const EPS_BITS: u64 = 0x3E11_2E0B_E826_D695;

/// A triangle, by its corners, with the box around it.
#[derive(Clone, Copy, Debug)]
pub struct Triangle {
    pub v1: Vector,
    pub v2: Vector,
    pub v3: Vector,
    pub bx: Box,
}

/// The box around three points.
pub open spec fn spec_bounds(v1: Vector, v2: Vector, v3: Vector) -> Box {
    Box::spec_new(v1.spec_min(v2).spec_min(v3), v1.spec_max(v2).spec_max(v3))
}

/// The box around three points.
pub fn bounds(v1: Vector, v2: Vector, v3: Vector) -> (b: Box)
    ensures
        b == spec_bounds(v1, v2, v3),
{
    Box::new(v1.min(v2).min(v3), v1.max(v2).max(v3))
}

impl Triangle {
    pub open spec fn spec_new(v1: Vector, v2: Vector, v3: Vector) -> Triangle {
        Triangle { v1, v2, v3, bx: spec_bounds(v1, v2, v3) }
    }

    pub fn new(v1: Vector, v2: Vector, v3: Vector) -> (t: Triangle)
        ensures
            t == Triangle::spec_new(v1, v2, v3),
    {
        Triangle { v1, v2, v3, bx: bounds(v1, v2, v3) }
    }

    /// Sets the box to the box around the corners.
    pub fn update_bounding_box(&mut self)
        ensures
            *final(self) == Triangle::spec_new(old(self).v1, old(self).v2, old(self).v3),
    {
        self.bx = bounds(self.v1, self.v2, self.v3);
    }
}

impl Shape for Triangle {
    open spec fn spec_bounding_box(&self) -> Box {
        self.bx
    }

    open spec fn spec_contains(&self, v: Vector, f: Scalar) -> bool {
        false
    }

    /// The hit of the ray on the triangle: the parameter at which the ray crosses
    /// the triangle's plane, if the crossing lies within the triangle and ahead
    /// of the origin.
    open spec fn spec_intersect(&self, r: Ray) -> Hit {
        let eps = (Scalar { bits: EPS_BITS });
        let e1x = self.v2.x.spec_sub(self.v1.x);
        let e1y = self.v2.y.spec_sub(self.v1.y);
        let e1z = self.v2.z.spec_sub(self.v1.z);
        let e2x = self.v3.x.spec_sub(self.v1.x);
        let e2y = self.v3.y.spec_sub(self.v1.y);
        let e2z = self.v3.z.spec_sub(self.v1.z);
        let px = r.direction.y.spec_mul(e2z).spec_sub(r.direction.z.spec_mul(e2y));
        let py = r.direction.z.spec_mul(e2x).spec_sub(r.direction.x.spec_mul(e2z));
        let pz = r.direction.x.spec_mul(e2y).spec_sub(r.direction.y.spec_mul(e2x));
        let det = e1x.spec_mul(px).spec_add(e1y.spec_mul(py)).spec_add(e1z.spec_mul(pz));
        if det.spec_gt(eps.spec_neg()) && det.spec_lt(eps) {
            Hit::spec_no_hit()
        } else {
            let inv = Scalar { bits: ONE_BITS }.spec_div(det);
            let tx = r.origin.x.spec_sub(self.v1.x);
            let ty = r.origin.y.spec_sub(self.v1.y);
            let tz = r.origin.z.spec_sub(self.v1.z);
            let u = tx.spec_mul(px).spec_add(ty.spec_mul(py)).spec_add(tz.spec_mul(pz)).spec_mul(inv);
            if u.spec_lt(Scalar::spec_zero()) || u.spec_gt(Scalar::spec_one()) {
                Hit::spec_no_hit()
            } else {
                let qx = ty.spec_mul(e1z).spec_sub(tz.spec_mul(e1y));
                let qy = tz.spec_mul(e1x).spec_sub(tx.spec_mul(e1z));
                let qz = tx.spec_mul(e1y).spec_sub(ty.spec_mul(e1x));
                let w = r.direction.x.spec_mul(qx).spec_add(r.direction.y.spec_mul(qy)).spec_add(r.direction.z.spec_mul(qz)).spec_mul(inv);
                if w.spec_lt(Scalar::spec_zero()) || u.spec_add(w).spec_gt(Scalar::spec_one()) {
                    Hit::spec_no_hit()
                } else {
                    let d = e2x.spec_mul(qx).spec_add(e2y.spec_mul(qy)).spec_add(e2z.spec_mul(qz)).spec_mul(inv);
                    if d.spec_lt(eps) {
                        Hit::spec_no_hit()
                    } else {
                        (Hit { t: d, ok: true })
                    }
                }
            }
        }
    }

    /// The three sides.
    open spec fn spec_paths(&self) -> Seq<Seq<Vector>> {
        seq![seq![self.v1, self.v2], seq![self.v2, self.v3], seq![self.v3, self.v1]]
    }

    fn bounding_box(&self) -> (b: Box) {
        self.bx
    }

    fn contains(&self, _v: Vector, _f: Scalar) -> (b: bool) {
        false
    }

    /// The hit of the ray on the triangle: the parameter at which the ray crosses
    /// the triangle's plane, if the crossing lies within the triangle and ahead
    /// of the origin.
    fn intersect(&self, r: Ray) -> (h: Hit) {
        let eps = Scalar::from_bits(EPS_BITS);
        let e1x = self.v2.x.sub(self.v1.x);
        let e1y = self.v2.y.sub(self.v1.y);
        let e1z = self.v2.z.sub(self.v1.z);
        let e2x = self.v3.x.sub(self.v1.x);
        let e2y = self.v3.y.sub(self.v1.y);
        let e2z = self.v3.z.sub(self.v1.z);
        let px = r.direction.y.mul(e2z).sub(r.direction.z.mul(e2y));
        let py = r.direction.z.mul(e2x).sub(r.direction.x.mul(e2z));
        let pz = r.direction.x.mul(e2y).sub(r.direction.y.mul(e2x));
        let det = e1x.mul(px).add(e1y.mul(py)).add(e1z.mul(pz));
        if det.gt(eps.neg()) && det.lt(eps) {
            Hit::no_hit()
        } else {
            let inv = Scalar { bits: ONE_BITS }.div(det);
            let tx = r.origin.x.sub(self.v1.x);
            let ty = r.origin.y.sub(self.v1.y);
            let tz = r.origin.z.sub(self.v1.z);
            let u = tx.mul(px).add(ty.mul(py)).add(tz.mul(pz)).mul(inv);
            if u.lt(Scalar::zero()) || u.gt(Scalar::one()) {
                Hit::no_hit()
            } else {
                let qx = ty.mul(e1z).sub(tz.mul(e1y));
                let qy = tz.mul(e1x).sub(tx.mul(e1z));
                let qz = tx.mul(e1y).sub(ty.mul(e1x));
                let w = r.direction.x.mul(qx).add(r.direction.y.mul(qy)).add(r.direction.z.mul(qz)).mul(inv);
                if w.lt(Scalar::zero()) || u.add(w).gt(Scalar::one()) {
                    Hit::no_hit()
                } else {
                    let d = e2x.mul(qx).add(e2y.mul(qy)).add(e2z.mul(qz)).mul(inv);
                    if d.lt(eps) {
                        Hit::no_hit()
                    } else {
                        Hit::new(d)
                    }
                }
            }
        }
    }

    fn paths(&self) -> (p: Paths) {
        let mut paths: Vec<Path> = Vec::new();
        paths.push(vec![self.v1, self.v2]);
        paths.push(vec![self.v2, self.v3]);
        paths.push(vec![self.v3, self.v1]);
        let p = Paths::from_vec(paths);
        assert(p@ =~= self.spec_paths()) by {
            let want = self.spec_paths();
            assert(p@.len() == want.len());
            assert forall|k: int| 0 <= k < want.len() implies p@[k] =~= want[k] by {}
        }
        p
    }
}

} // verus!
