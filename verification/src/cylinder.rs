//! Cylinders along the z axis.

use crate::bounding_box::Box;
use crate::hit::Hit;
use crate::path::{Path, Paths};
use crate::ray::Ray;
use crate::scalar::{Scalar, FOUR_BITS, TWO_BITS};
use crate::shape::Shape;
use crate::util::{radians, spec_radians};
use crate::vector::Vector;
use vstd::prelude::*;

verus! {

/// The bits of `1e-6`: a hit nearer than this to the ray's origin does not
/// count.
pub const GRAZE_BITS: u64 = 0x3EB0_C6F7_A0B5_ED8D;

/// The cylinder of the given radius about the z axis, from `z0` to `z1`.
#[derive(Clone, Copy, Debug)]
pub struct Cylinder {
    pub radius: Scalar,
    pub z0: Scalar,
    pub z1: Scalar,
}

impl Cylinder {
    /// The point of the base circle at the angle `a`, in whole degrees.
    pub open spec fn spec_rim(&self, a: int, z: Scalar) -> Vector {
        let angle = spec_radians(Scalar::spec_from_i32(a as i32));
        Vector { x: self.radius.spec_mul(angle.spec_cos()), y: self.radius.spec_mul(angle.spec_sin()), z }
    }

    fn rim(&self, a: i32, z: Scalar) -> (v: Vector)
        ensures
            v == self.spec_rim(a as int, z),
    {
        let angle = radians(Scalar::from_i32(a));
        Vector::new(self.radius.mul(angle.cos()), self.radius.mul(angle.sin()), z)
    }

    /// The line up the side at the angle `a`.
    pub open spec fn spec_line(&self, a: int) -> Seq<Vector> {
        seq![self.spec_rim(a, self.z0), self.spec_rim(a, self.z1)]
    }

    pub fn new(radius: Scalar, z0: Scalar, z1: Scalar) -> (c: Cylinder)
        ensures
            c == (Cylinder { radius, z0, z1 }),
    {
        Cylinder { radius, z0, z1 }
    }
}

impl Shape for Cylinder {
    open spec fn spec_bounding_box(&self) -> Box {
        let r = self.radius;
        Box::spec_new(Vector::spec_new(r.spec_neg(), r.spec_neg(), self.z0), Vector::spec_new(r, r, self.z1))
    }

    /// Whether the point lies within the radius plus `f` of the axis and between
    /// the two ends moved apart by `f`.
    open spec fn spec_contains(&self, v: Vector, f: Scalar) -> bool {
        let xy = Vector::spec_new(v.x, v.y, Scalar::spec_zero());
        if xy.spec_length().spec_gt(self.radius.spec_add(f)) {
            false
        } else {
            v.z.spec_ge(self.z0.spec_sub(f)) && v.z.spec_le(self.z1.spec_add(f))
        }
    }

    /// The hit of the ray on the side of the cylinder: the nearer crossing
    /// that lies ahead of the origin and between the ends.
    open spec fn spec_intersect(&self, ray: Ray) -> Hit {
        let r = self.radius;
        let o = ray.origin;
        let d = ray.direction;
        let a = d.x.spec_mul(d.x).spec_add(d.y.spec_mul(d.y));
        let b = Scalar { bits: TWO_BITS }.spec_mul(o.x).spec_mul(d.x).spec_add(Scalar { bits: TWO_BITS }.spec_mul(o.y).spec_mul(d.y));
        let c = o.x.spec_mul(o.x).spec_add(o.y.spec_mul(o.y)).spec_sub(r.spec_mul(r));
        let q = b.spec_mul(b).spec_sub(Scalar { bits: FOUR_BITS }.spec_mul(a).spec_mul(c));
        if q.spec_lt(Scalar::spec_zero()) {
            Hit::spec_no_hit()
        } else {
            let s = q.spec_sqrt();
            let ta = b.spec_neg().spec_add(s).spec_div(Scalar { bits: TWO_BITS }.spec_mul(a));
            let tb = b.spec_neg().spec_sub(s).spec_div(Scalar { bits: TWO_BITS }.spec_mul(a));
            let t0 = if ta.spec_gt(tb) {
                tb
            } else {
                ta
            };
            let t1 = if ta.spec_gt(tb) {
                ta
            } else {
                tb
            };
            let z0 = o.z.spec_add(t0.spec_mul(d.z));
            let z1 = o.z.spec_add(t1.spec_mul(d.z));
            let graze = (Scalar { bits: GRAZE_BITS });
            if t0.spec_gt(graze) && self.z0.spec_lt(z0) && z0.spec_lt(self.z1) {
                (Hit { t: t0, ok: true })
            } else if t1.spec_gt(graze) && self.z0.spec_lt(z1) && z1.spec_lt(self.z1) {
                (Hit { t: t1, ok: true })
            } else {
                Hit::spec_no_hit()
            }
        }
    }

    /// Thirty-six lines up the side, ten degrees apart.
    open spec fn spec_paths(&self) -> Seq<Seq<Vector>> {
        Seq::new(36, |k: int| self.spec_line(10 * k))
    }

    fn bounding_box(&self) -> (b: Box) {
        let r = self.radius;
        Box::new(Vector::new(r.neg(), r.neg(), self.z0), Vector::new(r, r, self.z1))
    }

    /// Whether the point lies within the radius plus `f` of the axis and between
    /// the two ends moved apart by `f`.
    fn contains(&self, v: Vector, f: Scalar) -> (b: bool) {
        let xy = Vector::new(v.x, v.y, Scalar::zero());
        if xy.length().gt(self.radius.add(f)) {
            false
        } else {
            v.z.ge(self.z0.sub(f)) && v.z.le(self.z1.add(f))
        }
    }

    /// The hit of the ray on the side of the cylinder: the nearer crossing
    /// that lies ahead of the origin and between the ends.
    fn intersect(&self, ray: Ray) -> (h: Hit) {
        let r = self.radius;
        let o = ray.origin;
        let d = ray.direction;
        let a = d.x.mul(d.x).add(d.y.mul(d.y));
        let b = Scalar { bits: TWO_BITS }.mul(o.x).mul(d.x).add(Scalar { bits: TWO_BITS }.mul(o.y).mul(d.y));
        let c = o.x.mul(o.x).add(o.y.mul(o.y)).sub(r.mul(r));
        let q = b.mul(b).sub(Scalar { bits: FOUR_BITS }.mul(a).mul(c));
        if q.lt(Scalar::zero()) {
            Hit::no_hit()
        } else {
            let s = q.sqrt();
            let ta = b.neg().add(s).div(Scalar { bits: TWO_BITS }.mul(a));
            let tb = b.neg().sub(s).div(Scalar { bits: TWO_BITS }.mul(a));
            let t0 = if ta.gt(tb) {
                tb
            } else {
                ta
            };
            let t1 = if ta.gt(tb) {
                ta
            } else {
                tb
            };
            let z0 = o.z.add(t0.mul(d.z));
            let z1 = o.z.add(t1.mul(d.z));
            let graze = Scalar::from_bits(GRAZE_BITS);
            if t0.gt(graze) && self.z0.lt(z0) && z0.lt(self.z1) {
                Hit::new(t0)
            } else if t1.gt(graze) && self.z0.lt(z1) && z1.lt(self.z1) {
                Hit::new(t1)
            } else {
                Hit::no_hit()
            }
        }
    }

    fn paths(&self) -> (p: Paths) {
        let mut paths: Vec<Path> = Vec::new();
        let mut k: i32 = 0;
        while k < 36
            invariant
                0 <= k <= 36,
                paths@.len() == k,
                forall|j: int| 0 <= j < k ==> (#[trigger] paths@[j])@ == self.spec_line(10 * j),
            decreases 36 - k,
        {
            let low = self.rim(10 * k, self.z0);
            let high = self.rim(10 * k, self.z1);
            let line = vec![low, high];
            assert(line@ =~= self.spec_line(10 * k));
            paths.push(line);
            k += 1;
        }
        let p = Paths::from_vec(paths);
        assert(p@ =~= self.spec_paths());
        p
    }
}

} // verus!
