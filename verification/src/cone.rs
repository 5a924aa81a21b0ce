//! Cones along the z axis.

use crate::bounding_box::Box;
use crate::cylinder::GRAZE_BITS;
use crate::hit::Hit;
use crate::path::{Path, Paths};
use crate::ray::Ray;
use crate::scalar::{Scalar, FOUR_BITS, TWO_BITS};
use crate::shape::Shape;
use crate::util::{radians, spec_radians};
use crate::vector::Vector;
use vstd::prelude::*;

verus! {

/// The cone whose base is the circle of the given radius about the origin
/// in the plane `z = 0`, and whose apex lies at `height` on the z axis.
#[derive(Clone, Copy, Debug)]
pub struct Cone {
    pub radius: Scalar,
    pub height: Scalar,
}

impl Cone {
    /// The point of the base circle at the angle `a`, in whole degrees.
    pub open spec fn spec_rim(&self, a: int, z: Scalar) -> Vector {
        let angle = spec_radians(Scalar::spec_from_i32(a as i32));
        Vector { x: self.radius.spec_mul(angle.spec_cos()), y: self.radius.spec_mul(angle.spec_sin()), z }
    }

    fn rim(&self, a: i32, z: Scalar) -> (v: Vector)
        ensures
            v == self.spec_rim(a as int, z),
    {
        let angle = radians(Scalar::from_i32(a));
        Vector::new(self.radius.mul(angle.cos()), self.radius.mul(angle.sin()), z)
    }

    /// The apex.
    pub open spec fn spec_apex(&self) -> Vector {
        Vector { x: Scalar::spec_zero(), y: Scalar::spec_zero(), z: self.height }
    }

    /// The line from the base at the angle `a` to the apex.
    pub open spec fn spec_line(&self, a: int) -> Seq<Vector> {
        seq![self.spec_rim(a, Scalar::spec_zero()), self.spec_apex()]
    }

    pub fn new(radius: Scalar, height: Scalar) -> (c: Cone)
        ensures
            c == (Cone { radius, height }),
    {
        Cone { radius, height }
    }
}

impl Shape for Cone {
    open spec fn spec_bounding_box(&self) -> Box {
        let r = self.radius;
        Box::spec_new(Vector::spec_new(r.spec_neg(), r.spec_neg(), Scalar::spec_zero()), Vector::spec_new(r, r, self.height))
    }

    open spec fn spec_contains(&self, v: Vector, f: Scalar) -> bool {
        false
    }

    /// The hit of the ray on the side of the cone: the nearer crossing that lies
    /// ahead of the origin and between the base and the apex.
    open spec fn spec_intersect(&self, ray: Ray) -> Hit {
        let o = ray.origin;
        let d = ray.direction;
        let r = self.radius;
        let h = self.height;
        let slope = r.spec_div(h);
        let k = slope.spec_mul(slope);
        let a = d.x.spec_mul(d.x).spec_add(d.y.spec_mul(d.y)).spec_sub(k.spec_mul(d.z).spec_mul(d.z));
        let b = Scalar { bits: TWO_BITS }.spec_mul(d.x.spec_mul(o.x).spec_add(d.y.spec_mul(o.y)).spec_sub(k.spec_mul(d.z).spec_mul(o.z.spec_sub(h))));
        let c = o.x.spec_mul(o.x).spec_add(o.y.spec_mul(o.y)).spec_sub(k.spec_mul(o.z.spec_sub(h)).spec_mul(o.z.spec_sub(h)));
        let q = b.spec_mul(b).spec_sub(Scalar { bits: FOUR_BITS }.spec_mul(a).spec_mul(c));
        if q.spec_le(Scalar::spec_zero()) {
            Hit::spec_no_hit()
        } else {
            let s = q.spec_sqrt();
            let ta = b.spec_neg().spec_add(s).spec_div(Scalar { bits: TWO_BITS }.spec_mul(a));
            let tb = b.spec_neg().spec_sub(s).spec_div(Scalar { bits: TWO_BITS }.spec_mul(a));
            let t0 = if ta.spec_gt(tb) {
                tb
            } else {
                ta
            };
            let t1 = if ta.spec_gt(tb) {
                ta
            } else {
                tb
            };
            let graze = (Scalar { bits: GRAZE_BITS });
            let p0 = ray.spec_position(t0);
            let p1 = ray.spec_position(t1);
            if t0.spec_gt(graze) && p0.z.spec_gt(Scalar::spec_zero()) && p0.z.spec_lt(h) {
                (Hit { t: t0, ok: true })
            } else if t1.spec_gt(graze) && p1.z.spec_gt(Scalar::spec_zero()) && p1.z.spec_lt(h) {
                (Hit { t: t1, ok: true })
            } else {
                Hit::spec_no_hit()
            }
        }
    }

    /// Twelve lines from the base to the apex, thirty degrees apart.
    open spec fn spec_paths(&self) -> Seq<Seq<Vector>> {
        Seq::new(12, |k: int| self.spec_line(30 * k))
    }

    fn bounding_box(&self) -> (b: Box) {
        let r = self.radius;
        Box::new(Vector::new(r.neg(), r.neg(), Scalar::zero()), Vector::new(r, r, self.height))
    }

    fn contains(&self, _v: Vector, _f: Scalar) -> (b: bool) {
        false
    }

    /// The hit of the ray on the side of the cone: the nearer crossing that lies
    /// ahead of the origin and between the base and the apex.
    fn intersect(&self, ray: Ray) -> (h: Hit) {
        let o = ray.origin;
        let d = ray.direction;
        let r = self.radius;
        let h = self.height;
        let slope = r.div(h);
        let k = slope.mul(slope);
        let a = d.x.mul(d.x).add(d.y.mul(d.y)).sub(k.mul(d.z).mul(d.z));
        let b = Scalar { bits: TWO_BITS }.mul(d.x.mul(o.x).add(d.y.mul(o.y)).sub(k.mul(d.z).mul(o.z.sub(h))));
        let c = o.x.mul(o.x).add(o.y.mul(o.y)).sub(k.mul(o.z.sub(h)).mul(o.z.sub(h)));
        let q = b.mul(b).sub(Scalar { bits: FOUR_BITS }.mul(a).mul(c));
        if q.le(Scalar::zero()) {
            Hit::no_hit()
        } else {
            let s = q.sqrt();
            let ta = b.neg().add(s).div(Scalar { bits: TWO_BITS }.mul(a));
            let tb = b.neg().sub(s).div(Scalar { bits: TWO_BITS }.mul(a));
            let t0 = if ta.gt(tb) {
                tb
            } else {
                ta
            };
            let t1 = if ta.gt(tb) {
                ta
            } else {
                tb
            };
            let graze = Scalar::from_bits(GRAZE_BITS);
            let p0 = ray.position(t0);
            let p1 = ray.position(t1);
            if t0.gt(graze) && p0.z.gt(Scalar::zero()) && p0.z.lt(h) {
                Hit::new(t0)
            } else if t1.gt(graze) && p1.z.gt(Scalar::zero()) && p1.z.lt(h) {
                Hit::new(t1)
            } else {
                Hit::no_hit()
            }
        }
    }

    fn paths(&self) -> (p: Paths) {
        let mut paths: Vec<Path> = Vec::new();
        let mut k: i32 = 0;
        while k < 12
            invariant
                0 <= k <= 12,
                paths@.len() == k,
                forall|j: int| 0 <= j < k ==> (#[trigger] paths@[j])@ == self.spec_line(30 * j),
            decreases 12 - k,
        {
            let low = self.rim(30 * k, Scalar::zero());
            let apex = Vector::new(Scalar::zero(), Scalar::zero(), self.height);
            let line = vec![low, apex];
            assert(line@ =~= self.spec_line(30 * k));
            paths.push(line);
            k += 1;
        }
        let p = Paths::from_vec(paths);
        assert(p@ =~= self.spec_paths());
        p
    }
}

} // verus!
