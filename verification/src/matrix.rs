//! 4x4 transformation matrices.

use crate::bounding_box::Box;
use crate::ray::Ray;
use crate::scalar::{Scalar, FULL_TURN_BITS, ONE_BITS, PI_BITS, TWO_BITS, ZERO_BITS};
use crate::vector::Vector;
use vstd::prelude::*;

verus! {

/// A 4x4 matrix; `x12` is the entry in row 1, column 2. Points are column
/// vectors with a fourth coordinate of one.
#[derive(Clone, Copy, Debug)]
pub struct Matrix {
    pub x00: Scalar,
    pub x01: Scalar,
    pub x02: Scalar,
    pub x03: Scalar,
    pub x10: Scalar,
    pub x11: Scalar,
    pub x12: Scalar,
    pub x13: Scalar,
    pub x20: Scalar,
    pub x21: Scalar,
    pub x22: Scalar,
    pub x23: Scalar,
    pub x30: Scalar,
    pub x31: Scalar,
    pub x32: Scalar,
    pub x33: Scalar,
}

impl Matrix {
    /// The matrix that maps every point to itself.
    pub open spec fn spec_identity() -> Matrix {
        Matrix {
            x00: Scalar { bits: ONE_BITS },
            x01: Scalar { bits: ZERO_BITS },
            x02: Scalar { bits: ZERO_BITS },
            x03: Scalar { bits: ZERO_BITS },
            x10: Scalar { bits: ZERO_BITS },
            x11: Scalar { bits: ONE_BITS },
            x12: Scalar { bits: ZERO_BITS },
            x13: Scalar { bits: ZERO_BITS },
            x20: Scalar { bits: ZERO_BITS },
            x21: Scalar { bits: ZERO_BITS },
            x22: Scalar { bits: ONE_BITS },
            x23: Scalar { bits: ZERO_BITS },
            x30: Scalar { bits: ZERO_BITS },
            x31: Scalar { bits: ZERO_BITS },
            x32: Scalar { bits: ZERO_BITS },
            x33: Scalar { bits: ONE_BITS },
        }
    }

    /// The matrix that moves every point by `v`.
    pub open spec fn spec_translate(v: Vector) -> Matrix {
        Matrix {
            x00: Scalar { bits: ONE_BITS },
            x01: Scalar { bits: ZERO_BITS },
            x02: Scalar { bits: ZERO_BITS },
            x03: v.x,
            x10: Scalar { bits: ZERO_BITS },
            x11: Scalar { bits: ONE_BITS },
            x12: Scalar { bits: ZERO_BITS },
            x13: v.y,
            x20: Scalar { bits: ZERO_BITS },
            x21: Scalar { bits: ZERO_BITS },
            x22: Scalar { bits: ONE_BITS },
            x23: v.z,
            x30: Scalar { bits: ZERO_BITS },
            x31: Scalar { bits: ZERO_BITS },
            x32: Scalar { bits: ZERO_BITS },
            x33: Scalar { bits: ONE_BITS },
        }
    }

    /// The matrix that scales each axis by the matching component of `v`.
    pub open spec fn spec_scale(v: Vector) -> Matrix {
        Matrix {
            x00: v.x,
            x01: Scalar { bits: ZERO_BITS },
            x02: Scalar { bits: ZERO_BITS },
            x03: Scalar { bits: ZERO_BITS },
            x10: Scalar { bits: ZERO_BITS },
            x11: v.y,
            x12: Scalar { bits: ZERO_BITS },
            x13: Scalar { bits: ZERO_BITS },
            x20: Scalar { bits: ZERO_BITS },
            x21: Scalar { bits: ZERO_BITS },
            x22: v.z,
            x23: Scalar { bits: ZERO_BITS },
            x30: Scalar { bits: ZERO_BITS },
            x31: Scalar { bits: ZERO_BITS },
            x32: Scalar { bits: ZERO_BITS },
            x33: Scalar { bits: ONE_BITS },
        }
    }

    /// The rotation by the angle `a`, in radians, about the axis `v`.
    pub open spec fn spec_rotate(v: Vector, a: Scalar) -> Matrix {
        let v = v.spec_normalize();
        let s = a.spec_sin();
        let c = a.spec_cos();
        let m = Scalar { bits: ONE_BITS }.spec_sub(c);
        Matrix {
            x00: m.spec_mul(v.x).spec_mul(v.x).spec_add(c),
            x01: m.spec_mul(v.x).spec_mul(v.y).spec_add(v.z.spec_mul(s)),
            x02: m.spec_mul(v.z).spec_mul(v.x).spec_sub(v.y.spec_mul(s)),
            x03: Scalar { bits: ZERO_BITS },
            x10: m.spec_mul(v.x).spec_mul(v.y).spec_sub(v.z.spec_mul(s)),
            x11: m.spec_mul(v.y).spec_mul(v.y).spec_add(c),
            x12: m.spec_mul(v.y).spec_mul(v.z).spec_add(v.x.spec_mul(s)),
            x13: Scalar { bits: ZERO_BITS },
            x20: m.spec_mul(v.z).spec_mul(v.x).spec_add(v.y.spec_mul(s)),
            x21: m.spec_mul(v.y).spec_mul(v.z).spec_sub(v.x.spec_mul(s)),
            x22: m.spec_mul(v.z).spec_mul(v.z).spec_add(c),
            x23: Scalar { bits: ZERO_BITS },
            x30: Scalar { bits: ZERO_BITS },
            x31: Scalar { bits: ZERO_BITS },
            x32: Scalar { bits: ZERO_BITS },
            x33: Scalar { bits: ONE_BITS },
        }
    }

    /// The perspective projection of the frustum with the given left, right, bottom,
    /// top, near and far planes.
    pub open spec fn spec_frustum(l: Scalar, r: Scalar, b: Scalar, t: Scalar, n: Scalar, f: Scalar) -> Matrix {
        let t1 = Scalar { bits: TWO_BITS }.spec_mul(n);
        let t2 = r.spec_sub(l);
        let t3 = t.spec_sub(b);
        let t4 = f.spec_sub(n);
        Matrix {
            x00: t1.spec_div(t2),
            x01: Scalar { bits: ZERO_BITS },
            x02: r.spec_add(l).spec_div(t2),
            x03: Scalar { bits: ZERO_BITS },
            x10: Scalar { bits: ZERO_BITS },
            x11: t1.spec_div(t3),
            x12: t.spec_add(b).spec_div(t3),
            x13: Scalar { bits: ZERO_BITS },
            x20: Scalar { bits: ZERO_BITS },
            x21: Scalar { bits: ZERO_BITS },
            x22: f.spec_neg().spec_sub(n).spec_div(t4),
            x23: t1.spec_neg().spec_mul(f).spec_div(t4),
            x30: Scalar { bits: ZERO_BITS },
            x31: Scalar { bits: ZERO_BITS },
            x32: Scalar { bits: ONE_BITS }.spec_neg(),
            x33: Scalar { bits: ZERO_BITS },
        }
    }

    /// The parallel projection of the box with the given left, right, bottom, top,
    /// near and far planes.
    pub open spec fn spec_orthographic(l: Scalar, r: Scalar, b: Scalar, t: Scalar, n: Scalar, f: Scalar) -> Matrix {
        Matrix {
            x00: Scalar { bits: TWO_BITS }.spec_div(r.spec_sub(l)),
            x01: Scalar { bits: ZERO_BITS },
            x02: Scalar { bits: ZERO_BITS },
            x03: r.spec_add(l).spec_neg().spec_div(r.spec_sub(l)),
            x10: Scalar { bits: ZERO_BITS },
            x11: Scalar { bits: TWO_BITS }.spec_div(t.spec_sub(b)),
            x12: Scalar { bits: ZERO_BITS },
            x13: t.spec_add(b).spec_neg().spec_div(t.spec_sub(b)),
            x20: Scalar { bits: ZERO_BITS },
            x21: Scalar { bits: ZERO_BITS },
            x22: Scalar { bits: TWO_BITS }.spec_neg().spec_div(f.spec_sub(n)),
            x23: f.spec_add(n).spec_neg().spec_div(f.spec_sub(n)),
            x30: Scalar { bits: ZERO_BITS },
            x31: Scalar { bits: ZERO_BITS },
            x32: Scalar { bits: ZERO_BITS },
            x33: Scalar { bits: ONE_BITS },
        }
    }

    /// The perspective projection with the vertical field of view `fovy`, in
    /// degrees, the aspect ratio `aspect` and the near and far planes.
    pub open spec fn spec_perspective(fovy: Scalar, aspect: Scalar, near: Scalar, far: Scalar) -> Matrix {
        let ymax = near.spec_mul(fovy.spec_mul(Scalar { bits: PI_BITS }).spec_div(Scalar { bits: FULL_TURN_BITS }).spec_tan());
        let xmax = ymax.spec_mul(aspect);
        Matrix::spec_frustum(xmax.spec_neg(), xmax, ymax.spec_neg(), ymax, near, far)
    }

    /// The view transform of a camera at `eye` that looks at `center`, with
    /// `up` pointing upwards.
    pub open spec fn spec_look_at(eye: Vector, center: Vector, up: Vector) -> Matrix {
        let up = up.spec_normalize();
        let f = center.spec_sub(eye).spec_normalize();
        let s = f.spec_cross(up).spec_normalize();
        let u = s.spec_cross(f).spec_normalize();
        let m = Matrix {
            x00: s.x,
            x01: u.x,
            x02: f.x.spec_neg(),
            x03: eye.x,
            x10: s.y,
            x11: u.y,
            x12: f.y.spec_neg(),
            x13: eye.y,
            x20: s.z,
            x21: u.z,
            x22: f.z.spec_neg(),
            x23: eye.z,
            x30: Scalar { bits: ZERO_BITS },
            x31: Scalar { bits: ZERO_BITS },
            x32: Scalar { bits: ZERO_BITS },
            x33: Scalar { bits: ONE_BITS },
        };
        m.spec_inverse()
    }

    /// This transform followed by a move by `v`.
    pub open spec fn spec_translated(self, v: Vector) -> Matrix {
        Matrix::spec_translate(v).spec_mul(self)
    }

    /// This transform followed by a scaling by `v`.
    pub open spec fn spec_scaled(self, v: Vector) -> Matrix {
        Matrix::spec_scale(v).spec_mul(self)
    }

    /// This transform followed by a rotation by `a` about `v`.
    pub open spec fn spec_rotated(self, v: Vector, a: Scalar) -> Matrix {
        Matrix::spec_rotate(v, a).spec_mul(self)
    }

    /// This transform followed by the frustum projection.
    pub open spec fn spec_with_frustum(self, l: Scalar, r: Scalar, b: Scalar, t: Scalar, n: Scalar, f: Scalar) -> Matrix {
        Matrix::spec_frustum(l, r, b, t, n, f).spec_mul(self)
    }

    /// This transform followed by the parallel projection.
    pub open spec fn spec_with_orthographic(self, l: Scalar, r: Scalar, b: Scalar, t: Scalar, n: Scalar, f: Scalar) -> Matrix {
        Matrix::spec_orthographic(l, r, b, t, n, f).spec_mul(self)
    }

    /// This transform followed by the perspective projection.
    pub open spec fn spec_with_perspective(self, fovy: Scalar, aspect: Scalar, near: Scalar, far: Scalar) -> Matrix {
        Matrix::spec_perspective(fovy, aspect, near, far).spec_mul(self)
    }

    /// The matrix product `self * b`: the transform `b` followed by `self`.
    pub open spec fn spec_mul(self, b: Matrix) -> Matrix {
        let a = self;
        Matrix {
            x00: a.x00.spec_mul(b.x00).spec_add(a.x01.spec_mul(b.x10)).spec_add(a.x02.spec_mul(b.x20)).spec_add(a.x03.spec_mul(b.x30)),
            x01: a.x00.spec_mul(b.x01).spec_add(a.x01.spec_mul(b.x11)).spec_add(a.x02.spec_mul(b.x21)).spec_add(a.x03.spec_mul(b.x31)),
            x02: a.x00.spec_mul(b.x02).spec_add(a.x01.spec_mul(b.x12)).spec_add(a.x02.spec_mul(b.x22)).spec_add(a.x03.spec_mul(b.x32)),
            x03: a.x00.spec_mul(b.x03).spec_add(a.x01.spec_mul(b.x13)).spec_add(a.x02.spec_mul(b.x23)).spec_add(a.x03.spec_mul(b.x33)),
            x10: a.x10.spec_mul(b.x00).spec_add(a.x11.spec_mul(b.x10)).spec_add(a.x12.spec_mul(b.x20)).spec_add(a.x13.spec_mul(b.x30)),
            x11: a.x10.spec_mul(b.x01).spec_add(a.x11.spec_mul(b.x11)).spec_add(a.x12.spec_mul(b.x21)).spec_add(a.x13.spec_mul(b.x31)),
            x12: a.x10.spec_mul(b.x02).spec_add(a.x11.spec_mul(b.x12)).spec_add(a.x12.spec_mul(b.x22)).spec_add(a.x13.spec_mul(b.x32)),
            x13: a.x10.spec_mul(b.x03).spec_add(a.x11.spec_mul(b.x13)).spec_add(a.x12.spec_mul(b.x23)).spec_add(a.x13.spec_mul(b.x33)),
            x20: a.x20.spec_mul(b.x00).spec_add(a.x21.spec_mul(b.x10)).spec_add(a.x22.spec_mul(b.x20)).spec_add(a.x23.spec_mul(b.x30)),
            x21: a.x20.spec_mul(b.x01).spec_add(a.x21.spec_mul(b.x11)).spec_add(a.x22.spec_mul(b.x21)).spec_add(a.x23.spec_mul(b.x31)),
            x22: a.x20.spec_mul(b.x02).spec_add(a.x21.spec_mul(b.x12)).spec_add(a.x22.spec_mul(b.x22)).spec_add(a.x23.spec_mul(b.x32)),
            x23: a.x20.spec_mul(b.x03).spec_add(a.x21.spec_mul(b.x13)).spec_add(a.x22.spec_mul(b.x23)).spec_add(a.x23.spec_mul(b.x33)),
            x30: a.x30.spec_mul(b.x00).spec_add(a.x31.spec_mul(b.x10)).spec_add(a.x32.spec_mul(b.x20)).spec_add(a.x33.spec_mul(b.x30)),
            x31: a.x30.spec_mul(b.x01).spec_add(a.x31.spec_mul(b.x11)).spec_add(a.x32.spec_mul(b.x21)).spec_add(a.x33.spec_mul(b.x31)),
            x32: a.x30.spec_mul(b.x02).spec_add(a.x31.spec_mul(b.x12)).spec_add(a.x32.spec_mul(b.x22)).spec_add(a.x33.spec_mul(b.x32)),
            x33: a.x30.spec_mul(b.x03).spec_add(a.x31.spec_mul(b.x13)).spec_add(a.x32.spec_mul(b.x23)).spec_add(a.x33.spec_mul(b.x33)),
        }
    }

    /// The image of the point `b`, without the perspective division.
    pub open spec fn spec_mul_position(self, b: Vector) -> Vector {
        let x = self.x00.spec_mul(b.x).spec_add(self.x01.spec_mul(b.y)).spec_add(self.x02.spec_mul(b.z)).spec_add(self.x03);
        let y = self.x10.spec_mul(b.x).spec_add(self.x11.spec_mul(b.y)).spec_add(self.x12.spec_mul(b.z)).spec_add(self.x13);
        let z = self.x20.spec_mul(b.x).spec_add(self.x21.spec_mul(b.y)).spec_add(self.x22.spec_mul(b.z)).spec_add(self.x23);
        Vector { x: x, y: y, z: z }
    }

    /// The image of the point `b`, divided by its fourth coordinate.
    pub open spec fn spec_mul_position_w(self, b: Vector) -> Vector {
        let x = self.x00.spec_mul(b.x).spec_add(self.x01.spec_mul(b.y)).spec_add(self.x02.spec_mul(b.z)).spec_add(self.x03);
        let y = self.x10.spec_mul(b.x).spec_add(self.x11.spec_mul(b.y)).spec_add(self.x12.spec_mul(b.z)).spec_add(self.x13);
        let z = self.x20.spec_mul(b.x).spec_add(self.x21.spec_mul(b.y)).spec_add(self.x22.spec_mul(b.z)).spec_add(self.x23);
        let w = self.x30.spec_mul(b.x).spec_add(self.x31.spec_mul(b.y)).spec_add(self.x32.spec_mul(b.z)).spec_add(self.x33);
        Vector { x: x.spec_div(w), y: y.spec_div(w), z: z.spec_div(w) }
    }

    /// The image of the direction `b`, scaled to unit length.
    pub open spec fn spec_mul_direction(self, b: Vector) -> Vector {
        let x = self.x00.spec_mul(b.x).spec_add(self.x01.spec_mul(b.y)).spec_add(self.x02.spec_mul(b.z));
        let y = self.x10.spec_mul(b.x).spec_add(self.x11.spec_mul(b.y)).spec_add(self.x12.spec_mul(b.z));
        let z = self.x20.spec_mul(b.x).spec_add(self.x21.spec_mul(b.y)).spec_add(self.x22.spec_mul(b.z));
        Vector { x, y, z }.spec_normalize()
    }

    /// The image of the ray `b`.
    pub open spec fn spec_mul_ray(self, b: Ray) -> Ray {
        Ray { origin: self.spec_mul_position(b.origin), direction: self.spec_mul_direction(b.direction) }
    }

    /// A box around the image of the box `bx`.
    pub open spec fn spec_mul_box(self, bx: Box) -> Box {
        let r = Vector { x: self.x00, y: self.x10, z: self.x20 };
        let u = Vector { x: self.x01, y: self.x11, z: self.x21 };
        let b = Vector { x: self.x02, y: self.x12, z: self.x22 };
        let t = Vector { x: self.x03, y: self.x13, z: self.x23 };
        let xa = r.spec_mul_scalar(bx.min.x);
        let xb = r.spec_mul_scalar(bx.max.x);
        let ya = u.spec_mul_scalar(bx.min.y);
        let yb = u.spec_mul_scalar(bx.max.y);
        let za = b.spec_mul_scalar(bx.min.z);
        let zb = b.spec_mul_scalar(bx.max.z);
        let min = xa.spec_min(xb).spec_add(ya.spec_min(yb)).spec_add(za.spec_min(zb)).spec_add(t);
        let max = xa.spec_max(xb).spec_add(ya.spec_max(yb)).spec_add(za.spec_max(zb)).spec_add(t);
        Box { min, max }
    }

    /// The matrix mirrored at its diagonal.
    pub open spec fn spec_transpose(self) -> Matrix {
        Matrix {
            x00: self.x00,
            x01: self.x10,
            x02: self.x20,
            x03: self.x30,
            x10: self.x01,
            x11: self.x11,
            x12: self.x21,
            x13: self.x31,
            x20: self.x02,
            x21: self.x12,
            x22: self.x22,
            x23: self.x32,
            x30: self.x03,
            x31: self.x13,
            x32: self.x23,
            x33: self.x33,
        }
    }

    /// The determinant, as the sum of its twenty-four signed products taken from
    /// the left.
    pub open spec fn spec_determinant(self) -> Scalar {
        let a = self;
        a.x00.spec_mul(a.x11).spec_mul(a.x22).spec_mul(a.x33).spec_sub(a.x00.spec_mul(a.x11).spec_mul(a.x23).spec_mul(a.x32)).spec_add(a.x00.spec_mul(a.x12).spec_mul(a.x23).spec_mul(a.x31)).spec_sub(a.x00.spec_mul(a.x12).spec_mul(a.x21).spec_mul(a.x33)).spec_add(a.x00.spec_mul(a.x13).spec_mul(a.x21).spec_mul(a.x32)).spec_sub(a.x00.spec_mul(a.x13).spec_mul(a.x22).spec_mul(a.x31)).spec_sub(a.x01.spec_mul(a.x12).spec_mul(a.x23).spec_mul(a.x30)).spec_add(a.x01.spec_mul(a.x12).spec_mul(a.x20).spec_mul(a.x33)).spec_sub(a.x01.spec_mul(a.x13).spec_mul(a.x20).spec_mul(a.x32)).spec_add(a.x01.spec_mul(a.x13).spec_mul(a.x22).spec_mul(a.x30)).spec_sub(a.x01.spec_mul(a.x10).spec_mul(a.x22).spec_mul(a.x33)).spec_add(a.x01.spec_mul(a.x10).spec_mul(a.x23).spec_mul(a.x32)).spec_add(a.x02.spec_mul(a.x13).spec_mul(a.x20).spec_mul(a.x31)).spec_sub(a.x02.spec_mul(a.x13).spec_mul(a.x21).spec_mul(a.x30)).spec_add(a.x02.spec_mul(a.x10).spec_mul(a.x21).spec_mul(a.x33)).spec_sub(a.x02.spec_mul(a.x10).spec_mul(a.x23).spec_mul(a.x31)).spec_add(a.x02.spec_mul(a.x11).spec_mul(a.x23).spec_mul(a.x30)).spec_sub(a.x02.spec_mul(a.x11).spec_mul(a.x20).spec_mul(a.x33)).spec_sub(a.x03.spec_mul(a.x10).spec_mul(a.x21).spec_mul(a.x32)).spec_add(a.x03.spec_mul(a.x10).spec_mul(a.x22).spec_mul(a.x31)).spec_sub(a.x03.spec_mul(a.x11).spec_mul(a.x22).spec_mul(a.x30)).spec_add(a.x03.spec_mul(a.x11).spec_mul(a.x20).spec_mul(a.x32)).spec_sub(a.x03.spec_mul(a.x12).spec_mul(a.x20).spec_mul(a.x31)).spec_add(a.x03.spec_mul(a.x12).spec_mul(a.x21).spec_mul(a.x30))
    }

    /// The inverse: the adjugate divided by the determinant. A singular matrix
    /// gives entries that are infinities or NaNs.
    pub open spec fn spec_inverse(self) -> Matrix {
        let a = self;
        let d = self.spec_determinant();
        Matrix {
            x00: a.x12.spec_mul(a.x23).spec_mul(a.x31).spec_sub(a.x13.spec_mul(a.x22).spec_mul(a.x31)).spec_add(a.x13.spec_mul(a.x21).spec_mul(a.x32)).spec_sub(a.x11.spec_mul(a.x23).spec_mul(a.x32)).spec_sub(a.x12.spec_mul(a.x21).spec_mul(a.x33)).spec_add(a.x11.spec_mul(a.x22).spec_mul(a.x33)).spec_div(d),
            x01: a.x03.spec_mul(a.x22).spec_mul(a.x31).spec_sub(a.x02.spec_mul(a.x23).spec_mul(a.x31)).spec_sub(a.x03.spec_mul(a.x21).spec_mul(a.x32)).spec_add(a.x01.spec_mul(a.x23).spec_mul(a.x32)).spec_add(a.x02.spec_mul(a.x21).spec_mul(a.x33)).spec_sub(a.x01.spec_mul(a.x22).spec_mul(a.x33)).spec_div(d),
            x02: a.x02.spec_mul(a.x13).spec_mul(a.x31).spec_sub(a.x03.spec_mul(a.x12).spec_mul(a.x31)).spec_add(a.x03.spec_mul(a.x11).spec_mul(a.x32)).spec_sub(a.x01.spec_mul(a.x13).spec_mul(a.x32)).spec_sub(a.x02.spec_mul(a.x11).spec_mul(a.x33)).spec_add(a.x01.spec_mul(a.x12).spec_mul(a.x33)).spec_div(d),
            x03: a.x03.spec_mul(a.x12).spec_mul(a.x21).spec_sub(a.x02.spec_mul(a.x13).spec_mul(a.x21)).spec_sub(a.x03.spec_mul(a.x11).spec_mul(a.x22)).spec_add(a.x01.spec_mul(a.x13).spec_mul(a.x22)).spec_add(a.x02.spec_mul(a.x11).spec_mul(a.x23)).spec_sub(a.x01.spec_mul(a.x12).spec_mul(a.x23)).spec_div(d),
            x10: a.x13.spec_mul(a.x22).spec_mul(a.x30).spec_sub(a.x12.spec_mul(a.x23).spec_mul(a.x30)).spec_sub(a.x13.spec_mul(a.x20).spec_mul(a.x32)).spec_add(a.x10.spec_mul(a.x23).spec_mul(a.x32)).spec_add(a.x12.spec_mul(a.x20).spec_mul(a.x33)).spec_sub(a.x10.spec_mul(a.x22).spec_mul(a.x33)).spec_div(d),
            x11: a.x02.spec_mul(a.x23).spec_mul(a.x30).spec_sub(a.x03.spec_mul(a.x22).spec_mul(a.x30)).spec_add(a.x03.spec_mul(a.x20).spec_mul(a.x32)).spec_sub(a.x00.spec_mul(a.x23).spec_mul(a.x32)).spec_sub(a.x02.spec_mul(a.x20).spec_mul(a.x33)).spec_add(a.x00.spec_mul(a.x22).spec_mul(a.x33)).spec_div(d),
            x12: a.x03.spec_mul(a.x12).spec_mul(a.x30).spec_sub(a.x02.spec_mul(a.x13).spec_mul(a.x30)).spec_sub(a.x03.spec_mul(a.x10).spec_mul(a.x32)).spec_add(a.x00.spec_mul(a.x13).spec_mul(a.x32)).spec_add(a.x02.spec_mul(a.x10).spec_mul(a.x33)).spec_sub(a.x00.spec_mul(a.x12).spec_mul(a.x33)).spec_div(d),
            x13: a.x02.spec_mul(a.x13).spec_mul(a.x20).spec_sub(a.x03.spec_mul(a.x12).spec_mul(a.x20)).spec_add(a.x03.spec_mul(a.x10).spec_mul(a.x22)).spec_sub(a.x00.spec_mul(a.x13).spec_mul(a.x22)).spec_sub(a.x02.spec_mul(a.x10).spec_mul(a.x23)).spec_add(a.x00.spec_mul(a.x12).spec_mul(a.x23)).spec_div(d),
            x20: a.x11.spec_mul(a.x23).spec_mul(a.x30).spec_sub(a.x13.spec_mul(a.x21).spec_mul(a.x30)).spec_add(a.x13.spec_mul(a.x20).spec_mul(a.x31)).spec_sub(a.x10.spec_mul(a.x23).spec_mul(a.x31)).spec_sub(a.x11.spec_mul(a.x20).spec_mul(a.x33)).spec_add(a.x10.spec_mul(a.x21).spec_mul(a.x33)).spec_div(d),
            x21: a.x03.spec_mul(a.x21).spec_mul(a.x30).spec_sub(a.x01.spec_mul(a.x23).spec_mul(a.x30)).spec_sub(a.x03.spec_mul(a.x20).spec_mul(a.x31)).spec_add(a.x00.spec_mul(a.x23).spec_mul(a.x31)).spec_add(a.x01.spec_mul(a.x20).spec_mul(a.x33)).spec_sub(a.x00.spec_mul(a.x21).spec_mul(a.x33)).spec_div(d),
            x22: a.x01.spec_mul(a.x13).spec_mul(a.x30).spec_sub(a.x03.spec_mul(a.x11).spec_mul(a.x30)).spec_add(a.x03.spec_mul(a.x10).spec_mul(a.x31)).spec_sub(a.x00.spec_mul(a.x13).spec_mul(a.x31)).spec_sub(a.x01.spec_mul(a.x10).spec_mul(a.x33)).spec_add(a.x00.spec_mul(a.x11).spec_mul(a.x33)).spec_div(d),
            x23: a.x03.spec_mul(a.x11).spec_mul(a.x20).spec_sub(a.x01.spec_mul(a.x13).spec_mul(a.x20)).spec_sub(a.x03.spec_mul(a.x10).spec_mul(a.x21)).spec_add(a.x00.spec_mul(a.x13).spec_mul(a.x21)).spec_add(a.x01.spec_mul(a.x10).spec_mul(a.x23)).spec_sub(a.x00.spec_mul(a.x11).spec_mul(a.x23)).spec_div(d),
            x30: a.x12.spec_mul(a.x21).spec_mul(a.x30).spec_sub(a.x11.spec_mul(a.x22).spec_mul(a.x30)).spec_sub(a.x12.spec_mul(a.x20).spec_mul(a.x31)).spec_add(a.x10.spec_mul(a.x22).spec_mul(a.x31)).spec_add(a.x11.spec_mul(a.x20).spec_mul(a.x32)).spec_sub(a.x10.spec_mul(a.x21).spec_mul(a.x32)).spec_div(d),
            x31: a.x01.spec_mul(a.x22).spec_mul(a.x30).spec_sub(a.x02.spec_mul(a.x21).spec_mul(a.x30)).spec_add(a.x02.spec_mul(a.x20).spec_mul(a.x31)).spec_sub(a.x00.spec_mul(a.x22).spec_mul(a.x31)).spec_sub(a.x01.spec_mul(a.x20).spec_mul(a.x32)).spec_add(a.x00.spec_mul(a.x21).spec_mul(a.x32)).spec_div(d),
            x32: a.x02.spec_mul(a.x11).spec_mul(a.x30).spec_sub(a.x01.spec_mul(a.x12).spec_mul(a.x30)).spec_sub(a.x02.spec_mul(a.x10).spec_mul(a.x31)).spec_add(a.x00.spec_mul(a.x12).spec_mul(a.x31)).spec_add(a.x01.spec_mul(a.x10).spec_mul(a.x32)).spec_sub(a.x00.spec_mul(a.x11).spec_mul(a.x32)).spec_div(d),
            x33: a.x01.spec_mul(a.x12).spec_mul(a.x20).spec_sub(a.x02.spec_mul(a.x11).spec_mul(a.x20)).spec_add(a.x02.spec_mul(a.x10).spec_mul(a.x21)).spec_sub(a.x00.spec_mul(a.x12).spec_mul(a.x21)).spec_sub(a.x01.spec_mul(a.x10).spec_mul(a.x22)).spec_add(a.x00.spec_mul(a.x11).spec_mul(a.x22)).spec_div(d),
        }
    }

    /// The matrix that maps every point to itself.
    pub fn identity() -> (out: Matrix)
        ensures
            out == Matrix::spec_identity(),
    {
        Matrix {
            x00: Scalar { bits: ONE_BITS },
            x01: Scalar { bits: ZERO_BITS },
            x02: Scalar { bits: ZERO_BITS },
            x03: Scalar { bits: ZERO_BITS },
            x10: Scalar { bits: ZERO_BITS },
            x11: Scalar { bits: ONE_BITS },
            x12: Scalar { bits: ZERO_BITS },
            x13: Scalar { bits: ZERO_BITS },
            x20: Scalar { bits: ZERO_BITS },
            x21: Scalar { bits: ZERO_BITS },
            x22: Scalar { bits: ONE_BITS },
            x23: Scalar { bits: ZERO_BITS },
            x30: Scalar { bits: ZERO_BITS },
            x31: Scalar { bits: ZERO_BITS },
            x32: Scalar { bits: ZERO_BITS },
            x33: Scalar { bits: ONE_BITS },
        }
    }

    /// The matrix that moves every point by `v`.
    pub fn translate(v: Vector) -> (out: Matrix)
        ensures
            out == Matrix::spec_translate(v),
    {
        Matrix {
            x00: Scalar { bits: ONE_BITS },
            x01: Scalar { bits: ZERO_BITS },
            x02: Scalar { bits: ZERO_BITS },
            x03: v.x,
            x10: Scalar { bits: ZERO_BITS },
            x11: Scalar { bits: ONE_BITS },
            x12: Scalar { bits: ZERO_BITS },
            x13: v.y,
            x20: Scalar { bits: ZERO_BITS },
            x21: Scalar { bits: ZERO_BITS },
            x22: Scalar { bits: ONE_BITS },
            x23: v.z,
            x30: Scalar { bits: ZERO_BITS },
            x31: Scalar { bits: ZERO_BITS },
            x32: Scalar { bits: ZERO_BITS },
            x33: Scalar { bits: ONE_BITS },
        }
    }

    /// The matrix that scales each axis by the matching component of `v`.
    pub fn scale(v: Vector) -> (out: Matrix)
        ensures
            out == Matrix::spec_scale(v),
    {
        Matrix {
            x00: v.x,
            x01: Scalar { bits: ZERO_BITS },
            x02: Scalar { bits: ZERO_BITS },
            x03: Scalar { bits: ZERO_BITS },
            x10: Scalar { bits: ZERO_BITS },
            x11: v.y,
            x12: Scalar { bits: ZERO_BITS },
            x13: Scalar { bits: ZERO_BITS },
            x20: Scalar { bits: ZERO_BITS },
            x21: Scalar { bits: ZERO_BITS },
            x22: v.z,
            x23: Scalar { bits: ZERO_BITS },
            x30: Scalar { bits: ZERO_BITS },
            x31: Scalar { bits: ZERO_BITS },
            x32: Scalar { bits: ZERO_BITS },
            x33: Scalar { bits: ONE_BITS },
        }
    }

    /// The rotation by the angle `a`, in radians, about the axis `v`.
    pub fn rotate(v: Vector, a: Scalar) -> (out: Matrix)
        ensures
            out == Matrix::spec_rotate(v, a),
    {
        let v = v.normalize();
        let s = a.sin();
        let c = a.cos();
        let m = Scalar { bits: ONE_BITS }.sub(c);
        Matrix {
            x00: m.mul(v.x).mul(v.x).add(c),
            x01: m.mul(v.x).mul(v.y).add(v.z.mul(s)),
            x02: m.mul(v.z).mul(v.x).sub(v.y.mul(s)),
            x03: Scalar { bits: ZERO_BITS },
            x10: m.mul(v.x).mul(v.y).sub(v.z.mul(s)),
            x11: m.mul(v.y).mul(v.y).add(c),
            x12: m.mul(v.y).mul(v.z).add(v.x.mul(s)),
            x13: Scalar { bits: ZERO_BITS },
            x20: m.mul(v.z).mul(v.x).add(v.y.mul(s)),
            x21: m.mul(v.y).mul(v.z).sub(v.x.mul(s)),
            x22: m.mul(v.z).mul(v.z).add(c),
            x23: Scalar { bits: ZERO_BITS },
            x30: Scalar { bits: ZERO_BITS },
            x31: Scalar { bits: ZERO_BITS },
            x32: Scalar { bits: ZERO_BITS },
            x33: Scalar { bits: ONE_BITS },
        }
    }

    /// The perspective projection of the frustum with the given left, right, bottom,
    /// top, near and far planes.
    pub fn frustum(l: Scalar, r: Scalar, b: Scalar, t: Scalar, n: Scalar, f: Scalar) -> (out: Matrix)
        ensures
            out == Matrix::spec_frustum(l, r, b, t, n, f),
    {
        let t1 = Scalar { bits: TWO_BITS }.mul(n);
        let t2 = r.sub(l);
        let t3 = t.sub(b);
        let t4 = f.sub(n);
        Matrix {
            x00: t1.div(t2),
            x01: Scalar { bits: ZERO_BITS },
            x02: r.add(l).div(t2),
            x03: Scalar { bits: ZERO_BITS },
            x10: Scalar { bits: ZERO_BITS },
            x11: t1.div(t3),
            x12: t.add(b).div(t3),
            x13: Scalar { bits: ZERO_BITS },
            x20: Scalar { bits: ZERO_BITS },
            x21: Scalar { bits: ZERO_BITS },
            x22: f.neg().sub(n).div(t4),
            x23: t1.neg().mul(f).div(t4),
            x30: Scalar { bits: ZERO_BITS },
            x31: Scalar { bits: ZERO_BITS },
            x32: Scalar { bits: ONE_BITS }.neg(),
            x33: Scalar { bits: ZERO_BITS },
        }
    }

    /// The parallel projection of the box with the given left, right, bottom, top,
    /// near and far planes.
    pub fn orthographic(l: Scalar, r: Scalar, b: Scalar, t: Scalar, n: Scalar, f: Scalar) -> (out: Matrix)
        ensures
            out == Matrix::spec_orthographic(l, r, b, t, n, f),
    {
        Matrix {
            x00: Scalar { bits: TWO_BITS }.div(r.sub(l)),
            x01: Scalar { bits: ZERO_BITS },
            x02: Scalar { bits: ZERO_BITS },
            x03: r.add(l).neg().div(r.sub(l)),
            x10: Scalar { bits: ZERO_BITS },
            x11: Scalar { bits: TWO_BITS }.div(t.sub(b)),
            x12: Scalar { bits: ZERO_BITS },
            x13: t.add(b).neg().div(t.sub(b)),
            x20: Scalar { bits: ZERO_BITS },
            x21: Scalar { bits: ZERO_BITS },
            x22: Scalar { bits: TWO_BITS }.neg().div(f.sub(n)),
            x23: f.add(n).neg().div(f.sub(n)),
            x30: Scalar { bits: ZERO_BITS },
            x31: Scalar { bits: ZERO_BITS },
            x32: Scalar { bits: ZERO_BITS },
            x33: Scalar { bits: ONE_BITS },
        }
    }

    /// The perspective projection with the vertical field of view `fovy`, in
    /// degrees, the aspect ratio `aspect` and the near and far planes.
    pub fn perspective(fovy: Scalar, aspect: Scalar, near: Scalar, far: Scalar) -> (out: Matrix)
        ensures
            out == Matrix::spec_perspective(fovy, aspect, near, far),
    {
        let ymax = near.mul(fovy.mul(Scalar { bits: PI_BITS }).div(Scalar { bits: FULL_TURN_BITS }).tan());
        let xmax = ymax.mul(aspect);
        Matrix::frustum(xmax.neg(), xmax, ymax.neg(), ymax, near, far)
    }

    /// The view transform of a camera at `eye` that looks at `center`, with
    /// `up` pointing upwards.
    pub fn look_at(eye: Vector, center: Vector, up: Vector) -> (out: Matrix)
        ensures
            out == Matrix::spec_look_at(eye, center, up),
    {
        let up = up.normalize();
        let f = center.sub(eye).normalize();
        let s = f.cross(up).normalize();
        let u = s.cross(f).normalize();
        let m = Matrix {
            x00: s.x,
            x01: u.x,
            x02: f.x.neg(),
            x03: eye.x,
            x10: s.y,
            x11: u.y,
            x12: f.y.neg(),
            x13: eye.y,
            x20: s.z,
            x21: u.z,
            x22: f.z.neg(),
            x23: eye.z,
            x30: Scalar { bits: ZERO_BITS },
            x31: Scalar { bits: ZERO_BITS },
            x32: Scalar { bits: ZERO_BITS },
            x33: Scalar { bits: ONE_BITS },
        };
        m.inverse()
    }

    /// This transform followed by a move by `v`.
    pub fn translated(&self, v: Vector) -> (out: Matrix)
        ensures
            out == self.spec_translated(v),
    {
        Matrix::translate(v).mul(self)
    }

    /// This transform followed by a scaling by `v`.
    pub fn scaled(&self, v: Vector) -> (out: Matrix)
        ensures
            out == self.spec_scaled(v),
    {
        Matrix::scale(v).mul(self)
    }

    /// This transform followed by a rotation by `a` about `v`.
    pub fn rotated(&self, v: Vector, a: Scalar) -> (out: Matrix)
        ensures
            out == self.spec_rotated(v, a),
    {
        Matrix::rotate(v, a).mul(self)
    }

    /// This transform followed by the frustum projection.
    pub fn with_frustum(&self, l: Scalar, r: Scalar, b: Scalar, t: Scalar, n: Scalar, f: Scalar) -> (out: Matrix)
        ensures
            out == self.spec_with_frustum(l, r, b, t, n, f),
    {
        Matrix::frustum(l, r, b, t, n, f).mul(self)
    }

    /// This transform followed by the parallel projection.
    pub fn with_orthographic(&self, l: Scalar, r: Scalar, b: Scalar, t: Scalar, n: Scalar, f: Scalar) -> (out: Matrix)
        ensures
            out == self.spec_with_orthographic(l, r, b, t, n, f),
    {
        Matrix::orthographic(l, r, b, t, n, f).mul(self)
    }

    /// This transform followed by the perspective projection.
    pub fn with_perspective(&self, fovy: Scalar, aspect: Scalar, near: Scalar, far: Scalar) -> (out: Matrix)
        ensures
            out == self.spec_with_perspective(fovy, aspect, near, far),
    {
        Matrix::perspective(fovy, aspect, near, far).mul(self)
    }

    /// The matrix product `self * b`: the transform `b` followed by `self`.
    pub fn mul(&self, b: &Matrix) -> (out: Matrix)
        ensures
            out == self.spec_mul(*b),
    {
        let a = self;
        Matrix {
            x00: a.x00.mul(b.x00).add(a.x01.mul(b.x10)).add(a.x02.mul(b.x20)).add(a.x03.mul(b.x30)),
            x01: a.x00.mul(b.x01).add(a.x01.mul(b.x11)).add(a.x02.mul(b.x21)).add(a.x03.mul(b.x31)),
            x02: a.x00.mul(b.x02).add(a.x01.mul(b.x12)).add(a.x02.mul(b.x22)).add(a.x03.mul(b.x32)),
            x03: a.x00.mul(b.x03).add(a.x01.mul(b.x13)).add(a.x02.mul(b.x23)).add(a.x03.mul(b.x33)),
            x10: a.x10.mul(b.x00).add(a.x11.mul(b.x10)).add(a.x12.mul(b.x20)).add(a.x13.mul(b.x30)),
            x11: a.x10.mul(b.x01).add(a.x11.mul(b.x11)).add(a.x12.mul(b.x21)).add(a.x13.mul(b.x31)),
            x12: a.x10.mul(b.x02).add(a.x11.mul(b.x12)).add(a.x12.mul(b.x22)).add(a.x13.mul(b.x32)),
            x13: a.x10.mul(b.x03).add(a.x11.mul(b.x13)).add(a.x12.mul(b.x23)).add(a.x13.mul(b.x33)),
            x20: a.x20.mul(b.x00).add(a.x21.mul(b.x10)).add(a.x22.mul(b.x20)).add(a.x23.mul(b.x30)),
            x21: a.x20.mul(b.x01).add(a.x21.mul(b.x11)).add(a.x22.mul(b.x21)).add(a.x23.mul(b.x31)),
            x22: a.x20.mul(b.x02).add(a.x21.mul(b.x12)).add(a.x22.mul(b.x22)).add(a.x23.mul(b.x32)),
            x23: a.x20.mul(b.x03).add(a.x21.mul(b.x13)).add(a.x22.mul(b.x23)).add(a.x23.mul(b.x33)),
            x30: a.x30.mul(b.x00).add(a.x31.mul(b.x10)).add(a.x32.mul(b.x20)).add(a.x33.mul(b.x30)),
            x31: a.x30.mul(b.x01).add(a.x31.mul(b.x11)).add(a.x32.mul(b.x21)).add(a.x33.mul(b.x31)),
            x32: a.x30.mul(b.x02).add(a.x31.mul(b.x12)).add(a.x32.mul(b.x22)).add(a.x33.mul(b.x32)),
            x33: a.x30.mul(b.x03).add(a.x31.mul(b.x13)).add(a.x32.mul(b.x23)).add(a.x33.mul(b.x33)),
        }
    }

    /// The image of the point `b`, without the perspective division.
    pub fn mul_position(&self, b: Vector) -> (out: Vector)
        ensures
            out == self.spec_mul_position(b),
    {
        let x = self.x00.mul(b.x).add(self.x01.mul(b.y)).add(self.x02.mul(b.z)).add(self.x03);
        let y = self.x10.mul(b.x).add(self.x11.mul(b.y)).add(self.x12.mul(b.z)).add(self.x13);
        let z = self.x20.mul(b.x).add(self.x21.mul(b.y)).add(self.x22.mul(b.z)).add(self.x23);
        Vector { x: x, y: y, z: z }
    }

    /// The image of the point `b`, divided by its fourth coordinate.
    pub fn mul_position_w(&self, b: Vector) -> (out: Vector)
        ensures
            out == self.spec_mul_position_w(b),
    {
        let x = self.x00.mul(b.x).add(self.x01.mul(b.y)).add(self.x02.mul(b.z)).add(self.x03);
        let y = self.x10.mul(b.x).add(self.x11.mul(b.y)).add(self.x12.mul(b.z)).add(self.x13);
        let z = self.x20.mul(b.x).add(self.x21.mul(b.y)).add(self.x22.mul(b.z)).add(self.x23);
        let w = self.x30.mul(b.x).add(self.x31.mul(b.y)).add(self.x32.mul(b.z)).add(self.x33);
        Vector { x: x.div(w), y: y.div(w), z: z.div(w) }
    }

    /// The image of the direction `b`, scaled to unit length.
    pub fn mul_direction(&self, b: Vector) -> (out: Vector)
        ensures
            out == self.spec_mul_direction(b),
    {
        let x = self.x00.mul(b.x).add(self.x01.mul(b.y)).add(self.x02.mul(b.z));
        let y = self.x10.mul(b.x).add(self.x11.mul(b.y)).add(self.x12.mul(b.z));
        let z = self.x20.mul(b.x).add(self.x21.mul(b.y)).add(self.x22.mul(b.z));
        Vector { x, y, z }.normalize()
    }

    /// The image of the ray `b`.
    pub fn mul_ray(&self, b: Ray) -> (out: Ray)
        ensures
            out == self.spec_mul_ray(b),
    {
        Ray { origin: self.mul_position(b.origin), direction: self.mul_direction(b.direction) }
    }

    /// A box around the image of the box `bx`.
    pub fn mul_box(&self, bx: Box) -> (out: Box)
        ensures
            out == self.spec_mul_box(bx),
    {
        let r = Vector { x: self.x00, y: self.x10, z: self.x20 };
        let u = Vector { x: self.x01, y: self.x11, z: self.x21 };
        let b = Vector { x: self.x02, y: self.x12, z: self.x22 };
        let t = Vector { x: self.x03, y: self.x13, z: self.x23 };
        let xa = r.mul_scalar(bx.min.x);
        let xb = r.mul_scalar(bx.max.x);
        let ya = u.mul_scalar(bx.min.y);
        let yb = u.mul_scalar(bx.max.y);
        let za = b.mul_scalar(bx.min.z);
        let zb = b.mul_scalar(bx.max.z);
        let min = xa.min(xb).add(ya.min(yb)).add(za.min(zb)).add(t);
        let max = xa.max(xb).add(ya.max(yb)).add(za.max(zb)).add(t);
        Box { min, max }
    }

    /// The matrix mirrored at its diagonal.
    pub fn transpose(&self) -> (out: Matrix)
        ensures
            out == self.spec_transpose(),
    {
        Matrix {
            x00: self.x00,
            x01: self.x10,
            x02: self.x20,
            x03: self.x30,
            x10: self.x01,
            x11: self.x11,
            x12: self.x21,
            x13: self.x31,
            x20: self.x02,
            x21: self.x12,
            x22: self.x22,
            x23: self.x32,
            x30: self.x03,
            x31: self.x13,
            x32: self.x23,
            x33: self.x33,
        }
    }

    /// The determinant, as the sum of its twenty-four signed products taken from
    /// the left.
    pub fn determinant(&self) -> (out: Scalar)
        ensures
            out == self.spec_determinant(),
    {
        let a = self;
        a.x00.mul(a.x11).mul(a.x22).mul(a.x33).sub(a.x00.mul(a.x11).mul(a.x23).mul(a.x32)).add(a.x00.mul(a.x12).mul(a.x23).mul(a.x31)).sub(a.x00.mul(a.x12).mul(a.x21).mul(a.x33)).add(a.x00.mul(a.x13).mul(a.x21).mul(a.x32)).sub(a.x00.mul(a.x13).mul(a.x22).mul(a.x31)).sub(a.x01.mul(a.x12).mul(a.x23).mul(a.x30)).add(a.x01.mul(a.x12).mul(a.x20).mul(a.x33)).sub(a.x01.mul(a.x13).mul(a.x20).mul(a.x32)).add(a.x01.mul(a.x13).mul(a.x22).mul(a.x30)).sub(a.x01.mul(a.x10).mul(a.x22).mul(a.x33)).add(a.x01.mul(a.x10).mul(a.x23).mul(a.x32)).add(a.x02.mul(a.x13).mul(a.x20).mul(a.x31)).sub(a.x02.mul(a.x13).mul(a.x21).mul(a.x30)).add(a.x02.mul(a.x10).mul(a.x21).mul(a.x33)).sub(a.x02.mul(a.x10).mul(a.x23).mul(a.x31)).add(a.x02.mul(a.x11).mul(a.x23).mul(a.x30)).sub(a.x02.mul(a.x11).mul(a.x20).mul(a.x33)).sub(a.x03.mul(a.x10).mul(a.x21).mul(a.x32)).add(a.x03.mul(a.x10).mul(a.x22).mul(a.x31)).sub(a.x03.mul(a.x11).mul(a.x22).mul(a.x30)).add(a.x03.mul(a.x11).mul(a.x20).mul(a.x32)).sub(a.x03.mul(a.x12).mul(a.x20).mul(a.x31)).add(a.x03.mul(a.x12).mul(a.x21).mul(a.x30))
    }

    /// The inverse: the adjugate divided by the determinant. A singular matrix
    /// gives entries that are infinities or NaNs.
    pub fn inverse(&self) -> (out: Matrix)
        ensures
            out == self.spec_inverse(),
    {
        let a = self;
        let d = self.determinant();
        Matrix {
            x00: a.x12.mul(a.x23).mul(a.x31).sub(a.x13.mul(a.x22).mul(a.x31)).add(a.x13.mul(a.x21).mul(a.x32)).sub(a.x11.mul(a.x23).mul(a.x32)).sub(a.x12.mul(a.x21).mul(a.x33)).add(a.x11.mul(a.x22).mul(a.x33)).div(d),
            x01: a.x03.mul(a.x22).mul(a.x31).sub(a.x02.mul(a.x23).mul(a.x31)).sub(a.x03.mul(a.x21).mul(a.x32)).add(a.x01.mul(a.x23).mul(a.x32)).add(a.x02.mul(a.x21).mul(a.x33)).sub(a.x01.mul(a.x22).mul(a.x33)).div(d),
            x02: a.x02.mul(a.x13).mul(a.x31).sub(a.x03.mul(a.x12).mul(a.x31)).add(a.x03.mul(a.x11).mul(a.x32)).sub(a.x01.mul(a.x13).mul(a.x32)).sub(a.x02.mul(a.x11).mul(a.x33)).add(a.x01.mul(a.x12).mul(a.x33)).div(d),
            x03: a.x03.mul(a.x12).mul(a.x21).sub(a.x02.mul(a.x13).mul(a.x21)).sub(a.x03.mul(a.x11).mul(a.x22)).add(a.x01.mul(a.x13).mul(a.x22)).add(a.x02.mul(a.x11).mul(a.x23)).sub(a.x01.mul(a.x12).mul(a.x23)).div(d),
            x10: a.x13.mul(a.x22).mul(a.x30).sub(a.x12.mul(a.x23).mul(a.x30)).sub(a.x13.mul(a.x20).mul(a.x32)).add(a.x10.mul(a.x23).mul(a.x32)).add(a.x12.mul(a.x20).mul(a.x33)).sub(a.x10.mul(a.x22).mul(a.x33)).div(d),
            x11: a.x02.mul(a.x23).mul(a.x30).sub(a.x03.mul(a.x22).mul(a.x30)).add(a.x03.mul(a.x20).mul(a.x32)).sub(a.x00.mul(a.x23).mul(a.x32)).sub(a.x02.mul(a.x20).mul(a.x33)).add(a.x00.mul(a.x22).mul(a.x33)).div(d),
            x12: a.x03.mul(a.x12).mul(a.x30).sub(a.x02.mul(a.x13).mul(a.x30)).sub(a.x03.mul(a.x10).mul(a.x32)).add(a.x00.mul(a.x13).mul(a.x32)).add(a.x02.mul(a.x10).mul(a.x33)).sub(a.x00.mul(a.x12).mul(a.x33)).div(d),
            x13: a.x02.mul(a.x13).mul(a.x20).sub(a.x03.mul(a.x12).mul(a.x20)).add(a.x03.mul(a.x10).mul(a.x22)).sub(a.x00.mul(a.x13).mul(a.x22)).sub(a.x02.mul(a.x10).mul(a.x23)).add(a.x00.mul(a.x12).mul(a.x23)).div(d),
            x20: a.x11.mul(a.x23).mul(a.x30).sub(a.x13.mul(a.x21).mul(a.x30)).add(a.x13.mul(a.x20).mul(a.x31)).sub(a.x10.mul(a.x23).mul(a.x31)).sub(a.x11.mul(a.x20).mul(a.x33)).add(a.x10.mul(a.x21).mul(a.x33)).div(d),
            x21: a.x03.mul(a.x21).mul(a.x30).sub(a.x01.mul(a.x23).mul(a.x30)).sub(a.x03.mul(a.x20).mul(a.x31)).add(a.x00.mul(a.x23).mul(a.x31)).add(a.x01.mul(a.x20).mul(a.x33)).sub(a.x00.mul(a.x21).mul(a.x33)).div(d),
            x22: a.x01.mul(a.x13).mul(a.x30).sub(a.x03.mul(a.x11).mul(a.x30)).add(a.x03.mul(a.x10).mul(a.x31)).sub(a.x00.mul(a.x13).mul(a.x31)).sub(a.x01.mul(a.x10).mul(a.x33)).add(a.x00.mul(a.x11).mul(a.x33)).div(d),
            x23: a.x03.mul(a.x11).mul(a.x20).sub(a.x01.mul(a.x13).mul(a.x20)).sub(a.x03.mul(a.x10).mul(a.x21)).add(a.x00.mul(a.x13).mul(a.x21)).add(a.x01.mul(a.x10).mul(a.x23)).sub(a.x00.mul(a.x11).mul(a.x23)).div(d),
            x30: a.x12.mul(a.x21).mul(a.x30).sub(a.x11.mul(a.x22).mul(a.x30)).sub(a.x12.mul(a.x20).mul(a.x31)).add(a.x10.mul(a.x22).mul(a.x31)).add(a.x11.mul(a.x20).mul(a.x32)).sub(a.x10.mul(a.x21).mul(a.x32)).div(d),
            x31: a.x01.mul(a.x22).mul(a.x30).sub(a.x02.mul(a.x21).mul(a.x30)).add(a.x02.mul(a.x20).mul(a.x31)).sub(a.x00.mul(a.x22).mul(a.x31)).sub(a.x01.mul(a.x20).mul(a.x32)).add(a.x00.mul(a.x21).mul(a.x32)).div(d),
            x32: a.x02.mul(a.x11).mul(a.x30).sub(a.x01.mul(a.x12).mul(a.x30)).sub(a.x02.mul(a.x10).mul(a.x31)).add(a.x00.mul(a.x12).mul(a.x31)).add(a.x01.mul(a.x10).mul(a.x32)).sub(a.x00.mul(a.x11).mul(a.x32)).div(d),
            x33: a.x01.mul(a.x12).mul(a.x20).sub(a.x02.mul(a.x11).mul(a.x20)).add(a.x02.mul(a.x10).mul(a.x21)).sub(a.x00.mul(a.x12).mul(a.x21)).sub(a.x01.mul(a.x10).mul(a.x22)).add(a.x00.mul(a.x11).mul(a.x22)).div(d),
        }
    }
}

impl Default for Matrix {
    fn default() -> (r: Matrix)
        ensures
            r == (Matrix {
                x00: Scalar::spec_zero(),
                x01: Scalar::spec_zero(),
                x02: Scalar::spec_zero(),
                x03: Scalar::spec_zero(),
                x10: Scalar::spec_zero(),
                x11: Scalar::spec_zero(),
                x12: Scalar::spec_zero(),
                x13: Scalar::spec_zero(),
                x20: Scalar::spec_zero(),
                x21: Scalar::spec_zero(),
                x22: Scalar::spec_zero(),
                x23: Scalar::spec_zero(),
                x30: Scalar::spec_zero(),
                x31: Scalar::spec_zero(),
                x32: Scalar::spec_zero(),
                x33: Scalar::spec_zero(),
            }),
    {
        let z = Scalar::zero();
        Matrix {
            x00: z,
            x01: z,
            x02: z,
            x03: z,
            x10: z,
            x11: z,
            x12: z,
            x13: z,
            x20: z,
            x21: z,
            x22: z,
            x23: z,
            x30: z,
            x31: z,
            x32: z,
            x33: z,
        }
    }
}

} // verus!
