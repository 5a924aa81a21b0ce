//! Points and directions in space.

use crate::scalar::Scalar;
use vstd::prelude::*;

verus! {

/// A point or a direction, by its three coordinates. Two vectors are equal
/// (`==`) where their coordinates are equal as numbers: a vector with a NaN
/// is equal to none, itself included.
#[derive(Clone, Copy, Debug, Hash)]
pub struct Vector {
    pub x: Scalar,
    pub y: Scalar,
    pub z: Scalar,
}

impl Vector {
    pub open spec fn spec_new(x: Scalar, y: Scalar, z: Scalar) -> Vector {
        Vector { x, y, z }
    }

    /// Whether one of the coordinates is not a number.
    pub open spec fn spec_has_nan(self) -> bool {
        self.x.spec_is_nan() || self.y.spec_is_nan() || self.z.spec_is_nan()
    }

    pub open spec fn spec_zero() -> Vector {
        Vector { x: Scalar::spec_zero(), y: Scalar::spec_zero(), z: Scalar::spec_zero() }
    }

    pub open spec fn spec_add(self, other: Vector) -> Vector {
        Vector {
            x: self.x.spec_add(other.x),
            y: self.y.spec_add(other.y),
            z: self.z.spec_add(other.z),
        }
    }

    pub open spec fn spec_sub(self, other: Vector) -> Vector {
        Vector {
            x: self.x.spec_sub(other.x),
            y: self.y.spec_sub(other.y),
            z: self.z.spec_sub(other.z),
        }
    }

    pub open spec fn spec_mul(self, other: Vector) -> Vector {
        Vector {
            x: self.x.spec_mul(other.x),
            y: self.y.spec_mul(other.y),
            z: self.z.spec_mul(other.z),
        }
    }

    pub open spec fn spec_div(self, other: Vector) -> Vector {
        Vector {
            x: self.x.spec_div(other.x),
            y: self.y.spec_div(other.y),
            z: self.z.spec_div(other.z),
        }
    }

    pub open spec fn spec_min(self, other: Vector) -> Vector {
        Vector {
            x: self.x.spec_min(other.x),
            y: self.y.spec_min(other.y),
            z: self.z.spec_min(other.z),
        }
    }

    pub open spec fn spec_max(self, other: Vector) -> Vector {
        Vector {
            x: self.x.spec_max(other.x),
            y: self.y.spec_max(other.y),
            z: self.z.spec_max(other.z),
        }
    }

    pub open spec fn spec_add_scalar(self, s: Scalar) -> Vector {
        Vector { x: self.x.spec_add(s), y: self.y.spec_add(s), z: self.z.spec_add(s) }
    }

    pub open spec fn spec_sub_scalar(self, s: Scalar) -> Vector {
        Vector { x: self.x.spec_sub(s), y: self.y.spec_sub(s), z: self.z.spec_sub(s) }
    }

    pub open spec fn spec_mul_scalar(self, s: Scalar) -> Vector {
        Vector { x: self.x.spec_mul(s), y: self.y.spec_mul(s), z: self.z.spec_mul(s) }
    }

    pub open spec fn spec_div_scalar(self, s: Scalar) -> Vector {
        Vector { x: self.x.spec_div(s), y: self.y.spec_div(s), z: self.z.spec_div(s) }
    }

    /// `x*x + y*y + z*z`, summed from the left.
    pub open spec fn spec_length_squared(self) -> Scalar {
        self.spec_dot(self)
    }

    /// The square root of `spec_length_squared`.
    pub open spec fn spec_length(self) -> Scalar {
        self.spec_length_squared().spec_sqrt()
    }

    pub open spec fn spec_distance(self, other: Vector) -> Scalar {
        self.spec_sub(other).spec_length()
    }

    pub open spec fn spec_distance_squared(self, other: Vector) -> Scalar {
        self.spec_sub(other).spec_length_squared()
    }

    /// `x*x' + y*y' + z*z'`, summed from the left.
    pub open spec fn spec_dot(self, other: Vector) -> Scalar {
        self.x.spec_mul(other.x).spec_add(self.y.spec_mul(other.y)).spec_add(
            self.z.spec_mul(other.z),
        )
    }

    pub open spec fn spec_cross(self, other: Vector) -> Vector {
        Vector {
            x: self.y.spec_mul(other.z).spec_sub(self.z.spec_mul(other.y)),
            y: self.z.spec_mul(other.x).spec_sub(self.x.spec_mul(other.z)),
            z: self.x.spec_mul(other.y).spec_sub(self.y.spec_mul(other.x)),
        }
    }

    /// Each component divided by the length. A vector of length zero gives
    /// components that are NaNs or infinities.
    pub open spec fn spec_normalize(self) -> Vector {
        self.spec_div_scalar(self.spec_length())
    }

    /// The unit vector of the axis along which the vector is shortest; on a
    /// tie the earlier axis.
    pub open spec fn spec_min_axis(self) -> Vector {
        let x = self.x.spec_abs();
        let y = self.y.spec_abs();
        let z = self.z.spec_abs();
        let zero = Scalar::spec_zero();
        let one = Scalar::spec_one();
        if x.spec_le(y) && x.spec_le(z) {
            Vector { x: one, y: zero, z: zero }
        } else if y.spec_le(x) && y.spec_le(z) {
            Vector { x: zero, y: one, z: zero }
        } else {
            Vector { x: zero, y: zero, z: one }
        }
    }

    pub open spec fn spec_min_component(self) -> Scalar {
        self.x.spec_min(self.y).spec_min(self.z)
    }

    /// The distance from the point to the segment from `v` to `w`: to the
    /// nearer end where the foot of the perpendicular falls outside the
    /// segment, or where the segment has no length.
    pub open spec fn spec_segment_distance(self, v: Vector, w: Vector) -> Scalar {
        let l2 = v.spec_distance_squared(w);
        let t = self.spec_sub(v).spec_dot(w.spec_sub(v)).spec_div(l2);
        if l2.spec_eq(Scalar::spec_zero()) {
            self.spec_distance(v)
        } else if t.spec_lt(Scalar::spec_zero()) {
            self.spec_distance(v)
        } else if t.spec_gt(Scalar::spec_one()) {
            self.spec_distance(w)
        } else {
            v.spec_add(w.spec_sub(v).spec_mul_scalar(t)).spec_distance(self)
        }
    }

    pub fn new(x: Scalar, y: Scalar, z: Scalar) -> (r: Vector)
        ensures
            r == Vector::spec_new(x, y, z),
    {
        Vector { x, y, z }
    }

    /// Whether one of the coordinates is not a number.
    pub fn has_nan(&self) -> (b: bool)
        ensures
            b == self.spec_has_nan(),
    {
        self.x.is_nan() || self.y.is_nan() || self.z.is_nan()
    }

    /// The origin.
    pub fn zero() -> (r: Vector)
        ensures
            r == Vector::spec_zero(),
    {
        Vector { x: Scalar::zero(), y: Scalar::zero(), z: Scalar::zero() }
    }

    pub fn length(&self) -> (r: Scalar)
        ensures
            r == self.spec_length(),
    {
        self.length_squared().sqrt()
    }

    pub fn distance(&self, other: Vector) -> (r: Scalar)
        ensures
            r == self.spec_distance(other),
    {
        self.sub(other).length()
    }

    pub fn length_squared(&self) -> (r: Scalar)
        ensures
            r == self.spec_length_squared(),
    {
        self.dot(*self)
    }

    pub fn distance_squared(&self, other: Vector) -> (r: Scalar)
        ensures
            r == self.spec_distance_squared(other),
    {
        self.sub(other).length_squared()
    }

    pub fn dot(&self, other: Vector) -> (r: Scalar)
        ensures
            r == self.spec_dot(other),
    {
        self.x.mul(other.x).add(self.y.mul(other.y)).add(self.z.mul(other.z))
    }

    pub fn cross(&self, other: Vector) -> (r: Vector)
        ensures
            r == self.spec_cross(other),
    {
        Vector {
            x: self.y.mul(other.z).sub(self.z.mul(other.y)),
            y: self.z.mul(other.x).sub(self.x.mul(other.z)),
            z: self.x.mul(other.y).sub(self.y.mul(other.x)),
        }
    }

    pub fn normalize(&self) -> (r: Vector)
        ensures
            r == self.spec_normalize(),
    {
        let d = self.length();
        self.div_scalar(d)
    }

    /// The componentwise sum.
    pub fn add(&self, other: Vector) -> (r: Vector)
        ensures
            r == self.spec_add(other),
    {
        Vector {
            x: self.x.add(other.x),
            y: self.y.add(other.y),
            z: self.z.add(other.z),
        }
    }

    /// The componentwise difference.
    pub fn sub(&self, other: Vector) -> (r: Vector)
        ensures
            r == self.spec_sub(other),
    {
        Vector {
            x: self.x.sub(other.x),
            y: self.y.sub(other.y),
            z: self.z.sub(other.z),
        }
    }

    /// The componentwise product.
    pub fn mul(&self, other: Vector) -> (r: Vector)
        ensures
            r == self.spec_mul(other),
    {
        Vector {
            x: self.x.mul(other.x),
            y: self.y.mul(other.y),
            z: self.z.mul(other.z),
        }
    }

    /// The componentwise quotient.
    pub fn div(&self, other: Vector) -> (r: Vector)
        ensures
            r == self.spec_div(other),
    {
        Vector {
            x: self.x.div(other.x),
            y: self.y.div(other.y),
            z: self.z.div(other.z),
        }
    }

    /// The componentwise minimum.
    pub fn min(&self, other: Vector) -> (r: Vector)
        ensures
            r == self.spec_min(other),
    {
        Vector {
            x: self.x.min(other.x),
            y: self.y.min(other.y),
            z: self.z.min(other.z),
        }
    }

    /// The componentwise maximum.
    pub fn max(&self, other: Vector) -> (r: Vector)
        ensures
            r == self.spec_max(other),
    {
        Vector {
            x: self.x.max(other.x),
            y: self.y.max(other.y),
            z: self.z.max(other.z),
        }
    }

    /// Each component plus `s`.
    pub fn add_scalar(&self, s: Scalar) -> (r: Vector)
        ensures
            r == self.spec_add_scalar(s),
    {
        Vector { x: self.x.add(s), y: self.y.add(s), z: self.z.add(s) }
    }

    /// Each component minus `s`.
    pub fn sub_scalar(&self, s: Scalar) -> (r: Vector)
        ensures
            r == self.spec_sub_scalar(s),
    {
        Vector { x: self.x.sub(s), y: self.y.sub(s), z: self.z.sub(s) }
    }

    /// Each component times `s`.
    pub fn mul_scalar(&self, s: Scalar) -> (r: Vector)
        ensures
            r == self.spec_mul_scalar(s),
    {
        Vector { x: self.x.mul(s), y: self.y.mul(s), z: self.z.mul(s) }
    }

    /// Each component divided by `s`.
    pub fn div_scalar(&self, s: Scalar) -> (r: Vector)
        ensures
            r == self.spec_div_scalar(s),
    {
        Vector { x: self.x.div(s), y: self.y.div(s), z: self.z.div(s) }
    }

    pub fn min_axis(&self) -> (r: Vector)
        ensures
            r == self.spec_min_axis(),
    {
        let x = self.x.abs();
        let y = self.y.abs();
        let z = self.z.abs();
        if x.le(y) && x.le(z) {
            Vector::new(Scalar::one(), Scalar::zero(), Scalar::zero())
        } else if y.le(x) && y.le(z) {
            Vector::new(Scalar::zero(), Scalar::one(), Scalar::zero())
        } else {
            Vector::new(Scalar::zero(), Scalar::zero(), Scalar::one())
        }
    }

    pub fn min_component(&self) -> (r: Scalar)
        ensures
            r == self.spec_min_component(),
    {
        self.x.min(self.y).min(self.z)
    }

    pub fn segment_distance(&self, v: Vector, w: Vector) -> (r: Scalar)
        ensures
            r == self.spec_segment_distance(v, w),
    {
        let l2 = v.distance_squared(w);
        if l2.eq(Scalar::zero()) {
            return self.distance(v);
        }
        let t = self.sub(v).dot(w.sub(v)).div(l2);
        if t.lt(Scalar::zero()) {
            return self.distance(v);
        }
        if t.gt(Scalar::one()) {
            return self.distance(w);
        }
        v.add(w.sub(v).mul_scalar(t)).distance(*self)
    }
}

impl std::ops::Add for Vector {
    type Output = Vector;

    fn add(self, other: Vector) -> (r: Vector) {
        Vector::add(&self, other)
    }
}

impl vstd::std_specs::ops::AddSpecImpl for Vector {
    open spec fn obeys_add_spec() -> bool {
        true
    }

    open spec fn add_req(self, other: Vector) -> bool {
        true
    }

    open spec fn add_spec(self, other: Vector) -> Vector {
        self.spec_add(other)
    }
}

impl std::ops::Sub for Vector {
    type Output = Vector;

    fn sub(self, other: Vector) -> (r: Vector) {
        Vector::sub(&self, other)
    }
}

impl vstd::std_specs::ops::SubSpecImpl for Vector {
    open spec fn obeys_sub_spec() -> bool {
        true
    }

    open spec fn sub_req(self, other: Vector) -> bool {
        true
    }

    open spec fn sub_spec(self, other: Vector) -> Vector {
        self.spec_sub(other)
    }
}

impl std::ops::Mul for Vector {
    type Output = Vector;

    fn mul(self, other: Vector) -> (r: Vector) {
        Vector::mul(&self, other)
    }
}

impl vstd::std_specs::ops::MulSpecImpl for Vector {
    open spec fn obeys_mul_spec() -> bool {
        true
    }

    open spec fn mul_req(self, other: Vector) -> bool {
        true
    }

    open spec fn mul_spec(self, other: Vector) -> Vector {
        self.spec_mul(other)
    }
}

impl std::ops::Div for Vector {
    type Output = Vector;

    fn div(self, other: Vector) -> (r: Vector) {
        Vector::div(&self, other)
    }
}

impl vstd::std_specs::ops::DivSpecImpl for Vector {
    open spec fn obeys_div_spec() -> bool {
        true
    }

    open spec fn div_req(self, other: Vector) -> bool {
        true
    }

    open spec fn div_spec(self, other: Vector) -> Vector {
        self.spec_div(other)
    }
}

impl std::ops::Mul<Scalar> for Vector {
    type Output = Vector;

    fn mul(self, other: Scalar) -> (r: Vector) {
        Vector::mul_scalar(&self, other)
    }
}

impl vstd::std_specs::ops::MulSpecImpl<Scalar> for Vector {
    open spec fn obeys_mul_spec() -> bool {
        true
    }

    open spec fn mul_req(self, other: Scalar) -> bool {
        true
    }

    open spec fn mul_spec(self, other: Scalar) -> Vector {
        self.spec_mul_scalar(other)
    }
}

impl std::ops::Div<Scalar> for Vector {
    type Output = Vector;

    fn div(self, other: Scalar) -> (r: Vector) {
        Vector::div_scalar(&self, other)
    }
}

impl vstd::std_specs::ops::DivSpecImpl<Scalar> for Vector {
    open spec fn obeys_div_spec() -> bool {
        true
    }

    open spec fn div_req(self, other: Scalar) -> bool {
        true
    }

    open spec fn div_spec(self, other: Scalar) -> Vector {
        self.spec_div_scalar(other)
    }
}

impl PartialEq for Vector {
    fn eq(&self, other: &Vector) -> (r: bool) {
        self.x.eq(other.x) && self.y.eq(other.y) && self.z.eq(other.z)
    }
}

impl vstd::std_specs::cmp::PartialEqSpecImpl for Vector {
    open spec fn obeys_eq_spec() -> bool {
        true
    }

    open spec fn eq_spec(&self, other: &Vector) -> bool {
        self.x.spec_eq(other.x) && self.y.spec_eq(other.y) && self.z.spec_eq(other.z)
    }
}

impl Eq for Vector {

}

impl Default for Vector {
    fn default() -> (r: Vector)
        ensures
            r == Vector::spec_zero(),
    {
        Vector::zero()
    }
}

} // verus!
