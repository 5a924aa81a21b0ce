//! Half-line queries.

use crate::scalar::Scalar;
use crate::vector::Vector;
use vstd::prelude::*;

verus! {

/// A half-line from `origin` along `direction`. The direction need not have
/// unit length.
#[derive(Clone, Copy, Debug)]
pub struct Ray {
    pub origin: Vector,
    pub direction: Vector,
}

impl Ray {
    /// The point `origin + t * direction`.
    pub open spec fn spec_position(self, t: Scalar) -> Vector {
        self.origin.spec_add(self.direction.spec_mul_scalar(t))
    }

    pub fn new(origin: Vector, direction: Vector) -> (r: Ray)
        ensures
            r.origin == origin,
            r.direction == direction,
    {
        Ray { origin, direction }
    }

    pub fn position(&self, t: Scalar) -> (p: Vector)
        ensures
            p == self.spec_position(t),
    {
        self.origin.add(self.direction.mul_scalar(t))
    }
}

} // verus!
