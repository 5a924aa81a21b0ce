//! Results of ray queries.

use crate::scalar::Scalar;
use vstd::prelude::*;

verus! {

/// The outcome of a ray query: the distance `t` along the ray, and whether
/// anything was hit. Where nothing was hit, `t` is positive infinity.
#[derive(Clone, Copy, Debug)]
pub struct Hit {
    pub t: Scalar,
    pub ok: bool,
}

impl Hit {
    /// The hit that stands for "nothing was hit".
    pub open spec fn spec_no_hit() -> Hit {
        Hit { t: Scalar::spec_infinity(), ok: false }
    }

    /// Whether the distance is below infinity.
    pub open spec fn spec_is_ok(self) -> bool {
        self.t.spec_lt(Scalar::spec_infinity())
    }

    /// The nearer of two hits; on a tie `self`. "Nothing was hit" is
    /// infinitely far.
    pub open spec fn spec_min(self, other: Hit) -> Hit {
        if self.t.spec_le(other.t) {
            self
        } else {
            other
        }
    }

    /// The farther of two hits; on a tie `other`.
    pub open spec fn spec_max(self, other: Hit) -> Hit {
        if self.t.spec_gt(other.t) {
            self
        } else {
            other
        }
    }

    pub fn new(t: Scalar) -> (h: Hit)
        ensures
            h == (Hit { t, ok: true }),
    {
        Hit { t, ok: true }
    }

    pub fn no_hit() -> (h: Hit)
        ensures
            h == Hit::spec_no_hit(),
    {
        Hit { t: Scalar::infinity(), ok: false }
    }

    pub fn is_ok(&self) -> (b: bool)
        ensures
            b == self.spec_is_ok(),
    {
        self.t.lt(Scalar::infinity())
    }

    pub fn min(&self, other: Hit) -> (h: Hit)
        ensures
            h == self.spec_min(other),
    {
        if self.t.le(other.t) {
            *self
        } else {
            other
        }
    }

    pub fn max(&self, other: Hit) -> (h: Hit)
        ensures
            h == self.spec_max(other),
    {
        if self.t.gt(other.t) {
            *self
        } else {
            other
        }
    }
}

impl Default for Hit {
    fn default() -> (h: Hit)
        ensures
            h == Hit::spec_no_hit(),
    {
        Hit::no_hit()
    }
}

/// "Nothing was hit" is never nearer than a hit whose distance is a number:
/// `min` with it on either side gives the other hit back, up to a tie at
/// infinity.
pub proof fn lemma_no_hit_is_farthest(h: Hit)
    requires
        !h.t.spec_is_nan(),
    ensures
        h.spec_min(Hit::spec_no_hit()) == h,
        Hit::spec_no_hit().spec_min(h).t.spec_eq(h.t),
        h.spec_max(Hit::spec_no_hit()).t.spec_eq(Scalar::spec_infinity()),
{
}

} // verus!
