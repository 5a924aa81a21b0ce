//! Point filters for path collections.

use crate::bounding_box::Box;
use crate::matrix::Matrix;
use crate::scalar::{Scalar, MINUS_ONE_BITS, ONE_BITS};
use crate::scene::Scene;
use crate::shape::Shape;
use crate::vector::Vector;
use vstd::prelude::*;

verus! {

/// A rule that keeps or drops a point, and may move the point it keeps.
pub trait Filter {
    /// What the filter answers for a point: `None` drops it. A filter
    /// that does not say what it answers answers as it pleases, but the
    /// same to the same point.
    open spec fn spec_filter(&self, v: Vector) -> Option<Vector> {
        arbitrary()
    }

    fn filter(&self, v: Vector) -> (r: Option<Vector>)
        ensures
            r == self.spec_filter(v),
    ;
}

/// The canonical clip cube: from -1 to 1 along each axis.
pub open spec fn spec_clip_box() -> Box {
    Box {
        min: Vector {
            x: Scalar { bits: MINUS_ONE_BITS },
            y: Scalar { bits: MINUS_ONE_BITS },
            z: Scalar { bits: MINUS_ONE_BITS },
        },
        max: Vector {
            x: Scalar { bits: ONE_BITS },
            y: Scalar { bits: ONE_BITS },
            z: Scalar { bits: ONE_BITS },
        },
    }
}

/// The canonical clip cube: from -1 to 1 along each axis.
pub fn clip_box() -> (b: Box)
    ensures
        b == spec_clip_box(),
{
    let lo = Scalar::from_bits(MINUS_ONE_BITS);
    let hi = Scalar::from_bits(ONE_BITS);
    Box::new(Vector::new(lo, lo, lo), Vector::new(hi, hi, hi))
}

/// The filter of the renderer: it keeps a point that is visible from `eye`
/// in `scene` and whose image under `matrix` lies in the clip cube, and
/// hands on that image.
pub struct ClipFilter<'a, S> {
    pub matrix: Matrix,
    pub eye: Vector,
    pub scene: &'a Scene<S>,
}

impl<'a, S: Shape> Filter for ClipFilter<'a, S> {
    open spec fn spec_filter(&self, v: Vector) -> Option<Vector> {
        let w = self.matrix.spec_mul_position_w(v);
        if !self.scene.spec_visible(self.eye, v) {
            None
        } else if !spec_clip_box().spec_contains(w) {
            None
        } else {
            Some(w)
        }
    }

    fn filter(&self, v: Vector) -> (r: Option<Vector>) {
        let w = self.matrix.mul_position_w(v);
        if !self.scene.visible(self.eye, v) {
            return None;
        }
        if !clip_box().contains(w) {
            return None;
        }
        Some(w)
    }
}

} // verus!
