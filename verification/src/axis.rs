//! Coordinate axes.

use vstd::prelude::*;

verus! {

/// A coordinate axis, or `NoAxis`: a tree node without a split plane has
/// `Axis::NoAxis`.
#[derive(Clone, Copy, Debug, PartialEq, Eq, Structural)]
pub enum Axis {
    NoAxis,
    X,
    Y,
    Z,
}

} // verus!
