//! Surfaces that are the graph of a function of x and y.

use vstd::prelude::*;

verus! {

/// The side of the surface on which the solid lies.
#[derive(Clone, Copy, Debug, PartialEq, Eq, Structural)]
pub enum Direction {
    Above,
    Below,
}

/// The curves drawn on the surface.
#[derive(Clone, Copy, Debug, PartialEq, Eq, Structural)]
pub enum FunctionTexture {
    /// Lines of constant x and lines of constant y.
    Grid,
    /// Rays from the origin, bent by the height of the surface.
    Swirl,
    /// One spiral towards the origin.
    Spiral,
}

impl Default for FunctionTexture {
    fn default() -> (t: FunctionTexture)
        ensures
            t == FunctionTexture::Grid,
    {
        FunctionTexture::Grid
    }
}

} // verus!
