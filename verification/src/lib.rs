//! A verified model of a 3x3x3 twisty-puzzle cube.
//!
//! The library covers the puzzle state itself (27 cubies, each carrying six
//! facelet colors), the quarter-turn permutation of a layer, and the state
//! machine that drives a smooth, interruption-safe turn animation from
//! per-frame time deltas. Rendering and input polling are left to the host
//! program, which reads plain coordinates, colors and angles from the facade.

pub mod color;
pub mod cube;
pub mod cubie;
pub mod engine;
pub mod grid;
pub mod laws;

use vstd::prelude::*;

verus! {

/// The three rotation axes of the cube.
#[derive(Clone, Copy, PartialEq, Eq, Structural, Debug)]
pub enum Axis {
    X,
    Y,
    Z,
}

/// The sense of a quarter turn about an axis: `Pos` turns by +90 degrees,
/// `Neg` by -90 degrees.
#[derive(Clone, Copy, PartialEq, Eq, Structural, Debug)]
pub enum Spin {
    Pos,
    Neg,
}

impl Spin {
    /// The opposite turn sense.
    pub open spec fn flip_spec(self) -> Spin {
        match self {
            Spin::Pos => Spin::Neg,
            Spin::Neg => Spin::Pos,
        }
    }

    /// The opposite turn sense.
    pub fn flip(self) -> (r: Spin)
        ensures
            r == self.flip_spec(),
    {
        match self {
            Spin::Pos => Spin::Neg,
            Spin::Neg => Spin::Pos,
        }
    }
}

/// Everything a cube operation can report as a failure.
#[derive(Clone, Copy, PartialEq, Eq, Structural, Debug)]
pub enum CubeError {
    /// The requested layer does not exist: the slice index is outside 0..3.
    InvalidLayer,
    /// A turn was requested while another turn is still animating.
    RotationBusy,
    /// The frame time handed to `tick` is negative.
    InvalidTimeDelta,
}

} // verus!
