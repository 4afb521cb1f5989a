//! Axis-aligned motion: which coordinate an axis stands for.
use vstd::prelude::*;

verus! {

/// One of the two axes of the plane.
#[derive(Clone, Copy, Debug, PartialEq, Eq, Structural)]
pub enum Axis {
    X,
    Y,
}

impl Axis {
    /// The index of the axis's coordinate in a vector: 0 for x, 1 for y.
    pub fn index(self) -> (i: usize)
        ensures
            i == (match self {
                Axis::X => 0usize,
                Axis::Y => 1usize,
            }),
    {
        match self {
            Axis::X => 0,
            Axis::Y => 1,
        }
    }
}

} // verus!
