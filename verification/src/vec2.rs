//! Two-dimensional vectors with fixed-point components.

use vstd::prelude::*;

verus! {

/// A point of the plane, or a displacement in it.
#[derive(Clone, Copy, Debug, PartialEq, Eq, Structural)]
pub struct Vec2 {
    pub x: i64,
    pub y: i64,
}

impl Vec2 {
    /// The vector with the given components.
    pub fn new(x: i64, y: i64) -> (v: Self)
        ensures
            v == (Vec2 { x, y }),
    {
        Vec2 { x, y }
    }

    /// The null vector.
    pub open spec fn spec_zero() -> Self {
        Vec2 { x: 0, y: 0 }
    }

    /// The null vector.
    #[verifier::when_used_as_spec(spec_zero)]
    pub fn zero() -> (v: Self)
        ensures
            v == Self::zero(),
    {
        Vec2 { x: 0, y: 0 }
    }
}

} // verus!
