//! Points: fixed positions, with no length and no direction, as against
//! vectors, which have both and no position.

use crate::scalar::Scalar;
use vstd::prelude::*;

verus! {

/// A position in the plane.
#[derive(Clone, Copy, Debug, PartialEq)]
pub struct Point2<S> {
    pub x: S,
    pub y: S,
}

/// A position in space.
#[derive(Clone, Copy, Debug, PartialEq)]
pub struct Point3<S> {
    pub x: S,
    pub y: S,
    pub z: S,
}

impl<S: Scalar> Point2<S> {
    pub open spec fn new_spec(x: S, y: S) -> Point2<S> {
        Point2 { x, y }
    }

    /// The point with the coordinates `x` and `y`.
    #[verifier::when_used_as_spec(new_spec)]
    pub fn new(x: S, y: S) -> (r: Point2<S>)
        ensures
            r == Self::new_spec(x, y),
    {
        Point2 { x, y }
    }
}

impl<S: Scalar> Point3<S> {
    pub open spec fn new_spec(x: S, y: S, z: S) -> Point3<S> {
        Point3 { x, y, z }
    }

    /// The point with the coordinates `x`, `y` and `z`.
    #[verifier::when_used_as_spec(new_spec)]
    pub fn new(x: S, y: S, z: S) -> (r: Point3<S>)
        ensures
            r == Self::new_spec(x, y, z),
    {
        Point3 { x, y, z }
    }
}

} // verus!
