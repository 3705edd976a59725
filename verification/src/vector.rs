//! Vectors of three and of four components.

use crate::scalar::Scalar;
use vstd::prelude::*;

verus! {

/// A vector in three dimensions.
#[derive(Clone, Copy, Debug, PartialEq)]
pub struct Vector3<S> {
    pub x: S,
    pub y: S,
    pub z: S,
}

/// A vector in four dimensions.
#[derive(Clone, Copy, Debug, PartialEq)]
pub struct Vector4<S> {
    pub x: S,
    pub y: S,
    pub z: S,
    pub w: S,
}

impl<S: Scalar> Vector3<S> {
    pub open spec fn new_spec(x: S, y: S, z: S) -> Vector3<S> {
        Vector3 { x, y, z }
    }

    /// The vector with the components `x`, `y` and `z`.
    #[verifier::when_used_as_spec(new_spec)]
    pub fn new(x: S, y: S, z: S) -> (r: Vector3<S>)
        ensures
            r == Self::new_spec(x, y, z),
    {
        Vector3 { x, y, z }
    }

    pub open spec fn zero_spec() -> Vector3<S> {
        Vector3 { x: S::zero(), y: S::zero(), z: S::zero() }
    }

    /// The vector whose components are all zero.
    #[verifier::when_used_as_spec(zero_spec)]
    pub fn zero() -> (r: Vector3<S>)
        ensures
            r == Self::zero_spec(),
    {
        Vector3 { x: S::zero(), y: S::zero(), z: S::zero() }
    }

    pub open spec fn neg_spec(&self) -> Vector3<S> {
        Vector3 { x: self.x.neg(), y: self.y.neg(), z: self.z.neg() }
    }

    /// The vector of the same length that points the other way.
    #[verifier::when_used_as_spec(neg_spec)]
    pub fn neg(&self) -> (r: Vector3<S>)
        ensures
            r == self.neg_spec(),
    {
        Vector3 { x: self.x.neg(), y: self.y.neg(), z: self.z.neg() }
    }

    pub open spec fn add_v_spec(&self, other: &Vector3<S>) -> Vector3<S> {
        Vector3 { x: self.x.add(other.x), y: self.y.add(other.y), z: self.z.add(other.z) }
    }

    /// The sum of two vectors, component by component.
    #[verifier::when_used_as_spec(add_v_spec)]
    pub fn add_v(&self, other: &Vector3<S>) -> (r: Vector3<S>)
        ensures
            r == self.add_v_spec(other),
    {
        Vector3 { x: self.x.add(other.x), y: self.y.add(other.y), z: self.z.add(other.z) }
    }

    pub open spec fn mul_s_spec(&self, value: S) -> Vector3<S> {
        Vector3 { x: self.x.mul(value), y: self.y.mul(value), z: self.z.mul(value) }
    }

    /// The vector with every component multiplied by `value`.
    #[verifier::when_used_as_spec(mul_s_spec)]
    pub fn mul_s(&self, value: S) -> (r: Vector3<S>)
        ensures
            r == self.mul_s_spec(value),
    {
        Vector3 { x: self.x.mul(value), y: self.y.mul(value), z: self.z.mul(value) }
    }

    pub open spec fn div_s_spec(&self, value: S) -> Vector3<S> {
        Vector3 { x: self.x.div(value), y: self.y.div(value), z: self.z.div(value) }
    }

    /// The vector with every component divided by `value`.
    #[verifier::when_used_as_spec(div_s_spec)]
    pub fn div_s(&self, value: S) -> (r: Vector3<S>)
        ensures
            r == self.div_s_spec(value),
    {
        Vector3 { x: self.x.div(value), y: self.y.div(value), z: self.z.div(value) }
    }

    pub open spec fn dot_spec(&self, other: &Vector3<S>) -> S {
        self.x.mul(other.x).add(self.y.mul(other.y)).add(self.z.mul(other.z))
    }

    /// The dot product, `x*x' + y*y' + z*z'`, summed from the left.
    #[verifier::when_used_as_spec(dot_spec)]
    pub fn dot(&self, other: &Vector3<S>) -> (r: S)
        ensures
            r == self.dot_spec(other),
    {
        self.x.mul(other.x).add(self.y.mul(other.y)).add(self.z.mul(other.z))
    }

    pub open spec fn cross_spec(&self, other: &Vector3<S>) -> Vector3<S> {
        Vector3 {
            x: self.y.mul(other.z).sub(self.z.mul(other.y)),
            y: self.z.mul(other.x).sub(self.x.mul(other.z)),
            z: self.x.mul(other.y).sub(self.y.mul(other.x)),
        }
    }

    /// The cross product: the vector at right angles to both, by the
    /// right-hand rule.
    #[verifier::when_used_as_spec(cross_spec)]
    pub fn cross(&self, other: &Vector3<S>) -> (r: Vector3<S>)
        ensures
            r == self.cross_spec(other),
    {
        Vector3 {
            x: self.y.mul(other.z).sub(self.z.mul(other.y)),
            y: self.z.mul(other.x).sub(self.x.mul(other.z)),
            z: self.x.mul(other.y).sub(self.y.mul(other.x)),
        }
    }

    pub open spec fn length2_spec(&self) -> S {
        self.dot(self)
    }

    /// The square of the length: the dot product of the vector with itself.
    #[verifier::when_used_as_spec(length2_spec)]
    pub fn length2(&self) -> (r: S)
        ensures
            r == self.length2_spec(),
    {
        self.dot(self)
    }

    pub open spec fn length_spec(&self) -> S {
        self.length2().sqrt()
    }

    /// The length: the square root of `length2`.
    #[verifier::when_used_as_spec(length_spec)]
    pub fn length(&self) -> (r: S)
        ensures
            r == self.length_spec(),
    {
        self.length2().sqrt()
    }

    pub open spec fn normalize_spec(&self) -> Vector3<S> {
        self.mul_s(S::one().div(self.length()))
    }

    /// The vector scaled by the reciprocal of its length. Nothing guards against
    /// a length of zero: the components are then what the scalar type gives
    /// for a division by zero.
    #[verifier::when_used_as_spec(normalize_spec)]
    pub fn normalize(&self) -> (r: Vector3<S>)
        ensures
            r == self.normalize_spec(),
    {
        self.mul_s(S::one().div(self.length()))
    }
}

} // verus!
