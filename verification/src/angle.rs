//! Angles, kept apart from plain scalars by their type.

use crate::scalar::Scalar;
use vstd::prelude::*;

verus! {

/// An angle in radians.
#[derive(Clone, Copy, Debug, PartialEq)]
pub struct Rad<S> {
    pub s: S,
}

pub open spec fn rad_spec<S: Scalar>(s: S) -> Rad<S> {
    Rad { s }
}

/// The angle of `s` radians.
#[verifier::when_used_as_spec(rad_spec)]
pub fn rad<S: Scalar>(s: S) -> (r: Rad<S>)
    ensures
        r == rad_spec(s),
{
    Rad { s }
}

impl<S: Scalar> Rad<S> {
    pub open spec fn mul_s_spec(&self, value: S) -> Rad<S> {
        Rad { s: self.s.mul(value) }
    }

    /// The angle `value` times as wide.
    #[verifier::when_used_as_spec(mul_s_spec)]
    pub fn mul_s(&self, value: S) -> (r: Rad<S>)
        ensures
            r == self.mul_s_spec(value),
    {
        Rad { s: self.s.mul(value) }
    }
}

pub open spec fn sin_spec<S: Scalar>(theta: Rad<S>) -> S {
    theta.s.sin()
}

/// The sine of an angle.
#[verifier::when_used_as_spec(sin_spec)]
pub fn sin<S: Scalar>(theta: Rad<S>) -> (r: S)
    ensures
        r == sin_spec(theta),
{
    theta.s.sin()
}

pub open spec fn cos_spec<S: Scalar>(theta: Rad<S>) -> S {
    theta.s.cos()
}

/// The cosine of an angle.
#[verifier::when_used_as_spec(cos_spec)]
pub fn cos<S: Scalar>(theta: Rad<S>) -> (r: S)
    ensures
        r == cos_spec(theta),
{
    theta.s.cos()
}

pub open spec fn sin_cos_spec<S: Scalar>(theta: Rad<S>) -> (S, S) {
    (theta.s.sin(), theta.s.cos())
}

/// The sine and the cosine of an angle, in this order.
#[verifier::when_used_as_spec(sin_cos_spec)]
pub fn sin_cos<S: Scalar>(theta: Rad<S>) -> (r: (S, S))
    ensures
        r == sin_cos_spec(theta),
{
    (theta.s.sin(), theta.s.cos())
}

pub open spec fn acos_spec<S: Scalar>(s: S) -> Rad<S> {
    Rad { s: s.acos() }
}

/// The angle whose cosine is `s`.
#[verifier::when_used_as_spec(acos_spec)]
pub fn acos<S: Scalar>(s: S) -> (r: Rad<S>)
    ensures
        r == acos_spec(s),
{
    Rad { s: s.acos() }
}

} // verus!
