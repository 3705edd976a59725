//! What every way of writing a rotation offers.

use crate::angle::Rad;
use crate::matrix::{Matrix3, ToMatrix3};
use crate::quaternion::Quaternion;
use crate::scalar::Scalar;
use crate::vector::Vector3;
use vstd::prelude::*;

verus! {

/// A rotation in three dimensions, however it is written.
///
/// Every method returns what the specification function of the same name
/// gives; the two methods that change `self` leave in it what `concat` and
/// `invert` return.
pub trait Rotation<S: Scalar>: Sized {
    spec fn identity_spec() -> Self;

    spec fn look_at_spec(dir: &Vector3<S>, up: &Vector3<S>) -> Self;

    spec fn between_vectors_spec(a: &Vector3<S>, b: &Vector3<S>) -> Self;

    spec fn rotate_vector_spec(&self, vec: &Vector3<S>) -> Vector3<S>;

    spec fn concat_spec(&self, other: &Self) -> Self;

    spec fn invert_spec(&self) -> Self;

    /// The rotation that turns nothing.
    #[verifier::when_used_as_spec(identity_spec)]
    fn identity() -> (r: Self)
        ensures
            r == Self::identity_spec(),
    ;

    /// The rotation that looks along `dir` with `up` overhead.
    #[verifier::when_used_as_spec(look_at_spec)]
    fn look_at(dir: &Vector3<S>, up: &Vector3<S>) -> (r: Self)
        ensures
            r == Self::look_at_spec(dir, up),
    ;

    /// The shortest rotation that turns the unit vector `a` onto the unit
    /// vector `b`.
    #[verifier::when_used_as_spec(between_vectors_spec)]
    fn between_vectors(a: &Vector3<S>, b: &Vector3<S>) -> (r: Self)
        ensures
            r == Self::between_vectors_spec(a, b),
    ;

    /// The vector `vec`, turned.
    #[verifier::when_used_as_spec(rotate_vector_spec)]
    fn rotate_vector(&self, vec: &Vector3<S>) -> (r: Vector3<S>)
        ensures
            r == self.rotate_vector_spec(vec),
    ;

    /// The rotation that does what `other` does and then what `self` does.
    #[verifier::when_used_as_spec(concat_spec)]
    fn concat(&self, other: &Self) -> (r: Self)
        ensures
            r == self.concat_spec(other),
    ;

    /// Replaces `self` by `self.concat(other)`.
    fn concat_self(&mut self, other: &Self)
        ensures
            *final(self) == old(self).concat_spec(other),
    ;

    /// The rotation that undoes this one.
    #[verifier::when_used_as_spec(invert_spec)]
    fn invert(&self) -> (r: Self)
        ensures
            r == self.invert_spec(),
    ;

    /// Replaces `self` by `self.invert()`.
    fn invert_self(&mut self)
        ensures
            *final(self) == old(self).invert_spec(),
    ;
}

/// A rotation that can be made from an axis and an angle, or from three Euler
/// angles.
pub trait Rotation3<S: Scalar>: Rotation<S> {
    spec fn from_axis_angle_spec(axis: &Vector3<S>, angle: Rad<S>) -> Self;

    spec fn from_euler_spec(x: Rad<S>, y: Rad<S>, z: Rad<S>) -> Self;

    /// The rotation by `angle` about the unit vector `axis`.
    #[verifier::when_used_as_spec(from_axis_angle_spec)]
    fn from_axis_angle(axis: &Vector3<S>, angle: Rad<S>) -> (r: Self)
        ensures
            r == Self::from_axis_angle_spec(axis, angle),
    ;

    /// The rotation with the Euler angles `x`, `y` and `z`.
    #[verifier::when_used_as_spec(from_euler_spec)]
    fn from_euler(x: Rad<S>, y: Rad<S>, z: Rad<S>) -> (r: Self)
        ensures
            r == Self::from_euler_spec(x, y, z),
    ;
}

/// A rotation written as a matrix whose columns are the images of the three
/// axes.
#[derive(Clone, Copy, Debug, PartialEq)]
pub struct Basis3<S> {
    pub mat: Matrix3<S>,
}

/// What can be written as a [`Basis3`].
pub trait ToBasis3<S: Scalar> {
    spec fn to_rot3_spec(&self) -> Basis3<S>;

    #[verifier::when_used_as_spec(to_rot3_spec)]
    fn to_rot3(&self) -> (r: Basis3<S>)
        ensures
            r == self.to_rot3_spec(),
    ;
}

impl<S: Scalar> Basis3<S> {
    pub open spec fn from_quaternion_spec(quaternion: &Quaternion<S>) -> Basis3<S> {
        Basis3 { mat: quaternion.to_matrix3() }
    }

    /// The basis for the rotation that the unit quaternion stands for: its
    /// matrix is the quaternion's.
    #[verifier::when_used_as_spec(from_quaternion_spec)]
    pub fn from_quaternion(quaternion: &Quaternion<S>) -> (r: Basis3<S>)
        ensures
            r == Self::from_quaternion_spec(quaternion),
    {
        Basis3 { mat: quaternion.to_matrix3() }
    }

    pub open spec fn as_matrix3_spec(&self) -> &Matrix3<S> {
        &self.mat
    }

    /// The matrix of the basis.
    #[verifier::when_used_as_spec(as_matrix3_spec)]
    pub fn as_matrix3(&self) -> (r: &Matrix3<S>)
        ensures
            r == self.as_matrix3_spec(),
    {
        &self.mat
    }
}

} // verus!
