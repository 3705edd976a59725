//! Square matrices of three and four columns.

use crate::quaternion::{half, Quaternion, ToQuaternion};
use crate::scalar::Scalar;
use crate::vector::{Vector3, Vector4};
use vstd::prelude::*;

verus! {

/// A matrix of three columns, each a vector of three components.
#[derive(Clone, Copy, Debug, PartialEq)]
pub struct Matrix3<S> {
    pub x: Vector3<S>,
    pub y: Vector3<S>,
    pub z: Vector3<S>,
}

/// A matrix of four columns, each a vector of four components.
#[derive(Clone, Copy, Debug, PartialEq)]
pub struct Matrix4<S> {
    pub x: Vector4<S>,
    pub y: Vector4<S>,
    pub z: Vector4<S>,
    pub w: Vector4<S>,
}

/// What can be written as a matrix of three columns.
pub trait ToMatrix3<S: Scalar> {
    spec fn to_matrix3_spec(&self) -> Matrix3<S>;

    #[verifier::when_used_as_spec(to_matrix3_spec)]
    fn to_matrix3(&self) -> (r: Matrix3<S>)
        ensures
            r == self.to_matrix3_spec(),
    ;
}

/// What can be written as a matrix of four columns.
pub trait ToMatrix4<S: Scalar> {
    spec fn to_matrix4_spec(&self) -> Matrix4<S>;

    #[verifier::when_used_as_spec(to_matrix4_spec)]
    fn to_matrix4(&self) -> (r: Matrix4<S>)
        ensures
            r == self.to_matrix4_spec(),
    ;
}

impl<S: Scalar> Matrix3<S> {
    pub open spec fn new_spec(
        c0r0: S,
        c0r1: S,
        c0r2: S,
        c1r0: S,
        c1r1: S,
        c1r2: S,
        c2r0: S,
        c2r1: S,
        c2r2: S,
    ) -> Matrix3<S> {
        Matrix3 {
            x: Vector3 { x: c0r0, y: c0r1, z: c0r2 },
            y: Vector3 { x: c1r0, y: c1r1, z: c1r2 },
            z: Vector3 { x: c2r0, y: c2r1, z: c2r2 },
        }
    }

    /// The matrix with the given entries, column after column: the first three
    /// arguments are the first column, from its top down.
    #[verifier::when_used_as_spec(new_spec)]
    pub fn new(
        c0r0: S,
        c0r1: S,
        c0r2: S,
        c1r0: S,
        c1r1: S,
        c1r2: S,
        c2r0: S,
        c2r1: S,
        c2r2: S,
    ) -> (r: Matrix3<S>)
        ensures
            r == Self::new_spec(c0r0, c0r1, c0r2, c1r0, c1r1, c1r2, c2r0, c2r1, c2r2),
    {
        Matrix3 {
            x: Vector3 { x: c0r0, y: c0r1, z: c0r2 },
            y: Vector3 { x: c1r0, y: c1r1, z: c1r2 },
            z: Vector3 { x: c2r0, y: c2r1, z: c2r2 },
        }
    }

    pub open spec fn from_cols_spec(c0: Vector3<S>, c1: Vector3<S>, c2: Vector3<S>) -> Matrix3<S> {
        Matrix3 { x: c0, y: c1, z: c2 }
    }

    /// The matrix with the three given columns.
    #[verifier::when_used_as_spec(from_cols_spec)]
    pub fn from_cols(c0: Vector3<S>, c1: Vector3<S>, c2: Vector3<S>) -> (r: Matrix3<S>)
        ensures
            r == Self::from_cols_spec(c0, c1, c2),
    {
        Matrix3 { x: c0, y: c1, z: c2 }
    }

    pub open spec fn trace_spec(&self) -> S {
        self.x.x.add(self.y.y).add(self.z.z)
    }

    /// The sum of the entries on the diagonal.
    #[verifier::when_used_as_spec(trace_spec)]
    pub fn trace(&self) -> (r: S)
        ensures
            r == self.trace_spec(),
    {
        self.x.x.add(self.y.y).add(self.z.z)
    }

    pub open spec fn mul_v_spec(&self, vec: &Vector3<S>) -> Vector3<S> {
        Vector3 {
            x: Vector3 { x: self.x.x, y: self.y.x, z: self.z.x }.dot(vec),
            y: Vector3 { x: self.x.y, y: self.y.y, z: self.z.y }.dot(vec),
            z: Vector3 { x: self.x.z, y: self.y.z, z: self.z.z }.dot(vec),
        }
    }

    /// The matrix applied to a column vector: each component of the result is
    /// the dot product of one row with `vec`.
    #[verifier::when_used_as_spec(mul_v_spec)]
    pub fn mul_v(&self, vec: &Vector3<S>) -> (r: Vector3<S>)
        ensures
            r == self.mul_v_spec(vec),
    {
        let r0 = Vector3 { x: self.x.x, y: self.y.x, z: self.z.x };
        let r1 = Vector3 { x: self.x.y, y: self.y.y, z: self.z.y };
        let r2 = Vector3 { x: self.x.z, y: self.y.z, z: self.z.z };
        Vector3 { x: r0.dot(vec), y: r1.dot(vec), z: r2.dot(vec) }
    }

    pub open spec fn look_at_spec(dir: &Vector3<S>, up: &Vector3<S>) -> Matrix3<S> {
        let dir = dir.normalize();
        let side = dir.cross(&up.normalize());
        let up = side.cross(&dir).normalize();
        Matrix3 { x: up, y: side, z: dir }
    }

    /// The basis that looks along `dir` with `up` overhead. Its third column
    /// is `dir` normalized; its second is the cross product of that column
    /// with `up` normalized; its first is the cross product of the second with
    /// the third, normalized.
    #[verifier::when_used_as_spec(look_at_spec)]
    pub fn look_at(dir: &Vector3<S>, up: &Vector3<S>) -> (r: Matrix3<S>)
        ensures
            r == Self::look_at_spec(dir, up),
    {
        let dir = dir.normalize();
        let side = dir.cross(&up.normalize());
        let up = side.cross(&dir).normalize();
        Matrix3 { x: up, y: side, z: dir }
    }
}

impl<S: Scalar> Matrix4<S> {
    pub open spec fn new_spec(
        c0r0: S,
        c0r1: S,
        c0r2: S,
        c0r3: S,
        c1r0: S,
        c1r1: S,
        c1r2: S,
        c1r3: S,
        c2r0: S,
        c2r1: S,
        c2r2: S,
        c2r3: S,
        c3r0: S,
        c3r1: S,
        c3r2: S,
        c3r3: S,
    ) -> Matrix4<S> {
        Matrix4 {
            x: Vector4 { x: c0r0, y: c0r1, z: c0r2, w: c0r3 },
            y: Vector4 { x: c1r0, y: c1r1, z: c1r2, w: c1r3 },
            z: Vector4 { x: c2r0, y: c2r1, z: c2r2, w: c2r3 },
            w: Vector4 { x: c3r0, y: c3r1, z: c3r2, w: c3r3 },
        }
    }

    /// The matrix with the given entries, column after column: the first four
    /// arguments are the first column, from its top down.
    #[verifier::when_used_as_spec(new_spec)]
    pub fn new(
        c0r0: S,
        c0r1: S,
        c0r2: S,
        c0r3: S,
        c1r0: S,
        c1r1: S,
        c1r2: S,
        c1r3: S,
        c2r0: S,
        c2r1: S,
        c2r2: S,
        c2r3: S,
        c3r0: S,
        c3r1: S,
        c3r2: S,
        c3r3: S,
    ) -> (r: Matrix4<S>)
        ensures
            r == Self::new_spec(
                c0r0,
                c0r1,
                c0r2,
                c0r3,
                c1r0,
                c1r1,
                c1r2,
                c1r3,
                c2r0,
                c2r1,
                c2r2,
                c2r3,
                c3r0,
                c3r1,
                c3r2,
                c3r3,
            ),
    {
        Matrix4 {
            x: Vector4 { x: c0r0, y: c0r1, z: c0r2, w: c0r3 },
            y: Vector4 { x: c1r0, y: c1r1, z: c1r2, w: c1r3 },
            z: Vector4 { x: c2r0, y: c2r1, z: c2r2, w: c2r3 },
            w: Vector4 { x: c3r0, y: c3r1, z: c3r2, w: c3r3 },
        }
    }
}

impl<S: Scalar> ToQuaternion<S> for Matrix3<S> {
    open spec fn to_quaternion_spec(&self) -> Quaternion<S> {
        let trace = self.trace();
        let half = half::<S>();
        if S::zero().le(trace) {
            let root = S::one().add(trace).sqrt();
            let scale = half.div(root);
            Quaternion::new(
                half.mul(root),
                self.y.z.sub(self.z.y).mul(scale),
                self.z.x.sub(self.x.z).mul(scale),
                self.x.y.sub(self.y.x).mul(scale),
            )
        } else if self.y.y.lt(self.x.x) && self.z.z.lt(self.x.x) {
            let root = self.x.x.sub(self.y.y).sub(self.z.z).add(S::one()).sqrt();
            let scale = half.div(root);
            Quaternion::new(
                self.y.z.sub(self.z.y).mul(scale),
                half.mul(root),
                self.y.x.add(self.x.y).mul(scale),
                self.x.z.add(self.z.x).mul(scale),
            )
        } else if self.z.z.lt(self.y.y) {
            let root = self.y.y.sub(self.x.x).sub(self.z.z).add(S::one()).sqrt();
            let scale = half.div(root);
            Quaternion::new(
                self.z.x.sub(self.x.z).mul(scale),
                self.y.x.add(self.x.y).mul(scale),
                half.mul(root),
                self.z.y.add(self.y.z).mul(scale),
            )
        } else {
            let root = self.z.z.sub(self.x.x).sub(self.y.y).add(S::one()).sqrt();
            let scale = half.div(root);
            Quaternion::new(
                self.x.y.sub(self.y.x).mul(scale),
                self.x.z.add(self.z.x).mul(scale),
                self.z.y.add(self.y.z).mul(scale),
                half.mul(root),
            )
        }
    }

    /// The quaternion of a rotation matrix.
    ///
    /// Which of the four components is found by a square root depends on the
    /// diagonal, so that the root is never taken of a number near zero: the
    /// scalar part where the trace is zero or more, else the component that
    /// belongs to the largest diagonal entry. The other three are differences
    /// or sums of two entries across the diagonal, times one half over that
    /// root.
    fn to_quaternion(&self) -> (r: Quaternion<S>) {
        let trace = self.trace();
        let half = S::one().div(S::from_int(2));
        if S::zero().le(trace) {
            let root = S::one().add(trace).sqrt();
            let scale = half.div(root);
            Quaternion::new(
                half.mul(root),
                self.y.z.sub(self.z.y).mul(scale),
                self.z.x.sub(self.x.z).mul(scale),
                self.x.y.sub(self.y.x).mul(scale),
            )
        } else if self.y.y.lt(self.x.x) && self.z.z.lt(self.x.x) {
            let root = self.x.x.sub(self.y.y).sub(self.z.z).add(S::one()).sqrt();
            let scale = half.div(root);
            Quaternion::new(
                self.y.z.sub(self.z.y).mul(scale),
                half.mul(root),
                self.y.x.add(self.x.y).mul(scale),
                self.x.z.add(self.z.x).mul(scale),
            )
        } else if self.z.z.lt(self.y.y) {
            let root = self.y.y.sub(self.x.x).sub(self.z.z).add(S::one()).sqrt();
            let scale = half.div(root);
            Quaternion::new(
                self.z.x.sub(self.x.z).mul(scale),
                self.y.x.add(self.x.y).mul(scale),
                half.mul(root),
                self.z.y.add(self.y.z).mul(scale),
            )
        } else {
            let root = self.z.z.sub(self.x.x).sub(self.y.y).add(S::one()).sqrt();
            let scale = half.div(root);
            Quaternion::new(
                self.x.y.sub(self.y.x).mul(scale),
                self.x.z.add(self.z.x).mul(scale),
                self.z.y.add(self.y.z).mul(scale),
                half.mul(root),
            )
        }
    }
}

} // verus!
