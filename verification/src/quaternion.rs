//! Quaternions in scalar and vector form.

use crate::angle::{acos, sin, sin_cos, Rad};
use crate::matrix::{Matrix3, Matrix4, ToMatrix3, ToMatrix4};
use crate::rotation::{Basis3, Rotation, Rotation3, ToBasis3};
use crate::scalar::Scalar;
use crate::vector::Vector3;
use vstd::prelude::*;

verus! {

/// A quaternion `s + xi + yj + zk`, held as its scalar part `s` and its vector
/// part `v = (x, y, z)`. One of magnitude 1 stands for a rotation.
#[derive(Clone, Copy, Debug, PartialEq)]
pub struct Quaternion<S> {
    pub s: S,
    pub v: Vector3<S>,
}

/// What can be written as a quaternion.
pub trait ToQuaternion<S: Scalar> {
    spec fn to_quaternion_spec(&self) -> Quaternion<S>;

    #[verifier::when_used_as_spec(to_quaternion_spec)]
    fn to_quaternion(&self) -> (r: Quaternion<S>)
        ensures
            r == self.to_quaternion_spec(),
    ;
}

/// The dot product above which two quaternions count as close together:
/// 9995 / 10000.
pub open spec fn slerp_threshold<S: Scalar>() -> S {
    S::from_int(9995).div(S::from_int(10000))
}

/// `dot` brought into the domain of the arc cosine: 1 where it is above 1, -1
/// where it is below -1, and `dot` itself otherwise.
pub open spec fn clamp_to_unit<S: Scalar>(dot: S) -> S {
    if S::one().lt(dot) {
        S::one()
    } else if dot.lt(S::one().neg()) {
        S::one().neg()
    } else {
        dot
    }
}

/// One half, as the scalar type computes it: 1 / 2.
pub open spec fn half<S: Scalar>() -> S {
    S::one().div(S::from_int(2))
}

impl<S: Scalar> Quaternion<S> {
    pub open spec fn new_spec(w: S, xi: S, yj: S, zk: S) -> Quaternion<S> {
        Quaternion { s: w, v: Vector3 { x: xi, y: yj, z: zk } }
    }

    /// The quaternion `w + xi*i + yj*j + zk*k`.
    #[verifier::when_used_as_spec(new_spec)]
    pub fn new(w: S, xi: S, yj: S, zk: S) -> (r: Quaternion<S>)
        ensures
            r == Self::new_spec(w, xi, yj, zk),
    {
        Quaternion::from_sv(w, Vector3::new(xi, yj, zk))
    }

    pub open spec fn from_sv_spec(s: S, v: Vector3<S>) -> Quaternion<S> {
        Quaternion { s, v }
    }

    /// The quaternion with the scalar part `s` and the vector part `v`.
    #[verifier::when_used_as_spec(from_sv_spec)]
    pub fn from_sv(s: S, v: Vector3<S>) -> (r: Quaternion<S>)
        ensures
            r == Self::from_sv_spec(s, v),
    {
        Quaternion { s, v }
    }

    pub open spec fn zero_spec() -> Quaternion<S> {
        Quaternion { s: S::zero(), v: Vector3 { x: S::zero(), y: S::zero(), z: S::zero() } }
    }

    /// The additive identity, `0 + 0i + 0j + 0k`.
    #[verifier::when_used_as_spec(zero_spec)]
    pub fn zero() -> (r: Quaternion<S>)
        ensures
            r == Self::zero_spec(),
    {
        Quaternion::new(S::zero(), S::zero(), S::zero(), S::zero())
    }

    pub open spec fn identity_spec() -> Quaternion<S> {
        Quaternion { s: S::one(), v: Vector3 { x: S::zero(), y: S::zero(), z: S::zero() } }
    }

    /// The multiplicative identity, `1 + 0i + 0j + 0k`.
    #[verifier::when_used_as_spec(identity_spec)]
    pub fn identity() -> (r: Quaternion<S>)
        ensures
            r == Self::identity_spec(),
    {
        Quaternion::from_sv(S::one(), Vector3::zero())
    }

    pub open spec fn mul_s_spec(&self, value: S) -> Quaternion<S> {
        Quaternion { s: self.s.mul(value), v: self.v.mul_s(value) }
    }

    /// The quaternion with each of its four components multiplied by `value`.
    #[verifier::when_used_as_spec(mul_s_spec)]
    pub fn mul_s(&self, value: S) -> (r: Quaternion<S>)
        ensures
            r == self.mul_s_spec(value),
    {
        Quaternion::from_sv(self.s.mul(value), self.v.mul_s(value))
    }

    pub open spec fn div_s_spec(&self, value: S) -> Quaternion<S> {
        Quaternion { s: self.s.div(value), v: self.v.div_s(value) }
    }

    /// The quaternion with each of its four components divided by `value`.
    /// A `value` of zero is not trapped: each component is what the scalar
    /// type gives for the division.
    #[verifier::when_used_as_spec(div_s_spec)]
    pub fn div_s(&self, value: S) -> (r: Quaternion<S>)
        ensures
            r == self.div_s_spec(value),
    {
        Quaternion::from_sv(self.s.div(value), self.v.div_s(value))
    }

    pub open spec fn add_q_spec(&self, other: &Quaternion<S>) -> Quaternion<S> {
        Quaternion { s: self.s.add(other.s), v: self.v.add_v(&other.v) }
    }

    /// The sum of two quaternions, component by component.
    #[verifier::when_used_as_spec(add_q_spec)]
    pub fn add_q(&self, other: &Quaternion<S>) -> (r: Quaternion<S>)
        ensures
            r == self.add_q_spec(other),
    {
        Quaternion::from_sv(self.s.add(other.s), self.v.add_v(&other.v))
    }

    pub open spec fn mul_v_spec(&self, vec: &Vector3<S>) -> Vector3<S> {
        let tmp = self.v.cross(vec).add_v(&vec.mul_s(self.s));
        self.v.cross(&tmp).mul_s(S::from_int(2)).add_v(vec)
    }

    /// The vector `vec` turned by the rotation that the quaternion stands for,
    /// which holds for a quaternion of magnitude 1. With `v` the vector part
    /// and `s` the scalar part, the result is `(v x (v x vec + vec * s)) * 2 +
    /// vec`, which avoids two full quaternion products.
    #[verifier::when_used_as_spec(mul_v_spec)]
    pub fn mul_v(&self, vec: &Vector3<S>) -> (r: Vector3<S>)
        ensures
            r == self.mul_v_spec(vec),
    {
        let tmp = self.v.cross(vec).add_v(&vec.mul_s(self.s));
        self.v.cross(&tmp).mul_s(S::from_int(2)).add_v(vec)
    }

    pub open spec fn sub_q_spec(&self, other: &Quaternion<S>) -> Quaternion<S> {
        Quaternion {
            s: self.s.sub(other.s),
            v: Vector3 {
                x: self.v.x.sub(other.v.x),
                y: self.v.y.sub(other.v.y),
                z: self.v.z.sub(other.v.z),
            },
        }
    }

    /// The difference of two quaternions, component by component.
    #[verifier::when_used_as_spec(sub_q_spec)]
    pub fn sub_q(&self, other: &Quaternion<S>) -> (r: Quaternion<S>)
        ensures
            r == self.sub_q_spec(other),
    {
        Quaternion::new(
            self.s.sub(other.s),
            self.v.x.sub(other.v.x),
            self.v.y.sub(other.v.y),
            self.v.z.sub(other.v.z),
        )
    }

    pub open spec fn mul_q_spec(&self, other: &Quaternion<S>) -> Quaternion<S> {
        Quaternion {
            s: self.s.mul(other.s).sub(self.v.x.mul(other.v.x)).sub(self.v.y.mul(other.v.y)).sub(
                self.v.z.mul(other.v.z),
            ),
            v: Vector3 {
                x: self.s.mul(other.v.x).add(self.v.x.mul(other.s)).add(
                    self.v.y.mul(other.v.z),
                ).sub(self.v.z.mul(other.v.y)),
                y: self.s.mul(other.v.y).add(self.v.y.mul(other.s)).add(
                    self.v.z.mul(other.v.x),
                ).sub(self.v.x.mul(other.v.z)),
                z: self.s.mul(other.v.z).add(self.v.z.mul(other.s)).add(
                    self.v.x.mul(other.v.y),
                ).sub(self.v.y.mul(other.v.x)),
            },
        }
    }

    /// The Hamilton product `self * other`, which does not commute. Its scalar
    /// part is `s*s' - x*x' - y*y' - z*z'`; the `i` component of its vector part
    /// is `s*x' + x*s' + y*z' - z*y'`, and the other two follow by rotating
    /// `x`, `y`, `z`. Each is summed from the left.
    #[verifier::when_used_as_spec(mul_q_spec)]
    pub fn mul_q(&self, other: &Quaternion<S>) -> (r: Quaternion<S>)
        ensures
            r == self.mul_q_spec(other),
    {
        Quaternion::new(
            self.s.mul(other.s).sub(self.v.x.mul(other.v.x)).sub(self.v.y.mul(other.v.y)).sub(
                self.v.z.mul(other.v.z),
            ),
            self.s.mul(other.v.x).add(self.v.x.mul(other.s)).add(self.v.y.mul(other.v.z)).sub(
                self.v.z.mul(other.v.y),
            ),
            self.s.mul(other.v.y).add(self.v.y.mul(other.s)).add(self.v.z.mul(other.v.x)).sub(
                self.v.x.mul(other.v.z),
            ),
            self.s.mul(other.v.z).add(self.v.z.mul(other.s)).add(self.v.x.mul(other.v.y)).sub(
                self.v.y.mul(other.v.x),
            ),
        )
    }

    /// Multiplies each of the four components by `s`, in place.
    pub fn mul_self_s(&mut self, s: S)
        ensures
            *final(self) == old(self).mul_s(s),
    {
        self.s = self.s.mul(s);
        self.v.x = self.v.x.mul(s);
        self.v.y = self.v.y.mul(s);
        self.v.z = self.v.z.mul(s);
    }

    /// Divides each of the four components by `s`, in place.
    pub fn div_self_s(&mut self, s: S)
        ensures
            *final(self) == old(self).div_s(s),
    {
        self.s = self.s.div(s);
        self.v.x = self.v.x.div(s);
        self.v.y = self.v.y.div(s);
        self.v.z = self.v.z.div(s);
    }

    /// Adds `other` to the quaternion, in place.
    pub fn add_self_q(&mut self, other: &Quaternion<S>)
        ensures
            *final(self) == old(self).add_q(other),
    {
        self.s = self.s.add(other.s);
        self.v.x = self.v.x.add(other.v.x);
        self.v.y = self.v.y.add(other.v.y);
        self.v.z = self.v.z.add(other.v.z);
    }

    /// Subtracts `other` from the quaternion, in place.
    pub fn sub_self_q(&mut self, other: &Quaternion<S>)
        ensures
            *final(self) == old(self).sub_q(other),
    {
        self.s = self.s.sub(other.s);
        self.v.x = self.v.x.sub(other.v.x);
        self.v.y = self.v.y.sub(other.v.y);
        self.v.z = self.v.z.sub(other.v.z);
    }

    /// Replaces the quaternion by the product `self * other`, in this order.
    pub fn mul_self_q(&mut self, other: &Quaternion<S>)
        ensures
            *final(self) == old(self).mul_q(other),
    {
        *self = self.mul_q(other);
    }

    pub open spec fn dot_spec(&self, other: &Quaternion<S>) -> S {
        self.s.mul(other.s).add(self.v.dot(&other.v))
    }

    /// The dot product of two quaternions as vectors of four components: the
    /// product of the scalar parts plus the dot product of the vector parts.
    #[verifier::when_used_as_spec(dot_spec)]
    pub fn dot(&self, other: &Quaternion<S>) -> (r: S)
        ensures
            r == self.dot_spec(other),
    {
        self.s.mul(other.s).add(self.v.dot(&other.v))
    }

    pub open spec fn conjugate_spec(&self) -> Quaternion<S> {
        Quaternion { s: self.s, v: self.v.neg() }
    }

    /// The conjugate: the same scalar part, the vector part negated.
    #[verifier::when_used_as_spec(conjugate_spec)]
    pub fn conjugate(&self) -> (r: Quaternion<S>)
        ensures
            r == self.conjugate_spec(),
    {
        Quaternion::from_sv(self.s, self.v.neg())
    }

    pub open spec fn neg_spec(&self) -> Quaternion<S> {
        Quaternion { s: self.s.neg(), v: self.v.neg() }
    }

    /// The quaternion with all four components negated.
    #[verifier::when_used_as_spec(neg_spec)]
    pub fn neg(&self) -> (r: Quaternion<S>)
        ensures
            r == self.neg_spec(),
    {
        Quaternion::from_sv(self.s.neg(), self.v.neg())
    }

    pub open spec fn magnitude2_spec(&self) -> S {
        self.s.mul(self.s).add(self.v.length2())
    }

    /// The square of the magnitude: `s*s` plus the squared length of the
    /// vector part. Enough to compare magnitudes, and cheaper than
    /// `magnitude`.
    #[verifier::when_used_as_spec(magnitude2_spec)]
    pub fn magnitude2(&self) -> (r: S)
        ensures
            r == self.magnitude2_spec(),
    {
        self.s.mul(self.s).add(self.v.length2())
    }

    pub open spec fn magnitude_spec(&self) -> S {
        self.magnitude2().sqrt()
    }

    /// The magnitude: the square root of `magnitude2`.
    #[verifier::when_used_as_spec(magnitude_spec)]
    pub fn magnitude(&self) -> (r: S)
        ensures
            r == self.magnitude_spec(),
    {
        self.magnitude2().sqrt()
    }

    pub open spec fn normalize_spec(&self) -> Quaternion<S> {
        self.mul_s(S::one().div(self.magnitude()))
    }

    /// The quaternion scaled by the reciprocal of its magnitude. Nothing guards
    /// against a magnitude of zero: the components are then what the scalar
    /// type gives for a division by zero.
    #[verifier::when_used_as_spec(normalize_spec)]
    pub fn normalize(&self) -> (r: Quaternion<S>)
        ensures
            r == self.normalize_spec(),
    {
        self.mul_s(S::one().div(self.magnitude()))
    }

    pub open spec fn nlerp_spec(&self, other: &Quaternion<S>, amount: S) -> Quaternion<S> {
        self.mul_s(S::one().sub(amount)).add_q(&other.mul_s(amount)).normalize()
    }

    /// Normalized linear interpolation: the blend
    /// `self * (1 - amount) + other * amount`, normalized. An `amount` outside
    /// 0 to 1 extrapolates.
    #[verifier::when_used_as_spec(nlerp_spec)]
    pub fn nlerp(&self, other: &Quaternion<S>, amount: S) -> (r: Quaternion<S>)
        ensures
            r == self.nlerp_spec(other, amount),
    {
        self.mul_s(S::one().sub(amount)).add_q(&other.mul_s(amount)).normalize()
    }

    pub open spec fn slerp_spec(&self, other: &Quaternion<S>, amount: S) -> Quaternion<S> {
        let dot = self.dot(other);
        if slerp_threshold::<S>().lt(dot) {
            self.nlerp(other, amount)
        } else {
            let theta = acos(clamp_to_unit(dot));
            let scale1 = sin(theta.mul_s(S::one().sub(amount)));
            let scale2 = sin(theta.mul_s(amount));
            self.mul_s(scale1).add_q(&other.mul_s(scale2)).mul_s(sin(theta).recip())
        }
    }

    /// Spherical linear interpolation between two quaternions, both of which
    /// should be normalized.
    ///
    /// Where their dot product is above [`slerp_threshold`] the result is that
    /// of `nlerp`. Otherwise, with `theta` the arc cosine of the dot product
    /// clamped to -1..1, it is
    /// `(self * sin(theta * (1 - amount)) + other * sin(theta * amount))`
    /// times the reciprocal of `sin(theta)`. For opposite quaternions
    /// `sin(theta)` is zero, and the result is what the scalar type makes of
    /// that reciprocal.
    #[verifier::when_used_as_spec(slerp_spec)]
    pub fn slerp(&self, other: &Quaternion<S>, amount: S) -> (r: Quaternion<S>)
        ensures
            r == self.slerp_spec(other, amount),
    {
        let dot = self.dot(other);
        let dot_threshold = S::from_int(9995).div(S::from_int(10000));

        if dot_threshold.lt(dot) {
            self.nlerp(other, amount)
        } else {
            let robust_dot = if S::one().lt(dot) {
                S::one()
            } else if dot.lt(S::one().neg()) {
                S::one().neg()
            } else {
                dot
            };

            let theta: Rad<S> = acos(robust_dot);

            let scale1 = sin(theta.mul_s(S::one().sub(amount)));
            let scale2 = sin(theta.mul_s(amount));

            self.mul_s(scale1).add_q(&other.mul_s(scale2)).mul_s(sin(theta).recip())
        }
    }
}

impl<S: Scalar> ToMatrix3<S> for Quaternion<S> {
    open spec fn to_matrix3_spec(&self) -> Matrix3<S> {
        let x2 = self.v.x.add(self.v.x);
        let y2 = self.v.y.add(self.v.y);
        let z2 = self.v.z.add(self.v.z);
        let xx2 = x2.mul(self.v.x);
        let xy2 = x2.mul(self.v.y);
        let xz2 = x2.mul(self.v.z);
        let yy2 = y2.mul(self.v.y);
        let yz2 = y2.mul(self.v.z);
        let zz2 = z2.mul(self.v.z);
        let sy2 = y2.mul(self.s);
        let sz2 = z2.mul(self.s);
        let sx2 = x2.mul(self.s);
        Matrix3 {
            x: Vector3 {
                x: S::one().sub(yy2).sub(zz2),
                y: xy2.add(sz2),
                z: xz2.sub(sy2),
            },
            y: Vector3 {
                x: xy2.sub(sz2),
                y: S::one().sub(xx2).sub(zz2),
                z: yz2.add(sx2),
            },
            z: Vector3 {
                x: xz2.add(sy2),
                y: yz2.sub(sx2),
                z: S::one().sub(xx2).sub(yy2),
            },
        }
    }

    /// The rotation matrix of a unit quaternion `s + xi + yj + zk`. With
    /// `xy2` for `(x + x) * y` and so on, its columns are
    /// `(1 - yy2 - zz2, xy2 + sz2, xz2 - sy2)`,
    /// `(xy2 - sz2, 1 - xx2 - zz2, yz2 + sx2)` and
    /// `(xz2 + sy2, yz2 - sx2, 1 - xx2 - yy2)`.
    fn to_matrix3(&self) -> (r: Matrix3<S>) {
        let x2 = self.v.x.add(self.v.x);
        let y2 = self.v.y.add(self.v.y);
        let z2 = self.v.z.add(self.v.z);

        let xx2 = x2.mul(self.v.x);
        let xy2 = x2.mul(self.v.y);
        let xz2 = x2.mul(self.v.z);

        let yy2 = y2.mul(self.v.y);
        let yz2 = y2.mul(self.v.z);
        let zz2 = z2.mul(self.v.z);

        let sy2 = y2.mul(self.s);
        let sz2 = z2.mul(self.s);
        let sx2 = x2.mul(self.s);

        Matrix3::new(
            S::one().sub(yy2).sub(zz2),
            xy2.add(sz2),
            xz2.sub(sy2),
            xy2.sub(sz2),
            S::one().sub(xx2).sub(zz2),
            yz2.add(sx2),
            xz2.add(sy2),
            yz2.sub(sx2),
            S::one().sub(xx2).sub(yy2),
        )
    }
}

impl<S: Scalar> ToMatrix4<S> for Quaternion<S> {
    open spec fn to_matrix4_spec(&self) -> Matrix4<S> {
        let m = self.to_matrix3();
        Matrix4::new(
            m.x.x,
            m.x.y,
            m.x.z,
            S::zero(),
            m.y.x,
            m.y.y,
            m.y.z,
            S::zero(),
            m.z.x,
            m.z.y,
            m.z.z,
            S::zero(),
            S::zero(),
            S::zero(),
            S::zero(),
            S::one(),
        )
    }

    /// The rotation matrix of a unit quaternion, in four columns: the matrix
    /// that `to_matrix3` gives, a fourth row and a fourth column of zeros,
    /// and 1 at their crossing.
    fn to_matrix4(&self) -> (r: Matrix4<S>) {
        let x2 = self.v.x.add(self.v.x);
        let y2 = self.v.y.add(self.v.y);
        let z2 = self.v.z.add(self.v.z);

        let xx2 = x2.mul(self.v.x);
        let xy2 = x2.mul(self.v.y);
        let xz2 = x2.mul(self.v.z);

        let yy2 = y2.mul(self.v.y);
        let yz2 = y2.mul(self.v.z);
        let zz2 = z2.mul(self.v.z);

        let sy2 = y2.mul(self.s);
        let sz2 = z2.mul(self.s);
        let sx2 = x2.mul(self.s);

        Matrix4::new(
            S::one().sub(yy2).sub(zz2),
            xy2.add(sz2),
            xz2.sub(sy2),
            S::zero(),
            xy2.sub(sz2),
            S::one().sub(xx2).sub(zz2),
            yz2.add(sx2),
            S::zero(),
            xz2.add(sy2),
            yz2.sub(sx2),
            S::one().sub(xx2).sub(yy2),
            S::zero(),
            S::zero(),
            S::zero(),
            S::zero(),
            S::one(),
        )
    }
}

impl<S: Scalar> ToBasis3<S> for Quaternion<S> {
    open spec fn to_rot3_spec(&self) -> Basis3<S> {
        Basis3::from_quaternion(self)
    }

    fn to_rot3(&self) -> (r: Basis3<S>) {
        Basis3::from_quaternion(self)
    }
}

impl<S: Scalar> ToQuaternion<S> for Quaternion<S> {
    open spec fn to_quaternion_spec(&self) -> Quaternion<S> {
        *self
    }

    fn to_quaternion(&self) -> (r: Quaternion<S>) {
        *self
    }
}

impl<S: Scalar> Rotation<S> for Quaternion<S> {
    open spec fn identity_spec() -> Quaternion<S> {
        Quaternion::from_sv(S::one(), Vector3::zero())
    }

    open spec fn look_at_spec(dir: &Vector3<S>, up: &Vector3<S>) -> Quaternion<S> {
        Matrix3::look_at(dir, up).to_quaternion()
    }

    open spec fn between_vectors_spec(a: &Vector3<S>, b: &Vector3<S>) -> Quaternion<S> {
        Quaternion::from_sv(S::one().add(a.dot(b)), a.cross(b)).normalize()
    }

    open spec fn rotate_vector_spec(&self, vec: &Vector3<S>) -> Vector3<S> {
        self.mul_v(vec)
    }

    open spec fn concat_spec(&self, other: &Quaternion<S>) -> Quaternion<S> {
        self.mul_q(other)
    }

    open spec fn invert_spec(&self) -> Quaternion<S> {
        self.conjugate().div_s(self.magnitude2())
    }

    /// The quaternion `1 + 0i + 0j + 0k`.
    fn identity() -> (r: Quaternion<S>) {
        Quaternion::from_sv(S::one(), Vector3::zero())
    }

    /// The quaternion of the basis that `Matrix3::look_at` builds from `dir`
    /// and `up`.
    fn look_at(dir: &Vector3<S>, up: &Vector3<S>) -> (r: Quaternion<S>) {
        Matrix3::look_at(dir, up).to_quaternion()
    }

    /// The quaternion `(1 + a.b) + (a x b)`, normalized. Where `b` is the
    /// opposite of `a` that quaternion is zero, and the result is what the
    /// scalar type gives for zero times the reciprocal of zero.
    fn between_vectors(a: &Vector3<S>, b: &Vector3<S>) -> (r: Quaternion<S>) {
        Quaternion::from_sv(S::one().add(a.dot(b)), a.cross(b)).normalize()
    }

    /// The same as `mul_v`.
    fn rotate_vector(&self, vec: &Vector3<S>) -> (r: Vector3<S>) {
        self.mul_v(vec)
    }

    /// The same as `mul_q`: the product `self * other`.
    fn concat(&self, other: &Quaternion<S>) -> (r: Quaternion<S>) {
        self.mul_q(other)
    }

    fn concat_self(&mut self, other: &Quaternion<S>) {
        self.mul_self_q(other);
    }

    /// The conjugate divided by the squared magnitude: the inverse under
    /// multiplication of any quaternion but zero, of unit magnitude or not.
    fn invert(&self) -> (r: Quaternion<S>) {
        self.conjugate().div_s(self.magnitude2())
    }

    fn invert_self(&mut self) {
        *self = self.invert();
    }
}

impl<S: Scalar> Rotation3<S> for Quaternion<S> {
    open spec fn from_axis_angle_spec(axis: &Vector3<S>, angle: Rad<S>) -> Quaternion<S> {
        let (s, c) = sin_cos(angle.mul_s(half()));
        Quaternion::from_sv(c, axis.mul_s(s))
    }

    open spec fn from_euler_spec(x: Rad<S>, y: Rad<S>, z: Rad<S>) -> Quaternion<S> {
        let (sx2, cx2) = sin_cos(x.mul_s(half()));
        let (sy2, cy2) = sin_cos(y.mul_s(half()));
        let (sz2, cz2) = sin_cos(z.mul_s(half()));
        Quaternion::new(
            cz2.mul(cx2).mul(cy2).add(sz2.mul(sx2).mul(sy2)),
            sz2.mul(cx2).mul(cy2).sub(cz2.mul(sx2).mul(sy2)),
            cz2.mul(sx2).mul(cy2).add(sz2.mul(cx2).mul(sy2)),
            cz2.mul(cx2).mul(sy2).sub(sz2.mul(sx2).mul(cy2)),
        )
    }

    /// The quaternion `cos(angle / 2) + axis * sin(angle / 2)`, of unit
    /// magnitude where `axis` is of unit length.
    fn from_axis_angle(axis: &Vector3<S>, angle: Rad<S>) -> (r: Quaternion<S>) {
        let (s, c) = sin_cos(angle.mul_s(S::one().div(S::from_int(2))));
        Quaternion::from_sv(c, axis.mul_s(s))
    }

    /// The quaternion for the Euler angles `x`, `y` and `z`. With `sx`, `cx`
    /// for the sine and cosine of half of `x`, and so on, it is
    /// `(cz*cx*cy + sz*sx*sy) + (sz*cx*cy - cz*sx*sy)i + (cz*sx*cy + sz*cx*sy)j
    /// + (cz*cx*sy - sz*sx*cy)k`.
    fn from_euler(x: Rad<S>, y: Rad<S>, z: Rad<S>) -> (r: Quaternion<S>) {
        let (sx2, cx2) = sin_cos(x.mul_s(S::one().div(S::from_int(2))));
        let (sy2, cy2) = sin_cos(y.mul_s(S::one().div(S::from_int(2))));
        let (sz2, cz2) = sin_cos(z.mul_s(S::one().div(S::from_int(2))));

        Quaternion::new(
            cz2.mul(cx2).mul(cy2).add(sz2.mul(sx2).mul(sy2)),
            sz2.mul(cx2).mul(cy2).sub(cz2.mul(sx2).mul(sy2)),
            cz2.mul(sx2).mul(cy2).add(sz2.mul(cx2).mul(sy2)),
            cz2.mul(cx2).mul(sy2).sub(sz2.mul(sx2).mul(cy2)),
        )
    }
}

} // verus!
