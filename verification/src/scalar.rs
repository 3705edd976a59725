//! The numeric type that vectors, matrices and quaternions are built from.

use vstd::prelude::*;

verus! {

/// A scalar: a number with the four arithmetic operations, an order, a square
/// root and the trigonometric functions that rotations need.
///
/// Each method returns what the specification function of the same name with
/// `_spec` appended gives for its arguments. That is all an implementation
/// promises, and it is taken on trust: the same arguments give the same
/// result. Nothing is said here of how the operations relate to one another.
/// A floating-point type rounds, so the laws of real arithmetic hold of it
/// only approximately; what follows from them is stated apart, for the
/// scalar types of which [`exact`] holds.
pub trait Scalar: Copy {
    spec fn zero_spec() -> Self;

    spec fn one_spec() -> Self;

    spec fn from_int_spec(n: i32) -> Self;

    spec fn neg_spec(self) -> Self;

    spec fn add_spec(self, rhs: Self) -> Self;

    spec fn sub_spec(self, rhs: Self) -> Self;

    spec fn mul_spec(self, rhs: Self) -> Self;

    spec fn div_spec(self, rhs: Self) -> Self;

    spec fn recip_spec(self) -> Self;

    spec fn sqrt_spec(self) -> Self;

    spec fn sin_spec(self) -> Self;

    spec fn cos_spec(self) -> Self;

    spec fn acos_spec(self) -> Self;

    spec fn lt_spec(self, rhs: Self) -> bool;

    spec fn le_spec(self, rhs: Self) -> bool;

    /// The additive identity.
    #[verifier::when_used_as_spec(zero_spec)]
    fn zero() -> (r: Self)
        ensures
            r == Self::zero_spec(),
    ;

    /// The multiplicative identity.
    #[verifier::when_used_as_spec(one_spec)]
    fn one() -> (r: Self)
        ensures
            r == Self::one_spec(),
    ;

    /// The scalar that stands for the integer `n`.
    #[verifier::when_used_as_spec(from_int_spec)]
    fn from_int(n: i32) -> (r: Self)
        ensures
            r == Self::from_int_spec(n),
    ;

    #[verifier::when_used_as_spec(neg_spec)]
    fn neg(self) -> (r: Self)
        ensures
            r == self.neg_spec(),
    ;

    #[verifier::when_used_as_spec(add_spec)]
    fn add(self, rhs: Self) -> (r: Self)
        ensures
            r == self.add_spec(rhs),
    ;

    #[verifier::when_used_as_spec(sub_spec)]
    fn sub(self, rhs: Self) -> (r: Self)
        ensures
            r == self.sub_spec(rhs),
    ;

    #[verifier::when_used_as_spec(mul_spec)]
    fn mul(self, rhs: Self) -> (r: Self)
        ensures
            r == self.mul_spec(rhs),
    ;

    /// Division. Dividing by zero is no error: the result is whatever the
    /// scalar type gives for it.
    #[verifier::when_used_as_spec(div_spec)]
    fn div(self, rhs: Self) -> (r: Self)
        ensures
            r == self.div_spec(rhs),
    ;

    /// The reciprocal, `1 / self`.
    #[verifier::when_used_as_spec(recip_spec)]
    fn recip(self) -> (r: Self)
        ensures
            r == self.recip_spec(),
    ;

    #[verifier::when_used_as_spec(sqrt_spec)]
    fn sqrt(self) -> (r: Self)
        ensures
            r == self.sqrt_spec(),
    ;

    /// The sine of an angle in radians.
    #[verifier::when_used_as_spec(sin_spec)]
    fn sin(self) -> (r: Self)
        ensures
            r == self.sin_spec(),
    ;

    /// The cosine of an angle in radians.
    #[verifier::when_used_as_spec(cos_spec)]
    fn cos(self) -> (r: Self)
        ensures
            r == self.cos_spec(),
    ;

    /// The angle in radians whose cosine is `self`.
    #[verifier::when_used_as_spec(acos_spec)]
    fn acos(self) -> (r: Self)
        ensures
            r == self.acos_spec(),
    ;

    /// Whether `self` is strictly below `rhs`.
    #[verifier::when_used_as_spec(lt_spec)]
    fn lt(self, rhs: Self) -> (r: bool)
        ensures
            r == self.lt_spec(rhs),
    ;

    /// Whether `self` is below or equal to `rhs`.
    #[verifier::when_used_as_spec(le_spec)]
    fn le(self, rhs: Self) -> (r: bool)
        ensures
            r == self.le_spec(rhs),
    ;
}

/// Whether `val` reads every scalar of `S` as a real number in such a way that
/// the operations of `S` are the operations on the reals: no rounding, no
/// overflow, and no two scalars for one number. A quotient is described by
/// what it gives when multiplied by the divisor, a square root by its square;
/// of a division by zero and of the root of a negative number nothing is
/// asked.
///
/// Of sine, cosine and arc cosine it asks the three facts that the laws of this
/// library rest on: `sin^2 + cos^2 = 1`, `sin 0 = 0`, and `cos(acos x) = x`
/// for `x` between -1 and 1.
pub open spec fn exact_under<S: Scalar>(val: spec_fn(S) -> real) -> bool {
    &&& val(S::zero()) == 0real
    &&& val(S::one()) == 1real
    &&& forall|n: i32| #[trigger] val(S::from_int(n)) == n as real
    &&& forall|a: S| #[trigger] val(a.neg()) == -val(a)
    &&& forall|a: S, b: S| #[trigger] val(a.add(b)) == val(a) + val(b)
    &&& forall|a: S, b: S| #[trigger] val(a.sub(b)) == val(a) - val(b)
    &&& forall|a: S, b: S| #[trigger] val(a.mul(b)) == val(a) * val(b)
    &&& forall|a: S, b: S| val(b) != 0real ==> #[trigger] val(a.div(b)) * val(b) == val(a)
    &&& forall|a: S| val(a) != 0real ==> #[trigger] val(a.recip()) * val(a) == 1real
    &&& forall|a: S|
        val(a) >= 0real ==> #[trigger] val(a.sqrt()) >= 0real && val(a.sqrt()) * val(a.sqrt())
            == val(a)
    &&& forall|a: S| #[trigger]
        val(a.sin()) * val(a.sin()) + val(a.cos()) * val(a.cos()) == 1real
    &&& forall|a: S| val(a) == 0real ==> #[trigger] val(a.sin()) == 0real
    &&& forall|a: S| -1real <= val(a) <= 1real ==> #[trigger] val(a.acos().cos()) == val(a)
    &&& forall|a: S, b: S| #[trigger] a.lt(b) <==> val(a) < val(b)
    &&& forall|a: S, b: S| #[trigger] a.le(b) <==> val(a) <= val(b)
    &&& forall|a: S, b: S| #![trigger val(a), val(b)] val(a) == val(b) ==> a == b
}

/// Whether the scalar type `S` computes exactly: its values can be read as real
/// numbers so that its operations are those of the reals.
pub open spec fn exact<S: Scalar>() -> bool {
    exists|val: spec_fn(S) -> real| exact_under::<S>(val)
}

/// A reading of an exact scalar type as real numbers.
pub proof fn exact_reading<S: Scalar>() -> (val: spec_fn(S) -> real)
    requires
        exact::<S>(),
    ensures
        exact_under::<S>(val),
{
    choose|val: spec_fn(S) -> real| exact_under::<S>(val)
}

} // verus!
