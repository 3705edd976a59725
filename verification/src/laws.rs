//! What holds of quaternions when the scalar type computes exactly.

use crate::angle::{acos, sin, Rad};
use crate::matrix::ToMatrix3;
use crate::quaternion::{clamp_to_unit, half, slerp_threshold, Quaternion};
use crate::real_algebra::{
    lemma_double, lemma_inverse_scalar_part, lemma_inverse_vector_part, lemma_mul_commutes,
    lemma_cancel_factor, lemma_mul_signs, lemma_normalized_square, lemma_parallel_cross,
    lemma_rotation_row, lemma_scaled, lemma_scaled_left, lemma_scaled_unit_square,
    lemma_square_below_one, lemma_square_nonnegative, lemma_times_one, lemma_unit_root,
    lemma_zero_times,
};
use crate::rotation::{Rotation, Rotation3};
use crate::scalar::{exact, exact_reading, Scalar};
use crate::vector::Vector3;
use vstd::prelude::*;

verus! {

/// Composing a rotation with the identity, on either side, gives the rotation
/// back.
pub proof fn lemma_concat_identity<S: Scalar>(q: Quaternion<S>)
    requires
        exact::<S>(),
    ensures
        q.concat(&Quaternion::identity()) == q,
        Quaternion::identity().concat(&q) == q,
{
    let val = exact_reading::<S>();
    let one = Quaternion::<S>::identity();
    let a = q.concat(&one);
    let b = one.concat(&q);
    let (s, x, y, z) = (val(q.s), val(q.v.x), val(q.v.y), val(q.v.z));
    assert(val(a.s) == s && val(b.s) == s) by (nonlinear_arith)
        requires
            val(a.s) == s * 1real - x * 0real - y * 0real - z * 0real,
            val(b.s) == 1real * s - 0real * x - 0real * y - 0real * z,
    ;
    assert(val(a.v.x) == x && val(b.v.x) == x) by (nonlinear_arith)
        requires
            val(a.v.x) == s * 0real + x * 1real + y * 0real - z * 0real,
            val(b.v.x) == 1real * x + 0real * s + 0real * z - 0real * y,
    ;
    assert(val(a.v.y) == y && val(b.v.y) == y) by (nonlinear_arith)
        requires
            val(a.v.y) == s * 0real + y * 1real + z * 0real - x * 0real,
            val(b.v.y) == 1real * y + 0real * s + 0real * x - 0real * z,
    ;
    assert(val(a.v.z) == z && val(b.v.z) == z) by (nonlinear_arith)
        requires
            val(a.v.z) == s * 0real + z * 1real + x * 0real - y * 0real,
            val(b.v.z) == 1real * z + 0real * s + 0real * y - 0real * x,
    ;
}

/// A quaternion times its conjugate has the squared magnitude as its scalar
/// part and no vector part.
pub proof fn lemma_mul_conjugate<S: Scalar>(q: Quaternion<S>)
    requires
        exact::<S>(),
    ensures
        q.mul_q(&q.conjugate()) == Quaternion::from_sv(q.magnitude2(), Vector3::zero()),
{
    let val = exact_reading::<S>();
    let p = q.mul_q(&q.conjugate());
    let m = Quaternion::from_sv(q.magnitude2(), Vector3::<S>::zero());
    let (s, x, y, z) = (val(q.s), val(q.v.x), val(q.v.y), val(q.v.z));
    assert(val(p.s) == val(m.s)) by (nonlinear_arith)
        requires
            val(p.s) == s * s - x * (-x) - y * (-y) - z * (-z),
            val(m.s) == s * s + (x * x + y * y + z * z),
    ;
    assert(val(p.v.x) == val(m.v.x)) by (nonlinear_arith)
        requires
            val(p.v.x) == s * (-x) + x * s + y * (-z) - z * (-y),
            val(m.v.x) == 0real,
    ;
    assert(val(p.v.y) == val(m.v.y)) by (nonlinear_arith)
        requires
            val(p.v.y) == s * (-y) + y * s + z * (-x) - x * (-z),
            val(m.v.y) == 0real,
    ;
    assert(val(p.v.z) == val(m.v.z)) by (nonlinear_arith)
        requires
            val(p.v.z) == s * (-z) + z * s + x * (-y) - y * (-x),
            val(m.v.z) == 0real,
    ;
}

/// Any quaternion but zero, composed with its inverse on either side, gives
/// the identity, whether its magnitude is 1 or not.
pub proof fn lemma_concat_invert<S: Scalar>(q: Quaternion<S>)
    requires
        exact::<S>(),
        q.magnitude2() != S::zero(),
    ensures
        q.concat(&q.invert()) == Quaternion::<S>::identity(),
        q.invert().concat(&q) == Quaternion::<S>::identity(),
{
    let val = exact_reading::<S>();
    let inv = q.invert();
    let a = q.concat(&inv);
    let b = inv.concat(&q);
    let (s, x, y, z) = (val(q.s), val(q.v.x), val(q.v.y), val(q.v.z));
    let m = val(q.magnitude2());
    let (is, ix, iy, iz) = (val(inv.s), val(inv.v.x), val(inv.v.y), val(inv.v.z));
    assert(m != 0real);
    assert(m == s * s + (x * x + y * y + z * z));
    assert(is * m == s && ix * m == -x && iy * m == -y && iz * m == -z);
    lemma_inverse_scalar_part(s, x, y, z, m, is, ix, iy, iz);
    lemma_inverse_vector_part(s, x, y, z, m, is, ix, iy, iz);
    lemma_inverse_vector_part(s, y, z, x, m, is, iy, iz, ix);
    lemma_inverse_vector_part(s, z, x, y, m, is, iz, ix, iy);
    assert(val(a.s) == 1real && val(b.s) == 1real);
    assert(val(a.v.x) == 0real && val(b.v.x) == 0real);
    assert(val(a.v.y) == 0real && val(b.v.y) == 0real);
    assert(val(a.v.z) == 0real && val(b.v.z) == 0real);
}

/// Where the dot product of two quaternions is above the threshold,
/// spherical interpolation is normalized linear interpolation, for every
/// amount.
pub proof fn lemma_slerp_near<S: Scalar>(q: Quaternion<S>, other: Quaternion<S>, amount: S)
    requires
        slerp_threshold::<S>().lt(q.dot(&other)),
    ensures
        q.slerp(&other, amount) == q.nlerp(&other, amount),
{
}

/// A rotation about an axis leaves the axis where it is, whatever the angle
/// and whatever the length of the axis.
pub proof fn lemma_axis_is_fixed<S: Scalar>(axis: Vector3<S>, angle: Rad<S>)
    requires
        exact::<S>(),
    ensures
        Quaternion::<S>::from_axis_angle(&axis, angle).rotate_vector(&axis) == axis,
{
    let val = exact_reading::<S>();
    let q = Quaternion::<S>::from_axis_angle(&axis, angle);
    let (ax, ay, az) = (val(axis.x), val(axis.y), val(axis.z));
    let c = val(q.s);
    let h = angle.mul_s(half::<S>());
    let sn = val(h.s.sin());
    assert(val(q.v.x) == ax * sn && val(q.v.y) == ay * sn && val(q.v.z) == az * sn);

    let first = q.v.cross(&axis);
    lemma_parallel_cross(ay, az, sn, 1real);
    lemma_parallel_cross(az, ax, sn, 1real);
    lemma_parallel_cross(ax, ay, sn, 1real);
    assert(az * 1real == az && ax * 1real == ax && ay * 1real == ay);
    assert(val(first.x) == 0real && val(first.y) == 0real && val(first.z) == 0real);

    let tmp = first.add_v(&axis.mul_s(q.s));
    assert(val(tmp.x) == ax * c && val(tmp.y) == ay * c && val(tmp.z) == az * c);

    let second = q.v.cross(&tmp);
    lemma_parallel_cross(ay, az, sn, c);
    lemma_parallel_cross(az, ax, sn, c);
    lemma_parallel_cross(ax, ay, sn, c);
    assert(val(second.x) == 0real && val(second.y) == 0real && val(second.z) == 0real);

    let r = q.rotate_vector(&axis);
    lemma_zero_times(val(second.x), 2real);
    lemma_zero_times(val(second.y), 2real);
    lemma_zero_times(val(second.z), 2real);
    assert(val(r.x) == ax && val(r.y) == ay && val(r.z) == az);
}

/// The matrix of a quaternion turns a vector as the quaternion does. This
/// holds of every quaternion; only for one of magnitude 1 is either a
/// rotation.
pub proof fn lemma_matrix_rotates_alike<S: Scalar>(q: Quaternion<S>, vec: Vector3<S>)
    requires
        exact::<S>(),
    ensures
        q.to_matrix3().mul_v(&vec) == q.rotate_vector(&vec),
{
    let val = exact_reading::<S>();
    let m = q.to_matrix3();
    let l = m.mul_v(&vec);
    let r = q.rotate_vector(&vec);
    let (s, x, y, z) = (val(q.s), val(q.v.x), val(q.v.y), val(q.v.z));
    let (vx, vy, vz) = (val(vec.x), val(vec.y), val(vec.z));
    lemma_double(x, x);
    lemma_double(y, y);
    lemma_double(z, z);
    lemma_double(x, y);
    lemma_double(x, z);
    lemma_double(y, z);
    lemma_double(x, s);
    lemma_double(y, s);
    lemma_double(z, s);
    lemma_mul_commutes(x, y);
    lemma_mul_commutes(x, z);
    lemma_mul_commutes(y, z);

    lemma_rotation_row(s, x, y, z, vx, vy, vz, val(m.x.x), val(m.y.x), val(m.z.x));
    assert(val(l.x) == val(r.x));

    lemma_rotation_row(s, y, z, x, vy, vz, vx, val(m.y.y), val(m.z.y), val(m.x.y));
    assert(val(l.y) == val(r.y));

    lemma_rotation_row(s, z, x, y, vz, vx, vy, val(m.z.z), val(m.x.z), val(m.y.z));
    assert(val(l.z) == val(r.z));
}

/// Normalizing any quaternion but zero gives one of magnitude 1, and
/// normalizing that again changes nothing.
pub proof fn lemma_normalize_unit<S: Scalar>(q: Quaternion<S>)
    requires
        exact::<S>(),
        q.magnitude2() != S::zero(),
    ensures
        q.normalize().magnitude2() == S::one(),
        q.normalize().magnitude() == S::one(),
        q.normalize().normalize() == q.normalize(),
{
    let val = exact_reading::<S>();
    let (s, x, y, z) = (val(q.s), val(q.v.x), val(q.v.y), val(q.v.z));
    let m2 = val(q.magnitude2());
    assert(m2 == s * s + ((x * x + y * y) + z * z));
    assert(m2 != 0real);
    lemma_square_nonnegative(s);
    lemma_square_nonnegative(x);
    lemma_square_nonnegative(y);
    lemma_square_nonnegative(z);
    assert(m2 >= 0real);

    let mag = val(q.magnitude());
    assert(mag >= 0real && mag * mag == m2);
    if mag == 0real {
        lemma_zero_times(mag, mag);
    }
    assert(mag != 0real);

    let scale = S::one().div(q.magnitude());
    let k = val(scale);
    assert(k * mag == 1real);

    let n = q.normalize();
    assert(val(n.s) == s * k && val(n.v.x) == x * k && val(n.v.y) == y * k && val(n.v.z) == z * k);
    lemma_normalized_square(s, x, y, z, m2, mag, k);
    assert(val(n.magnitude2()) == 1real);
    assert(n.magnitude2() == S::one());

    let r = val(n.magnitude());
    assert(r >= 0real && r * r == 1real);
    lemma_unit_root(r);
    assert(n.magnitude() == S::one());

    let again = S::one().div(n.magnitude());
    let u = val(again);
    assert(u * r == 1real);
    lemma_scaled(u, r, 1real);
    lemma_times_one(u);
    assert(u == 1real);

    let nn = n.normalize();
    lemma_scaled(val(n.s), u, 1real);
    lemma_scaled(val(n.v.x), u, 1real);
    lemma_scaled(val(n.v.y), u, 1real);
    lemma_scaled(val(n.v.z), u, 1real);
    lemma_times_one(val(n.s));
    lemma_times_one(val(n.v.x));
    lemma_times_one(val(n.v.y));
    lemma_times_one(val(n.v.z));
    assert(val(nn.s) == val(n.s) && val(nn.v.x) == val(n.v.x) && val(nn.v.y) == val(n.v.y)
        && val(nn.v.z) == val(n.v.z));
}

/// A blend that takes all of one quaternion and none of the other is that
/// quaternion: `first * 1 + second * 0 == first`, and the same the other way
/// round.
proof fn lemma_blend_ends<S: Scalar>(first: Quaternion<S>, second: Quaternion<S>)
    requires
        exact::<S>(),
    ensures
        first.mul_s(S::one().sub(S::zero())).add_q(&second.mul_s(S::zero())) == first,
        first.mul_s(S::one().sub(S::one())).add_q(&second.mul_s(S::one())) == second,
{
    let val = exact_reading::<S>();
    let keep = val(S::one().sub(S::zero()));
    let drop = val(S::one().sub(S::one()));
    assert(keep == 1real && drop == 0real);
    let a = first.mul_s(S::one().sub(S::zero())).add_q(&second.mul_s(S::zero()));
    let b = first.mul_s(S::one().sub(S::one())).add_q(&second.mul_s(S::one()));
    let (fs, fx, fy, fz) = (val(first.s), val(first.v.x), val(first.v.y), val(first.v.z));
    let (gs, gx, gy, gz) = (val(second.s), val(second.v.x), val(second.v.y), val(second.v.z));
    lemma_scaled(fs, keep, 1real);
    lemma_scaled(fx, keep, 1real);
    lemma_scaled(fy, keep, 1real);
    lemma_scaled(fz, keep, 1real);
    lemma_scaled(fs, drop, 0real);
    lemma_scaled(fx, drop, 0real);
    lemma_scaled(fy, drop, 0real);
    lemma_scaled(fz, drop, 0real);
    lemma_times_one(fs);
    lemma_times_one(fx);
    lemma_times_one(fy);
    lemma_times_one(fz);
    lemma_times_one(gs);
    lemma_times_one(gx);
    lemma_times_one(gy);
    lemma_times_one(gz);
    lemma_mul_commutes(fs, 0real);
    lemma_mul_commutes(fx, 0real);
    lemma_mul_commutes(fy, 0real);
    lemma_mul_commutes(fz, 0real);
    lemma_mul_commutes(gs, 0real);
    lemma_mul_commutes(gx, 0real);
    lemma_mul_commutes(gy, 0real);
    lemma_mul_commutes(gz, 0real);
    lemma_zero_times(0real, fs);
    lemma_zero_times(0real, fx);
    lemma_zero_times(0real, fy);
    lemma_zero_times(0real, fz);
    lemma_zero_times(0real, gs);
    lemma_zero_times(0real, gx);
    lemma_zero_times(0real, gy);
    lemma_zero_times(0real, gz);
    assert(val(a.s) == fs && val(a.v.x) == fx && val(a.v.y) == fy && val(a.v.z) == fz);
    assert(val(b.s) == gs && val(b.v.x) == gx && val(b.v.y) == gy && val(b.v.z) == gz);
}

/// Normalized linear interpolation begins at the first quaternion,
/// normalized, and ends at the second, normalized.
pub proof fn lemma_nlerp_ends<S: Scalar>(q: Quaternion<S>, other: Quaternion<S>)
    requires
        exact::<S>(),
    ensures
        q.nlerp(&other, S::zero()) == q.normalize(),
        q.nlerp(&other, S::one()) == other.normalize(),
{
    lemma_blend_ends(q, other);
}

/// A quaternion of magnitude 1 is its own normalization.
pub proof fn lemma_unit_is_normalized<S: Scalar>(q: Quaternion<S>)
    requires
        exact::<S>(),
        q.magnitude2() == S::one(),
    ensures
        q.magnitude() == S::one(),
        q.normalize() == q,
{
    let val = exact_reading::<S>();
    let r = val(q.magnitude());
    assert(val(q.magnitude2()) == 1real);
    assert(r >= 0real && r * r == 1real);
    lemma_unit_root(r);
    assert(q.magnitude() == S::one());
    let u = val(S::one().div(q.magnitude()));
    assert(u * r == 1real);
    lemma_scaled(u, r, 1real);
    lemma_times_one(u);
    assert(u == 1real);
    let n = q.normalize();
    lemma_scaled(val(q.s), u, 1real);
    lemma_scaled(val(q.v.x), u, 1real);
    lemma_scaled(val(q.v.y), u, 1real);
    lemma_scaled(val(q.v.z), u, 1real);
    lemma_times_one(val(q.s));
    lemma_times_one(val(q.v.x));
    lemma_times_one(val(q.v.y));
    lemma_times_one(val(q.v.z));
    assert(val(n.s) == val(q.s) && val(n.v.x) == val(q.v.x) && val(n.v.y) == val(q.v.y) && val(
        n.v.z,
    ) == val(q.v.z));
}

/// Away from the threshold and from opposite quaternions the clamp does
/// nothing, and the sine of the angle between the two is not zero.
proof fn lemma_far_sine<S: Scalar>(dot: S)
    requires
        exact::<S>(),
        !slerp_threshold::<S>().lt(dot),
        S::one().neg().lt(dot),
    ensures
        clamp_to_unit(dot) == dot,
        sin(acos(dot)) != S::zero(),
{
    let val = exact_reading::<S>();
    let d = val(dot);
    let thr = val(slerp_threshold::<S>());
    assert(val(S::from_int(10000)) == 10000real);
    assert(val(S::from_int(9995)) == 9995real);
    assert(thr * 10000real == 9995real);
    assert(thr < 1real);
    assert(d <= thr);
    assert(-1real < d);
    assert(clamp_to_unit(dot) == dot);
    let theta = dot.acos();
    let sn = val(theta.sin());
    let cs = val(theta.cos());
    assert(cs == d);
    assert(sn * sn + cs * cs == 1real);
    if sn == 0real {
        lemma_zero_times(sn, sn);
        lemma_square_below_one(d);
        assert(false);
    }
}

/// Far from each other, but not opposite, spherical interpolation begins at
/// the first quaternion and ends at the second.
proof fn lemma_slerp_far_ends<S: Scalar>(q: Quaternion<S>, other: Quaternion<S>)
    requires
        exact::<S>(),
        !slerp_threshold::<S>().lt(q.dot(&other)),
        S::one().neg().lt(q.dot(&other)),
    ensures
        q.slerp(&other, S::zero()) == q,
        q.slerp(&other, S::one()) == other,
{
    let val = exact_reading::<S>();
    let dot = q.dot(&other);
    lemma_far_sine(dot);
    let theta: Rad<S> = acos(dot);
    let sine = sin(theta);
    let sn = val(sine);
    assert(sn != 0real);
    let rc = val(sine.recip());
    assert(rc * sn == 1real);
    let t = val(theta.s);

    // the two angles at either end: all of theta, and none of it
    let whole0 = theta.s.mul(S::one().sub(S::zero()));
    let none0 = theta.s.mul(S::zero());
    let none1 = theta.s.mul(S::one().sub(S::one()));
    let whole1 = theta.s.mul(S::one());
    lemma_scaled(t, val(S::one().sub(S::zero())), 1real);
    lemma_scaled(t, val(S::one().sub(S::one())), 0real);
    lemma_times_one(t);
    lemma_mul_commutes(t, 0real);
    lemma_zero_times(0real, t);
    assert(val(whole0) == t && val(whole1) == t);
    assert(val(none0) == 0real && val(none1) == 0real);
    assert(whole0 == theta.s && whole1 == theta.s);
    assert(val(none0.sin()) == 0real && val(none1.sin()) == 0real);

    let (fs, fx, fy, fz) = (val(q.s), val(q.v.x), val(q.v.y), val(q.v.z));
    let (gs, gx, gy, gz) = (val(other.s), val(other.v.x), val(other.v.y), val(other.v.z));

    // amount zero
    let blend0 = q.mul_s(whole0.sin()).add_q(&other.mul_s(none0.sin()));
    lemma_zero_times(val(none0.sin()), gs);
    lemma_zero_times(val(none0.sin()), gx);
    lemma_zero_times(val(none0.sin()), gy);
    lemma_zero_times(val(none0.sin()), gz);
    lemma_mul_commutes(val(none0.sin()), gs);
    lemma_mul_commutes(val(none0.sin()), gx);
    lemma_mul_commutes(val(none0.sin()), gy);
    lemma_mul_commutes(val(none0.sin()), gz);
    assert(val(blend0.s) == fs * sn && val(blend0.v.x) == fx * sn && val(blend0.v.y) == fy * sn
        && val(blend0.v.z) == fz * sn);
    let r0 = blend0.mul_s(sine.recip());
    lemma_scaled_left(val(blend0.s), fs * sn, rc);
    lemma_scaled_left(val(blend0.v.x), fx * sn, rc);
    lemma_scaled_left(val(blend0.v.y), fy * sn, rc);
    lemma_scaled_left(val(blend0.v.z), fz * sn, rc);
    lemma_cancel_factor(fs, sn, rc);
    lemma_cancel_factor(fx, sn, rc);
    lemma_cancel_factor(fy, sn, rc);
    lemma_cancel_factor(fz, sn, rc);
    assert(val(r0.s) == fs && val(r0.v.x) == fx && val(r0.v.y) == fy && val(r0.v.z) == fz);
    assert(r0 == q);
    assert(q.slerp(&other, S::zero()) == r0);

    // amount one
    let blend1 = q.mul_s(none1.sin()).add_q(&other.mul_s(whole1.sin()));
    lemma_zero_times(val(none1.sin()), fs);
    lemma_zero_times(val(none1.sin()), fx);
    lemma_zero_times(val(none1.sin()), fy);
    lemma_zero_times(val(none1.sin()), fz);
    lemma_mul_commutes(val(none1.sin()), fs);
    lemma_mul_commutes(val(none1.sin()), fx);
    lemma_mul_commutes(val(none1.sin()), fy);
    lemma_mul_commutes(val(none1.sin()), fz);
    assert(val(blend1.s) == gs * sn && val(blend1.v.x) == gx * sn && val(blend1.v.y) == gy * sn
        && val(blend1.v.z) == gz * sn);
    let r1 = blend1.mul_s(sine.recip());
    lemma_scaled_left(val(blend1.s), gs * sn, rc);
    lemma_scaled_left(val(blend1.v.x), gx * sn, rc);
    lemma_scaled_left(val(blend1.v.y), gy * sn, rc);
    lemma_scaled_left(val(blend1.v.z), gz * sn, rc);
    lemma_cancel_factor(gs, sn, rc);
    lemma_cancel_factor(gx, sn, rc);
    lemma_cancel_factor(gy, sn, rc);
    lemma_cancel_factor(gz, sn, rc);
    assert(val(r1.s) == gs && val(r1.v.x) == gx && val(r1.v.y) == gy && val(r1.v.z) == gz);
    assert(r1 == other);
    assert(q.slerp(&other, S::one()) == r1);
}

/// Spherical interpolation between two quaternions of magnitude 1 that are
/// not opposite begins at the first and ends at the second, as normalized
/// linear interpolation does. For opposite quaternions the sine of the angle
/// between them is zero and the law does not hold.
pub proof fn lemma_slerp_ends<S: Scalar>(q: Quaternion<S>, other: Quaternion<S>)
    requires
        exact::<S>(),
        q.magnitude2() == S::one(),
        other.magnitude2() == S::one(),
        S::one().neg().lt(q.dot(&other)),
    ensures
        q.slerp(&other, S::zero()) == q.normalize(),
        q.slerp(&other, S::one()) == other.normalize(),
        q.slerp(&other, S::zero()) == q.nlerp(&other, S::zero()),
        q.slerp(&other, S::one()) == q.nlerp(&other, S::one()),
{
    lemma_nlerp_ends(q, other);
    lemma_unit_is_normalized(q);
    lemma_unit_is_normalized(other);
    if !slerp_threshold::<S>().lt(q.dot(&other)) {
        lemma_slerp_far_ends(q, other);
    }
}

/// Why no rotation is found between opposite vectors: for a vector `a` of
/// length 1 and its opposite, the quaternion `(1 + a.b) + (a x b)` that
/// `between_vectors` normalizes is of magnitude zero.
pub proof fn lemma_opposite_vectors_degenerate<S: Scalar>(a: Vector3<S>)
    requires
        exact::<S>(),
        a.length2() == S::one(),
    ensures
        Quaternion::from_sv(S::one().add(a.dot(&a.neg())), a.cross(&a.neg())).magnitude2()
            == S::zero(),
{
    let val = exact_reading::<S>();
    let b = a.neg();
    let q = Quaternion::from_sv(S::one().add(a.dot(&b)), a.cross(&b));
    let (x, y, z) = (val(a.x), val(a.y), val(a.z));
    assert(val(a.length2()) == 1real);
    assert((x * x + y * y) + z * z == 1real);
    lemma_mul_signs(x, x);
    lemma_mul_signs(y, y);
    lemma_mul_signs(z, z);
    assert(val(a.dot(&b)) == -1real);
    assert(val(q.s) == 0real);
    lemma_mul_signs(y, z);
    lemma_mul_signs(z, y);
    lemma_mul_signs(z, x);
    lemma_mul_signs(x, z);
    lemma_mul_signs(x, y);
    lemma_mul_signs(y, x);
    lemma_mul_commutes(y, z);
    lemma_mul_commutes(z, x);
    lemma_mul_commutes(x, y);
    assert(val(q.v.x) == 0real && val(q.v.y) == 0real && val(q.v.z) == 0real);
    lemma_zero_times(val(q.s), val(q.s));
    lemma_zero_times(val(q.v.x), val(q.v.x));
    lemma_zero_times(val(q.v.y), val(q.v.y));
    lemma_zero_times(val(q.v.z), val(q.v.z));
    assert(val(q.magnitude2()) == 0real);
}

/// About an axis of length 1, every angle gives a quaternion of magnitude 1.
pub proof fn lemma_axis_angle_unit<S: Scalar>(axis: Vector3<S>, angle: Rad<S>)
    requires
        exact::<S>(),
        axis.length2() == S::one(),
    ensures
        Quaternion::<S>::from_axis_angle(&axis, angle).magnitude2() == S::one(),
{
    let val = exact_reading::<S>();
    let q = Quaternion::<S>::from_axis_angle(&axis, angle);
    let h = angle.mul_s(half::<S>());
    let sn = val(h.s.sin());
    let c = val(h.s.cos());
    let (x, y, z) = (val(axis.x), val(axis.y), val(axis.z));
    assert(val(axis.length2()) == 1real);
    assert((x * x + y * y) + z * z == 1real);
    assert(sn * sn + c * c == 1real);
    assert(val(q.s) == c);
    assert(val(q.v.x) == x * sn && val(q.v.y) == y * sn && val(q.v.z) == z * sn);
    lemma_scaled_unit_square(x, y, z, sn);
    assert(val(q.magnitude2()) == c * c + (((x * sn) * (x * sn) + (y * sn) * (y * sn)) + (z * sn)
        * (z * sn)));
    assert(val(q.magnitude2()) == 1real);
}

} // verus!
