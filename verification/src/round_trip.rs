//! From a quaternion to its matrix and back.

use crate::matrix::{Matrix3, ToMatrix3};
use crate::quaternion::{half, Quaternion, ToQuaternion};
use crate::real_algebra::{
    lemma_double, lemma_extracted_all, lemma_mul_commutes, lemma_scaled_left,
    lemma_square_nonnegative, lemma_zero_times,
};
use crate::scalar::{exact, exact_reading, exact_under, Scalar};
use vstd::prelude::*;

verus! {

/// One half times two is one.
proof fn lemma_half<S: Scalar>(val: spec_fn(S) -> real)
    requires
        exact_under::<S>(val),
    ensures
        val(half::<S>()) * 2real == 1real,
{
    assert(val(S::from_int(2)) == 2real);
}

/// The entries of the matrix of a quaternion, read as real numbers.
proof fn lemma_entries<S: Scalar>(val: spec_fn(S) -> real, q: Quaternion<S>)
    requires
        exact_under::<S>(val),
    ensures
        ({
            let m = q.to_matrix3();
            let (s, x, y, z) = (val(q.s), val(q.v.x), val(q.v.y), val(q.v.z));
            &&& val(m.x.x) == 1real - 2real * (y * y) - 2real * (z * z)
            &&& val(m.y.y) == 1real - 2real * (x * x) - 2real * (z * z)
            &&& val(m.z.z) == 1real - 2real * (x * x) - 2real * (y * y)
            &&& val(m.x.y) == 2real * (x * y) + 2real * (z * s)
            &&& val(m.y.x) == 2real * (x * y) - 2real * (z * s)
            &&& val(m.x.z) == 2real * (x * z) - 2real * (y * s)
            &&& val(m.z.x) == 2real * (x * z) + 2real * (y * s)
            &&& val(m.y.z) == 2real * (y * z) + 2real * (x * s)
            &&& val(m.z.y) == 2real * (y * z) - 2real * (x * s)
            &&& val(m.trace()) == 3real - 4real * (x * x) - 4real * (y * y) - 4real * (z * z)
            &&& x * x >= 0real && y * y >= 0real && z * z >= 0real && s * s >= 0real
        }),
{
    let (s, x, y, z) = (val(q.s), val(q.v.x), val(q.v.y), val(q.v.z));
    lemma_double(x, x);
    lemma_double(y, y);
    lemma_double(z, z);
    lemma_double(x, y);
    lemma_double(x, z);
    lemma_double(y, z);
    lemma_double(x, s);
    lemma_double(y, s);
    lemma_double(z, s);
    lemma_square_nonnegative(s);
    lemma_square_nonnegative(x);
    lemma_square_nonnegative(y);
    lemma_square_nonnegative(z);
}

/// A quaternion whose four components read as those of `q`, or as their
/// opposites, is `q` or the opposite of `q`.
proof fn lemma_same_or_opposite<S: Scalar>(
    val: spec_fn(S) -> real,
    q: Quaternion<S>,
    r: Quaternion<S>,
)
    requires
        exact_under::<S>(val),
        ({
            &&& val(r.s) == val(q.s)
            &&& val(r.v.x) == val(q.v.x)
            &&& val(r.v.y) == val(q.v.y)
            &&& val(r.v.z) == val(q.v.z)
        }) || ({
            &&& val(r.s) == -val(q.s)
            &&& val(r.v.x) == -val(q.v.x)
            &&& val(r.v.y) == -val(q.v.y)
            &&& val(r.v.z) == -val(q.v.z)
        }),
    ensures
        r == q || r == q.neg(),
{
    let n = q.neg();
    assert(val(n.s) == -val(q.s) && val(n.v.x) == -val(q.v.x) && val(n.v.y) == -val(q.v.y)
        && val(n.v.z) == -val(q.v.z));
}

/// The round trip where the trace is zero or more: the scalar part is found
/// by the root.
proof fn lemma_by_scalar<S: Scalar>(val: spec_fn(S) -> real, q: Quaternion<S>)
    requires
        exact_under::<S>(val),
        q.magnitude2() == S::one(),
        S::zero().le(q.to_matrix3().trace()),
    ensures
        q.to_matrix3().to_quaternion() == q || q.to_matrix3().to_quaternion() == q.neg(),
{
    let m = q.to_matrix3();
    let r = m.to_quaternion();
    let (s, x, y, z) = (val(q.s), val(q.v.x), val(q.v.y), val(q.v.z));
    lemma_entries(val, q);
    lemma_half::<S>(val);
    assert(val(q.magnitude2()) == 1real);
    assert(s * s + ((x * x + y * y) + z * z) == 1real);
    assert(0real <= val(m.trace()));

    let root_s = S::one().add(m.trace()).sqrt();
    let root = val(root_s);
    assert(val(S::one().add(m.trace())) == 4real * (s * s));
    assert(root >= 0real && root * root == 4real * (s * s));
    if root == 0real {
        lemma_zero_times(root, root);
        assert(false);
    }
    let hf = val(half::<S>());
    let scale = val(half::<S>().div(root_s));
    assert(scale * root == hf);

    lemma_mul_commutes(x, s);
    lemma_mul_commutes(y, s);
    lemma_mul_commutes(z, s);
    let dx = val(m.y.z.sub(m.z.y));
    let dy = val(m.z.x.sub(m.x.z));
    let dz = val(m.x.y.sub(m.y.x));
    lemma_scaled_left(dx, 4real * (s * x), scale);
    lemma_scaled_left(dy, 4real * (s * y), scale);
    lemma_scaled_left(dz, 4real * (s * z), scale);
    assert(val(r.s) == hf * root);
    assert(val(r.v.x) == (4real * (s * x)) * scale);
    assert(val(r.v.y) == (4real * (s * y)) * scale);
    assert(val(r.v.z) == (4real * (s * z)) * scale);
    lemma_extracted_all(s, x, y, z, root, scale, hf);
    lemma_same_or_opposite(val, q, r);
}

/// The round trip where the first diagonal entry is the largest: the `i`
/// component is found by the root.
proof fn lemma_by_x<S: Scalar>(val: spec_fn(S) -> real, q: Quaternion<S>)
    requires
        exact_under::<S>(val),
        q.magnitude2() == S::one(),
        !S::zero().le(q.to_matrix3().trace()),
        q.to_matrix3().y.y.lt(q.to_matrix3().x.x),
        q.to_matrix3().z.z.lt(q.to_matrix3().x.x),
    ensures
        q.to_matrix3().to_quaternion() == q || q.to_matrix3().to_quaternion() == q.neg(),
{
    let m = q.to_matrix3();
    let r = m.to_quaternion();
    let (s, x, y, z) = (val(q.s), val(q.v.x), val(q.v.y), val(q.v.z));
    lemma_entries(val, q);
    lemma_half::<S>(val);
    assert(val(m.y.y) < val(m.x.x));
    assert(y * y < x * x);

    let arg = m.x.x.sub(m.y.y).sub(m.z.z).add(S::one());
    let root_s = arg.sqrt();
    let root = val(root_s);
    assert(val(arg) == 4real * (x * x));
    assert(root >= 0real && root * root == 4real * (x * x));
    if root == 0real {
        lemma_zero_times(root, root);
        assert(false);
    }
    let hf = val(half::<S>());
    let scale = val(half::<S>().div(root_s));
    assert(scale * root == hf);

    let dw = val(m.y.z.sub(m.z.y));
    let dy = val(m.y.x.add(m.x.y));
    let dz = val(m.x.z.add(m.z.x));
    lemma_scaled_left(dw, 4real * (x * s), scale);
    lemma_scaled_left(dy, 4real * (x * y), scale);
    lemma_scaled_left(dz, 4real * (x * z), scale);
    assert(val(r.v.x) == hf * root);
    assert(val(r.s) == (4real * (x * s)) * scale);
    assert(val(r.v.y) == (4real * (x * y)) * scale);
    assert(val(r.v.z) == (4real * (x * z)) * scale);
    lemma_extracted_all(x, s, y, z, root, scale, hf);
    lemma_same_or_opposite(val, q, r);
}

/// The round trip where the second diagonal entry decides: the `j` component
/// is found by the root.
proof fn lemma_by_y<S: Scalar>(val: spec_fn(S) -> real, q: Quaternion<S>)
    requires
        exact_under::<S>(val),
        q.magnitude2() == S::one(),
        !S::zero().le(q.to_matrix3().trace()),
        !(q.to_matrix3().y.y.lt(q.to_matrix3().x.x) && q.to_matrix3().z.z.lt(
            q.to_matrix3().x.x,
        )),
        q.to_matrix3().z.z.lt(q.to_matrix3().y.y),
    ensures
        q.to_matrix3().to_quaternion() == q || q.to_matrix3().to_quaternion() == q.neg(),
{
    let m = q.to_matrix3();
    let r = m.to_quaternion();
    let (s, x, y, z) = (val(q.s), val(q.v.x), val(q.v.y), val(q.v.z));
    lemma_entries(val, q);
    lemma_half::<S>(val);
    assert(val(m.z.z) < val(m.y.y));
    assert(z * z < y * y);

    let arg = m.y.y.sub(m.x.x).sub(m.z.z).add(S::one());
    let root_s = arg.sqrt();
    let root = val(root_s);
    assert(val(arg) == 4real * (y * y));
    assert(root >= 0real && root * root == 4real * (y * y));
    if root == 0real {
        lemma_zero_times(root, root);
        assert(false);
    }
    let hf = val(half::<S>());
    let scale = val(half::<S>().div(root_s));
    assert(scale * root == hf);

    lemma_mul_commutes(x, y);
    let dw = val(m.z.x.sub(m.x.z));
    let dx = val(m.y.x.add(m.x.y));
    let dz = val(m.z.y.add(m.y.z));
    lemma_scaled_left(dw, 4real * (y * s), scale);
    lemma_scaled_left(dx, 4real * (y * x), scale);
    lemma_scaled_left(dz, 4real * (y * z), scale);
    assert(val(r.v.y) == hf * root);
    assert(val(r.s) == (4real * (y * s)) * scale);
    assert(val(r.v.x) == (4real * (y * x)) * scale);
    assert(val(r.v.z) == (4real * (y * z)) * scale);
    lemma_extracted_all(y, s, x, z, root, scale, hf);
    lemma_same_or_opposite(val, q, r);
}

/// The round trip in the case that is left: the `k` component is found by
/// the root.
proof fn lemma_by_z<S: Scalar>(val: spec_fn(S) -> real, q: Quaternion<S>)
    requires
        exact_under::<S>(val),
        q.magnitude2() == S::one(),
        !S::zero().le(q.to_matrix3().trace()),
        !(q.to_matrix3().y.y.lt(q.to_matrix3().x.x) && q.to_matrix3().z.z.lt(
            q.to_matrix3().x.x,
        )),
        !q.to_matrix3().z.z.lt(q.to_matrix3().y.y),
    ensures
        q.to_matrix3().to_quaternion() == q || q.to_matrix3().to_quaternion() == q.neg(),
{
    let m = q.to_matrix3();
    let r = m.to_quaternion();
    let (s, x, y, z) = (val(q.s), val(q.v.x), val(q.v.y), val(q.v.z));
    lemma_entries(val, q);
    lemma_half::<S>(val);
    assert(val(q.magnitude2()) == 1real);
    assert(s * s + ((x * x + y * y) + z * z) == 1real);
    assert(!(0real <= val(m.trace())));
    assert(!(val(m.z.z) < val(m.y.y)));
    assert(!(val(m.y.y) < val(m.x.x) && val(m.z.z) < val(m.x.x)));
    assert(y * y <= z * z);
    assert(x * x <= z * z);
    assert(z * z > 0real);

    let arg = m.z.z.sub(m.x.x).sub(m.y.y).add(S::one());
    let root_s = arg.sqrt();
    let root = val(root_s);
    assert(val(arg) == 4real * (z * z));
    assert(root >= 0real && root * root == 4real * (z * z));
    if root == 0real {
        lemma_zero_times(root, root);
        assert(false);
    }
    let hf = val(half::<S>());
    let scale = val(half::<S>().div(root_s));
    assert(scale * root == hf);

    lemma_mul_commutes(x, z);
    lemma_mul_commutes(y, z);
    let dw = val(m.x.y.sub(m.y.x));
    let dx = val(m.x.z.add(m.z.x));
    let dy = val(m.z.y.add(m.y.z));
    lemma_scaled_left(dw, 4real * (z * s), scale);
    lemma_scaled_left(dx, 4real * (z * x), scale);
    lemma_scaled_left(dy, 4real * (z * y), scale);
    assert(val(r.v.z) == hf * root);
    assert(val(r.s) == (4real * (z * s)) * scale);
    assert(val(r.v.x) == (4real * (z * x)) * scale);
    assert(val(r.v.y) == (4real * (z * y)) * scale);
    lemma_extracted_all(z, s, x, y, root, scale, hf);
    lemma_same_or_opposite(val, q, r);
}

/// The matrix of a quaternion of magnitude 1, turned back into a quaternion,
/// is that quaternion or its opposite, which stands for the same rotation.
pub proof fn lemma_matrix_round_trip<S: Scalar>(q: Quaternion<S>)
    requires
        exact::<S>(),
        q.magnitude2() == S::one(),
    ensures
        q.to_matrix3().to_quaternion() == q || q.to_matrix3().to_quaternion() == q.neg(),
{
    let val = exact_reading::<S>();
    let m: Matrix3<S> = q.to_matrix3();
    if S::zero().le(m.trace()) {
        lemma_by_scalar(val, q);
    } else if m.y.y.lt(m.x.x) && m.z.z.lt(m.x.x) {
        lemma_by_x(val, q);
    } else if m.z.z.lt(m.y.y) {
        lemma_by_y(val, q);
    } else {
        lemma_by_z(val, q);
    }
}

} // verus!
