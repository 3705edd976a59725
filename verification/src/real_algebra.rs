//! Facts of real arithmetic that the laws of quaternions rest on.

use vstd::prelude::*;

verus! {

/// A product is zero only where a factor is.
pub proof fn lemma_zero_product(a: real, m: real)
    requires
        a * m == 0real,
        m != 0real,
    ensures
        a == 0real,
{
    assert(a == 0real) by (nonlinear_arith)
        requires
            a * m == 0real,
            m != 0real,
    ;
}

/// Multiplication distributes over a sum and over a difference.
pub proof fn lemma_distribute(k: real, a: real, b: real)
    ensures
        k * (a + b) == k * a + k * b,
        k * (a - b) == k * a - k * b,
{
    assert(k * (a + b) == k * a + k * b) by (nonlinear_arith);
    assert(k * (a - b) == k * a - k * b) by (nonlinear_arith);
}

/// Multiplication commutes.
pub proof fn lemma_mul_commutes(a: real, b: real)
    ensures
        a * b == b * a,
{
    assert(a * b == b * a) by (nonlinear_arith);
}

/// Multiplication associates.
pub proof fn lemma_mul_associates(a: real, b: real, c: real)
    ensures
        (a * b) * c == a * (b * c),
{
    assert((a * b) * c == a * (b * c)) by (nonlinear_arith);
}

/// A factor in front of a product can be moved behind it.
pub proof fn lemma_mul_rotate(m: real, c: real, i: real)
    ensures
        m * (c * i) == c * (i * m),
{
    assert(m * (c * i) == c * (i * m)) by (nonlinear_arith);
}

/// Equal factors give equal products.
pub proof fn lemma_scaled(c: real, u: real, v: real)
    requires
        u == v,
    ensures
        c * u == c * v,
{
}

/// A sum of four products whose second factors are quotients by `m`: where
/// `i1 .. i4` times `m` are `v1 .. v4`, and the sum over the `v` is `t` times
/// `m`, the sum over the `i` is `t`.
pub proof fn lemma_sum_of_quotients(
    c1: real,
    c2: real,
    c3: real,
    c4: real,
    i1: real,
    i2: real,
    i3: real,
    i4: real,
    v1: real,
    v2: real,
    v3: real,
    v4: real,
    m: real,
    t: real,
)
    requires
        m != 0real,
        i1 * m == v1,
        i2 * m == v2,
        i3 * m == v3,
        i4 * m == v4,
        c1 * v1 + c2 * v2 + c3 * v3 + c4 * v4 == t * m,
    ensures
        c1 * i1 + c2 * i2 + c3 * i3 + c4 * i4 == t,
{
    let e = c1 * i1 + c2 * i2 + c3 * i3 + c4 * i4;
    lemma_distribute(m, e, t);
    lemma_distribute(m, c1 * i1 + c2 * i2 + c3 * i3, c4 * i4);
    lemma_distribute(m, c1 * i1 + c2 * i2, c3 * i3);
    lemma_distribute(m, c1 * i1, c2 * i2);
    lemma_mul_rotate(m, c1, i1);
    lemma_mul_rotate(m, c2, i2);
    lemma_mul_rotate(m, c3, i3);
    lemma_mul_rotate(m, c4, i4);
    lemma_scaled(c1, i1 * m, v1);
    lemma_scaled(c2, i2 * m, v2);
    lemma_scaled(c3, i3 * m, v3);
    lemma_scaled(c4, i4 * m, v4);
    lemma_mul_commutes(m, t);
    assert(m * (e - t) == 0real);
    lemma_mul_commutes(m, e - t);
    lemma_zero_product(e - t, m);
}

/// A sign can be moved out of either factor, and two signs cancel.
pub proof fn lemma_mul_signs(a: real, b: real)
    ensures
        (-a) * b == -(a * b),
        a * (-b) == -(a * b),
        (-a) * (-b) == a * b,
{
    assert((-a) * b == -(a * b)) by (nonlinear_arith);
    assert(a * (-b) == -(a * b)) by (nonlinear_arith);
    assert((-a) * (-b) == a * b) by (nonlinear_arith);
}

/// The scalar part of a quaternion times its conjugate over its squared
/// magnitude `m` is 1, in either order of the factors.
pub proof fn lemma_inverse_scalar_part(
    s: real,
    x: real,
    y: real,
    z: real,
    m: real,
    is: real,
    ix: real,
    iy: real,
    iz: real,
)
    requires
        m != 0real,
        m == s * s + (x * x + y * y + z * z),
        is * m == s,
        ix * m == -x,
        iy * m == -y,
        iz * m == -z,
    ensures
        s * is - x * ix - y * iy - z * iz == 1real,
        is * s - ix * x - iy * y - iz * z == 1real,
{
    lemma_mul_signs(x, x);
    lemma_mul_signs(y, y);
    lemma_mul_signs(z, z);
    assert(s * s + (-x) * (-x) + (-y) * (-y) + (-z) * (-z) == 1real * m);
    lemma_sum_of_quotients(s, -x, -y, -z, is, ix, iy, iz, s, -x, -y, -z, m, 1real);
    lemma_mul_signs(x, ix);
    lemma_mul_signs(y, iy);
    lemma_mul_signs(z, iz);
    lemma_mul_commutes(s, is);
    lemma_mul_commutes(x, ix);
    lemma_mul_commutes(y, iy);
    lemma_mul_commutes(z, iz);
}

/// One component of the vector part of a quaternion times its conjugate
/// over its squared magnitude `m` is 0, in either order of the factors. Here
/// `a`, `b`, `c` are the three vector components, rotated so that `a` is the
/// one in question.
pub proof fn lemma_inverse_vector_part(
    s: real,
    a: real,
    b: real,
    c: real,
    m: real,
    is: real,
    ia: real,
    ib: real,
    ic: real,
)
    requires
        m != 0real,
        is * m == s,
        ia * m == -a,
        ib * m == -b,
        ic * m == -c,
    ensures
        s * ia + a * is + b * ic - c * ib == 0real,
        is * a + ia * s + ib * c - ic * b == 0real,
{
    lemma_mul_signs(s, a);
    lemma_mul_signs(b, c);
    lemma_mul_signs(c, b);
    lemma_mul_commutes(a, s);
    lemma_mul_commutes(c, b);
    assert(s * (-a) + a * s + b * (-c) + (-c) * (-b) == 0real * m);
    lemma_sum_of_quotients(s, a, b, -c, ia, is, ic, ib, -a, s, -c, -b, m, 0real);
    lemma_mul_signs(c, ib);

    assert(a * s + s * (-a) + c * (-b) + (-b) * (-c) == 0real * m);
    lemma_sum_of_quotients(a, s, c, -b, is, ia, ib, ic, s, -a, -b, -c, m, 0real);
    lemma_mul_signs(b, ic);
    lemma_mul_commutes(a, is);
    lemma_mul_commutes(s, ia);
    lemma_mul_commutes(c, ib);
    lemma_mul_commutes(b, ic);
}

/// Zero times anything is zero.
pub proof fn lemma_zero_times(a: real, b: real)
    requires
        a == 0real,
    ensures
        a * b == 0real,
{
    assert(0real * b == 0real) by (nonlinear_arith);
}

/// A component of the cross product of two parallel vectors: with `a` and `b`
/// two components of one vector, scaled by `k` and by `l`, the two products
/// that the cross product subtracts are equal.
pub proof fn lemma_parallel_cross(a: real, b: real, k: real, l: real)
    ensures
        (a * k) * (b * l) - (b * k) * (a * l) == 0real,
{
    assert((a * k) * (b * l) - (b * k) * (a * l) == 0real) by (nonlinear_arith);
}

/// Doubling one factor doubles the product.
pub proof fn lemma_double(a: real, b: real)
    ensures
        (a + a) * b == 2real * (a * b),
{
    assert((a + a) * b == 2real * (a * b)) by (nonlinear_arith);
}

/// A product of three factors does not depend on their order.
pub proof fn lemma_three_factors(a: real, b: real, c: real)
    ensures
        a * (b * c) == (a * b) * c,
        a * (b * c) == b * (a * c),
        a * (b * c) == c * (a * b),
        a * (b * c) == a * (c * b),
{
    assert(a * (b * c) == (a * b) * c) by (nonlinear_arith);
    assert(a * (b * c) == b * (a * c)) by (nonlinear_arith);
    assert(a * (b * c) == c * (a * b)) by (nonlinear_arith);
    assert(a * (b * c) == a * (c * b)) by (nonlinear_arith);
}

/// Multiplication distributes over a sum of three.
pub proof fn lemma_distribute3(k: real, a: real, b: real, c: real)
    ensures
        k * ((a - b) + c) == k * a - k * b + k * c,
        ((a - b) - c) * k == a * k - b * k - c * k,
        (a - b) * k == a * k - b * k,
        (a + b) * k == a * k + b * k,
{
    lemma_distribute(k, a - b, c);
    lemma_distribute(k, a, b);
    lemma_mul_commutes((a - b) - c, k);
    lemma_mul_commutes(a - b, k);
    lemma_mul_commutes(a + b, k);
    lemma_mul_commutes(a, k);
    lemma_mul_commutes(b, k);
    lemma_mul_commutes(c, k);
}

/// A doubled factor can be doubled after the product.
pub proof fn lemma_twice(p: real, k: real)
    ensures
        (2real * p) * k == 2real * (p * k),
{
    assert((2real * p) * k == 2real * (p * k)) by (nonlinear_arith);
}

/// One row of a rotation matrix at work. With `(s, a, b, c)` a quaternion
/// whose vector part is rotated so that `a` is the component in question, and
/// `e0`, `e1`, `e2` the entries of the matching row, the row times the vector
/// `(va, vb, vc)` is the same component of the vector turned by the
/// quaternion.
pub proof fn lemma_rotation_row(
    s: real,
    a: real,
    b: real,
    c: real,
    va: real,
    vb: real,
    vc: real,
    e0: real,
    e1: real,
    e2: real,
)
    requires
        e0 == 1real - 2real * (b * b) - 2real * (c * c),
        e1 == 2real * (a * b) - 2real * (c * s),
        e2 == 2real * (a * c) + 2real * (b * s),
    ensures
        e0 * va + e1 * vb + e2 * vc == (b * ((a * vb - b * va) + vc * s) - c * ((c * va - a * vc)
            + vb * s)) * 2real + va,
{
    // the turned vector, multiplied out
    lemma_distribute3(b, a * vb, b * va, vc * s);
    lemma_distribute3(c, c * va, a * vc, vb * s);
    // the row, multiplied out
    lemma_scaled(va, e0, 1real - 2real * (b * b) - 2real * (c * c));
    lemma_mul_commutes(va, e0);
    lemma_mul_commutes(va, 1real - 2real * (b * b) - 2real * (c * c));
    lemma_distribute3(va, 1real, 2real * (b * b), 2real * (c * c));
    lemma_scaled(vb, e1, 2real * (a * b) - 2real * (c * s));
    lemma_mul_commutes(vb, e1);
    lemma_mul_commutes(vb, 2real * (a * b) - 2real * (c * s));
    lemma_distribute3(vb, 2real * (a * b), 2real * (c * s), 0real);
    lemma_scaled(vc, e2, 2real * (a * c) + 2real * (b * s));
    lemma_mul_commutes(vc, e2);
    lemma_mul_commutes(vc, 2real * (a * c) + 2real * (b * s));
    lemma_distribute3(vc, 2real * (a * c), 2real * (b * s), 0real);
    assert(1real * va == va) by (nonlinear_arith);
    // each term of the row is twice a product of three
    lemma_twice(b * b, va);
    lemma_twice(c * c, va);
    lemma_twice(a * b, vb);
    lemma_twice(c * s, vb);
    lemma_twice(a * c, vc);
    lemma_twice(b * s, vc);
    assert(e0 * va == va - 2real * ((b * b) * va) - 2real * ((c * c) * va));
    assert(e1 * vb == 2real * ((a * b) * vb) - 2real * ((c * s) * vb));
    assert(e2 * vc == 2real * ((a * c) * vc) + 2real * ((b * s) * vc));
    // and the products of three agree
    lemma_three_factors(b, b, va);
    lemma_three_factors(c, c, va);
    lemma_three_factors(b, a, vb);
    lemma_mul_commutes(a, b);
    lemma_three_factors(c, vb, s);
    lemma_mul_commutes(vb, s);
    lemma_three_factors(c, s, vb);
    lemma_three_factors(c, a, vc);
    lemma_mul_commutes(a, c);
    lemma_three_factors(b, vc, s);
    lemma_mul_commutes(vc, s);
    lemma_three_factors(b, s, vc);
}

/// A square is never negative.
pub proof fn lemma_square_nonnegative(a: real)
    ensures
        a * a >= 0real,
{
    assert(a * a >= 0real) by (nonlinear_arith);
}

/// One is the unit of multiplication.
pub proof fn lemma_times_one(a: real)
    ensures
        a * 1real == a,
        1real * a == a,
{
    assert(a * 1real == a) by (nonlinear_arith);
    assert(1real * a == a) by (nonlinear_arith);
}

/// The only number that is not negative and whose square is 1 is 1.
pub proof fn lemma_unit_root(r: real)
    requires
        r >= 0real,
        r * r == 1real,
    ensures
        r == 1real,
{
    assert(r == 1real) by (nonlinear_arith)
        requires
            r >= 0real,
            r * r == 1real,
    ;
}

/// The square of a product is the product of the squares.
pub proof fn lemma_square_of_product(a: real, k: real)
    ensures
        (a * k) * (a * k) == (a * a) * (k * k),
{
    assert((a * k) * (a * k) == (a * a) * (k * k)) by (nonlinear_arith);
}

/// The squared magnitude of a quaternion scaled by the reciprocal of its
/// magnitude is 1. Here `m2` is the squared magnitude of `(s, x, y, z)`, `mag`
/// its root and `k` the reciprocal of `mag`.
pub proof fn lemma_normalized_square(
    s: real,
    x: real,
    y: real,
    z: real,
    m2: real,
    mag: real,
    k: real,
)
    requires
        m2 == s * s + ((x * x + y * y) + z * z),
        mag * mag == m2,
        k * mag == 1real,
    ensures
        (s * k) * (s * k) + (((x * k) * (x * k) + (y * k) * (y * k)) + (z * k) * (z * k)) == 1real,
{
    let kk = k * k;
    lemma_square_of_product(s, k);
    lemma_square_of_product(x, k);
    lemma_square_of_product(y, k);
    lemma_square_of_product(z, k);
    lemma_mul_commutes(s * s, kk);
    lemma_mul_commutes(x * x, kk);
    lemma_mul_commutes(y * y, kk);
    lemma_mul_commutes(z * z, kk);
    lemma_distribute(kk, s * s, (x * x + y * y) + z * z);
    lemma_distribute(kk, x * x + y * y, z * z);
    lemma_distribute(kk, x * x, y * y);
    lemma_scaled(kk, s * s + ((x * x + y * y) + z * z), m2);
    assert((s * k) * (s * k) + (((x * k) * (x * k) + (y * k) * (y * k)) + (z * k) * (z * k)) == kk
        * m2);
    lemma_scaled(kk, m2, mag * mag);
    lemma_square_of_product(k, mag);
    lemma_scaled(k * mag, k * mag, 1real);
    lemma_times_one(k * mag);
}

/// Equal first factors give equal products.
pub proof fn lemma_scaled_left(u: real, v: real, c: real)
    requires
        u == v,
    ensures
        u * c == v * c,
{
}

/// A number strictly between -1 and 1 has a square below 1.
pub proof fn lemma_square_below_one(d: real)
    requires
        -1real < d < 1real,
    ensures
        d * d < 1real,
{
    assert(d * d < 1real) by (nonlinear_arith)
        requires
            -1real < d < 1real,
    ;
}

/// Multiplying by a number and then by its reciprocal changes nothing.
pub proof fn lemma_cancel_factor(a: real, sn: real, rc: real)
    requires
        rc * sn == 1real,
    ensures
        (a * sn) * rc == a,
{
    lemma_mul_associates(a, sn, rc);
    lemma_mul_commutes(sn, rc);
    lemma_scaled(a, sn * rc, 1real);
    lemma_times_one(a);
}

/// A vector of length 1 scaled by `k` has the squared length `k * k`.
pub proof fn lemma_scaled_unit_square(x: real, y: real, z: real, k: real)
    requires
        (x * x + y * y) + z * z == 1real,
    ensures
        ((x * k) * (x * k) + (y * k) * (y * k)) + (z * k) * (z * k) == k * k,
{
    let kk = k * k;
    lemma_square_of_product(x, k);
    lemma_square_of_product(y, k);
    lemma_square_of_product(z, k);
    lemma_mul_commutes(x * x, kk);
    lemma_mul_commutes(y * y, kk);
    lemma_mul_commutes(z * z, kk);
    lemma_distribute(kk, x * x + y * y, z * z);
    lemma_distribute(kk, x * x, y * y);
    lemma_scaled(kk, (x * x + y * y) + z * z, 1real);
    lemma_times_one(kk);
}

/// Where a product is zero, one of its factors is.
pub proof fn lemma_zero_factor(a: real, b: real)
    requires
        a * b == 0real,
    ensures
        a == 0real || b == 0real,
{
    if b != 0real {
        lemma_zero_product(a, b);
    }
}

/// A number whose square is four times the square of `c` is twice `c` or
/// twice its opposite.
pub proof fn lemma_root_is_twice(root: real, c: real)
    requires
        root * root == 4real * (c * c),
    ensures
        root == 2real * c || root == -(2real * c),
{
    assert((root - 2real * c) * (root + 2real * c) == root * root - 4real * (c * c))
        by (nonlinear_arith);
    lemma_zero_factor(root - 2real * c, root + 2real * c);
}

/// Taking a component of a quaternion back out of its matrix. With `root`
/// twice the leading component `p`, `half` one half and `scale` one half
/// over `root`: half of `root` is `p`, and four times the product of `p` and
/// another component `o`, times `scale`, is `o`.
pub proof fn lemma_extracted(p: real, o: real, root: real, scale: real, half: real)
    requires
        half * 2real == 1real,
        scale * root == half,
        root == 2real * p,
    ensures
        half * root == p,
        (4real * (p * o)) * scale == o,
{
    // half * root == half * (2 p) == (half * 2) * p == p
    lemma_scaled(half, root, 2real * p);
    lemma_mul_associates(half, 2real, p);
    lemma_scaled_left(half * 2real, 1real, p);
    lemma_times_one(p);
    assert(half * root == p);
    // scale * (4 p) == 2 * (scale * root) == 2 * half == 1
    lemma_scaled(scale, root, 2real * p);
    lemma_mul_associates(scale, 2real, p);
    lemma_mul_commutes(scale, 2real);
    lemma_mul_associates(2real, scale, p);
    assert(2real * (scale * p) == half);
    lemma_mul_commutes(half, 2real);
    assert(4real * (scale * p) == 1real);
    // (4 (p o)) scale == o * (4 (scale p)) == o
    lemma_mul_commutes(4real * (p * o), scale);
    lemma_mul_associates(scale, 4real, p * o);
    lemma_mul_commutes(scale, 4real);
    lemma_mul_associates(4real, scale, p * o);
    lemma_mul_associates(scale, p, o);
    lemma_scaled(4real, scale * (p * o), (scale * p) * o);
    lemma_mul_associates(4real, scale * p, o);
    lemma_scaled_left(4real * (scale * p), 1real, o);
    lemma_times_one(o);
}

/// Taking a whole quaternion back out of its matrix. With `lead` the
/// component found by a square root, `root` that root, and `o1`, `o2`, `o3`
/// the other three components: all four come back as they were, or all four
/// with their signs changed.
pub proof fn lemma_extracted_all(
    lead: real,
    o1: real,
    o2: real,
    o3: real,
    root: real,
    scale: real,
    half: real,
)
    requires
        half * 2real == 1real,
        scale * root == half,
        root * root == 4real * (lead * lead),
    ensures
        ({
            &&& half * root == lead
            &&& (4real * (lead * o1)) * scale == o1
            &&& (4real * (lead * o2)) * scale == o2
            &&& (4real * (lead * o3)) * scale == o3
        }) || ({
            &&& half * root == -lead
            &&& (4real * (lead * o1)) * scale == -o1
            &&& (4real * (lead * o2)) * scale == -o2
            &&& (4real * (lead * o3)) * scale == -o3
        }),
{
    lemma_root_is_twice(root, lead);
    if root == 2real * lead {
        lemma_extracted(lead, o1, root, scale, half);
        lemma_extracted(lead, o2, root, scale, half);
        lemma_extracted(lead, o3, root, scale, half);
    } else {
        let p = -lead;
        lemma_extracted(p, o1, root, scale, half);
        lemma_extracted(p, o2, root, scale, half);
        lemma_extracted(p, o3, root, scale, half);
        lemma_mul_signs(lead, o1);
        lemma_mul_signs(lead, o2);
        lemma_mul_signs(lead, o3);
        lemma_scaled_left(4real * (p * o1), -(4real * (lead * o1)), scale);
        lemma_scaled_left(4real * (p * o2), -(4real * (lead * o2)), scale);
        lemma_scaled_left(4real * (p * o3), -(4real * (lead * o3)), scale);
        lemma_mul_signs(4real * (lead * o1), scale);
        lemma_mul_signs(4real * (lead * o2), scale);
        lemma_mul_signs(4real * (lead * o3), scale);
    }
}

} // verus!
