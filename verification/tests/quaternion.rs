use cgmath::{
    acos, cos, rad, render, sin, sin_cos, Basis3, Matrix3, Matrix4, Point2, Point3, Quaternion,
    Rotation, Rotation3, Scalar, ToBasis3, ToMatrix3, ToMatrix4, ToQuaternion, Vector3, Vector4,
};

/// A double-precision scalar. The functions named `*_spec` exist for proofs
/// only and are never called.
#[derive(Clone, Copy, Debug, PartialEq)]
struct F(f64);

impl Scalar for F {
    fn zero_spec() -> F {
        unreachable!()
    }

    fn one_spec() -> F {
        unreachable!()
    }

    fn from_int_spec(_: i32) -> F {
        unreachable!()
    }

    fn neg_spec(self) -> F {
        unreachable!()
    }

    fn add_spec(self, _: F) -> F {
        unreachable!()
    }

    fn sub_spec(self, _: F) -> F {
        unreachable!()
    }

    fn mul_spec(self, _: F) -> F {
        unreachable!()
    }

    fn div_spec(self, _: F) -> F {
        unreachable!()
    }

    fn recip_spec(self) -> F {
        unreachable!()
    }

    fn sqrt_spec(self) -> F {
        unreachable!()
    }

    fn sin_spec(self) -> F {
        unreachable!()
    }

    fn cos_spec(self) -> F {
        unreachable!()
    }

    fn acos_spec(self) -> F {
        unreachable!()
    }

    fn lt_spec(self, _: F) -> bool {
        unreachable!()
    }

    fn le_spec(self, _: F) -> bool {
        unreachable!()
    }

    fn zero() -> F {
        F(0.0)
    }

    fn one() -> F {
        F(1.0)
    }

    fn from_int(n: i32) -> F {
        F(f64::from(n))
    }

    fn neg(self) -> F {
        F(-self.0)
    }

    fn add(self, rhs: F) -> F {
        F(self.0 + rhs.0)
    }

    fn sub(self, rhs: F) -> F {
        F(self.0 - rhs.0)
    }

    fn mul(self, rhs: F) -> F {
        F(self.0 * rhs.0)
    }

    fn div(self, rhs: F) -> F {
        F(self.0 / rhs.0)
    }

    fn recip(self) -> F {
        F(self.0.recip())
    }

    fn sqrt(self) -> F {
        F(self.0.sqrt())
    }

    fn sin(self) -> F {
        F(self.0.sin())
    }

    fn cos(self) -> F {
        F(self.0.cos())
    }

    fn acos(self) -> F {
        F(self.0.acos())
    }

    fn lt(self, rhs: F) -> bool {
        self.0 < rhs.0
    }

    fn le(self, rhs: F) -> bool {
        self.0 <= rhs.0
    }
}

const TOLERANCE: f64 = 1e-12;

fn quat(s: f64, x: f64, y: f64, z: f64) -> Quaternion<F> {
    Quaternion::new(F(s), F(x), F(y), F(z))
}

fn vec3(x: f64, y: f64, z: f64) -> Vector3<F> {
    Vector3::new(F(x), F(y), F(z))
}

fn close(a: F, b: f64) -> bool {
    (a.0 - b).abs() <= TOLERANCE
}

fn quat_close(q: Quaternion<F>, s: f64, x: f64, y: f64, z: f64) -> bool {
    close(q.s, s) && close(q.v.x, x) && close(q.v.y, y) && close(q.v.z, z)
}

fn vec_close(v: Vector3<F>, x: f64, y: f64, z: f64) -> bool {
    close(v.x, x) && close(v.y, y) && close(v.z, z)
}

#[test]
fn new_and_from_sv_hold_what_they_are_given() {
    let q = quat(1.0, 2.0, 3.0, 4.0);
    assert_eq!(q.s, F(1.0));
    assert_eq!(q.v, vec3(2.0, 3.0, 4.0));
    assert_eq!(Quaternion::from_sv(F(1.0), vec3(2.0, 3.0, 4.0)), q);
}

#[test]
fn zero_and_identity() {
    assert_eq!(Quaternion::<F>::zero(), quat(0.0, 0.0, 0.0, 0.0));
    assert_eq!(Quaternion::<F>::identity(), quat(1.0, 0.0, 0.0, 0.0));
    let by_trait: Quaternion<F> = Rotation::identity();
    assert_eq!(by_trait, quat(1.0, 0.0, 0.0, 0.0));
}

#[test]
fn scaling_touches_all_four_components() {
    let q = quat(1.0, 2.0, 3.0, 4.0);
    assert_eq!(q.mul_s(F(2.0)), quat(2.0, 4.0, 6.0, 8.0));
    assert_eq!(q.div_s(F(2.0)), quat(0.5, 1.0, 1.5, 2.0));
}

#[test]
fn division_by_zero_is_not_trapped() {
    let q = quat(1.0, -2.0, 0.0, 4.0).div_s(F(0.0));
    assert_eq!(q.s.0, f64::INFINITY);
    assert_eq!(q.v.x.0, f64::NEG_INFINITY);
    assert!(q.v.y.0.is_nan());
    assert_eq!(q.v.z.0, f64::INFINITY);
}

#[test]
fn sum_and_difference_are_componentwise() {
    let a = quat(1.0, 2.0, 3.0, 4.0);
    let b = quat(5.0, 6.0, 7.0, 8.0);
    assert_eq!(a.add_q(&b), quat(6.0, 8.0, 10.0, 12.0));
    assert_eq!(a.sub_q(&b), quat(-4.0, -4.0, -4.0, -4.0));
    assert_eq!(b.sub_q(&a), quat(4.0, 4.0, 4.0, 4.0));
}

#[test]
fn hamilton_product_exact_values() {
    let a = quat(1.0, 2.0, 3.0, 4.0);
    let b = quat(5.0, 6.0, 7.0, 8.0);
    assert_eq!(a.mul_q(&b), quat(-60.0, 12.0, 30.0, 24.0));
    assert_eq!(b.mul_q(&a), quat(-60.0, 20.0, 14.0, 32.0));
    assert_ne!(a.mul_q(&b), b.mul_q(&a));
}

#[test]
fn units_multiply_as_hamilton_wrote() {
    let i = quat(0.0, 1.0, 0.0, 0.0);
    let j = quat(0.0, 0.0, 1.0, 0.0);
    let k = quat(0.0, 0.0, 0.0, 1.0);
    assert_eq!(i.mul_q(&j), k);
    assert_eq!(j.mul_q(&k), i);
    assert_eq!(k.mul_q(&i), j);
    assert_eq!(j.mul_q(&i), quat(0.0, 0.0, 0.0, -1.0));
    assert_eq!(i.mul_q(&i), quat(-1.0, 0.0, 0.0, 0.0));
}

#[test]
fn in_place_variants_leave_what_the_pure_ones_return() {
    let a = quat(1.0, 2.0, 3.0, 4.0);
    let b = quat(5.0, 6.0, 7.0, 8.0);

    let mut q = a;
    q.mul_self_s(F(2.0));
    assert_eq!(q, quat(2.0, 4.0, 6.0, 8.0));

    let mut q = a;
    q.div_self_s(F(2.0));
    assert_eq!(q, quat(0.5, 1.0, 1.5, 2.0));

    let mut q = a;
    q.add_self_q(&b);
    assert_eq!(q, quat(6.0, 8.0, 10.0, 12.0));

    let mut q = a;
    q.sub_self_q(&b);
    assert_eq!(q, quat(-4.0, -4.0, -4.0, -4.0));

    let mut q = a;
    q.mul_self_q(&b);
    assert_eq!(q, quat(-60.0, 12.0, 30.0, 24.0));

    let mut q = a;
    q.concat_self(&b);
    assert_eq!(q, quat(-60.0, 12.0, 30.0, 24.0));

    let mut q = quat(0.0, 2.0, 0.0, 0.0);
    q.invert_self();
    assert_eq!(q, quat(0.0, -0.5, 0.0, 0.0));
}

#[test]
fn dot_conjugate_and_negation() {
    let a = quat(1.0, 2.0, 3.0, 4.0);
    let b = quat(5.0, 6.0, 7.0, 8.0);
    assert_eq!(a.dot(&b), F(70.0));
    assert_eq!(a.conjugate(), quat(1.0, -2.0, -3.0, -4.0));
    assert_eq!(a.neg(), quat(-1.0, -2.0, -3.0, -4.0));
}

#[test]
fn magnitude2_scenarios() {
    assert_eq!(quat(1.0, 0.0, 0.0, 0.0).magnitude2(), F(1.0));
    assert_eq!(quat(0.0, 1.0, 0.0, 0.0).magnitude2(), F(1.0));
    assert_eq!(quat(1.0, 1.0, 1.0, 1.0).magnitude2(), F(4.0));
}

#[test]
fn magnitude_is_the_root_of_magnitude2() {
    assert_eq!(quat(1.0, 1.0, 1.0, 1.0).magnitude(), F(2.0));
    assert_eq!(quat(0.0, 3.0, 0.0, 4.0).magnitude(), F(5.0));
}

#[test]
fn normalize_gives_magnitude_one() {
    let n = quat(1.0, 1.0, 1.0, 1.0).normalize();
    assert_eq!(n, quat(0.5, 0.5, 0.5, 0.5));
    assert_eq!(n.magnitude(), F(1.0));
    assert_eq!(n.normalize(), n);

    let m = quat(1.0, 2.0, 3.0, 4.0).normalize();
    assert!(close(m.magnitude(), 1.0));
    let again = m.normalize();
    assert!(quat_close(again, m.s.0, m.v.x.0, m.v.y.0, m.v.z.0));
}

#[test]
fn normalize_of_zero_divides_by_zero() {
    let n = Quaternion::<F>::zero().normalize();
    assert!(n.s.0.is_nan());
    assert!(n.v.x.0.is_nan());
    assert!(n.v.y.0.is_nan());
    assert!(n.v.z.0.is_nan());
}

#[test]
fn identity_laws_on_a_sample() {
    let q = quat(0.5, -0.5, 0.5, 0.5);
    let one = Quaternion::<F>::identity();
    assert_eq!(q.concat(&one), q);
    assert_eq!(one.concat(&q), q);
}

#[test]
fn inverse_law_on_samples() {
    let unit = quat(0.5, -0.5, 0.5, 0.5);
    assert_eq!(unit.concat(&unit.invert()), Quaternion::identity());
    assert_eq!(unit.invert().concat(&unit), Quaternion::identity());

    let q = quat(0.0, 2.0, 0.0, 0.0);
    assert_eq!(q.invert(), quat(0.0, -0.5, 0.0, 0.0));
    assert_eq!(q.concat(&q.invert()), Quaternion::identity());

    let r = quat(1.0, 2.0, 3.0, 4.0);
    let p = r.concat(&r.invert());
    assert!(quat_close(p, 1.0, 0.0, 0.0, 0.0));
}

#[test]
fn conjugate_magnitude_relation_on_a_sample() {
    let q = quat(1.0, 2.0, 3.0, 4.0);
    assert_eq!(q.magnitude2(), F(30.0));
    assert_eq!(q.mul_q(&q.conjugate()), Quaternion::from_sv(q.magnitude2(), Vector3::zero()));
}

#[test]
fn nlerp_exact_and_boundary_values() {
    let a = quat(1.0, 0.0, 0.0, 0.0);
    let b = quat(0.0, 1.0, 0.0, 0.0);
    let half = a.nlerp(&b, F(0.5));
    let root_half = 0.5f64.sqrt();
    assert!(quat_close(half, root_half, root_half, 0.0, 0.0));
    assert_eq!(a.nlerp(&b, F(0.0)), a);
    assert_eq!(a.nlerp(&b, F(1.0)), b);

    let long = quat(2.0, 0.0, 0.0, 0.0);
    assert_eq!(long.nlerp(&b, F(0.0)), long.normalize());
    assert_eq!(long.nlerp(&b, F(0.0)), a);
}

#[test]
fn slerp_far_branch_exact_and_boundary_values() {
    let a = quat(1.0, 0.0, 0.0, 0.0);
    let b = quat(0.0, 1.0, 0.0, 0.0);
    let root_half = 0.5f64.sqrt();
    assert!(quat_close(a.slerp(&b, F(0.5)), root_half, root_half, 0.0, 0.0));
    // a third of a right angle: cos 30 and sin 30
    assert!(quat_close(a.slerp(&b, F(1.0 / 3.0)), 0.75f64.sqrt(), 0.5, 0.0, 0.0));
    assert!(quat_close(a.slerp(&b, F(0.0)), 1.0, 0.0, 0.0, 0.0));
    assert!(quat_close(a.slerp(&b, F(1.0)), 0.0, 1.0, 0.0, 0.0));
}

#[test]
fn slerp_differs_from_nlerp_when_far() {
    let a = quat(1.0, 0.0, 0.0, 0.0);
    let b = quat(0.0, 1.0, 0.0, 0.0);
    let s = a.slerp(&b, F(0.25));
    let n = a.nlerp(&b, F(0.25));
    // slerp: cos and sin of 22.5 degrees; nlerp: (0.75, 0.25) normalized
    assert!(quat_close(s, 0.9238795325112867, 0.3826834323650898, 0.0, 0.0));
    assert!(quat_close(n, 0.9486832980505138, 0.31622776601683794, 0.0, 0.0));
}

#[test]
fn slerp_near_branch_is_nlerp() {
    let a = quat(1.0, 0.0, 0.0, 0.0);
    // cos and sin of 0.01 radians: the dot product is above 0.9995
    let b = quat(0.01f64.cos(), 0.01f64.sin(), 0.0, 0.0);
    assert!(a.dot(&b).0 > 0.9995);
    for step in 0..=10 {
        let t = F(f64::from(step) / 10.0);
        assert_eq!(a.slerp(&b, t), a.nlerp(&b, t));
    }
    assert_eq!(a.slerp(&a, F(0.3)), a);
}

#[test]
fn slerp_threshold_is_not_itself_near() {
    // a dot product of exactly 9995 / 10000 takes the far branch
    let a = quat(1.0, 0.0, 0.0, 0.0);
    let d = 9995.0f64 / 10000.0;
    let b = quat(d, (1.0 - d * d).sqrt(), 0.0, 0.0);
    assert_eq!(a.dot(&b), F(d));
    let theta = d.acos();
    let expect = (theta * 0.5).sin() / theta.sin();
    let r = a.slerp(&b, F(0.5));
    assert!(close(r.s, expect + expect * d));
    assert!(close(r.v.x, expect * (1.0 - d * d).sqrt()));
}

#[test]
fn slerp_between_opposite_quaternions_is_singular() {
    let a = quat(1.0, 0.0, 0.0, 0.0);
    let b = quat(-1.0, 0.0, 0.0, 0.0);
    let r = a.slerp(&b, F(0.5));
    // sin(pi) is not exactly zero in floating point; its reciprocal is huge
    assert!(!(r.magnitude().0 <= 1.0 + 1e-6 && r.magnitude().0 >= 1.0 - 1e-6));
}

#[test]
fn to_matrix3_exact_entries() {
    let m = quat(0.5, 0.5, 0.5, 0.5).to_matrix3();
    assert_eq!(m.x, vec3(0.0, 1.0, 0.0));
    assert_eq!(m.y, vec3(0.0, 0.0, 1.0));
    assert_eq!(m.z, vec3(1.0, 0.0, 0.0));

    // a quarter turn about z in halves of a square root: columns are the
    // images of the axes
    let h = 0.5f64.sqrt();
    let n = quat(h, 0.0, 0.0, h).to_matrix3();
    assert!(vec_close(n.x, 0.0, 1.0, 0.0));
    assert!(vec_close(n.y, -1.0, 0.0, 0.0));
    assert!(vec_close(n.z, 0.0, 0.0, 1.0));

    // each entry by its formula, on a quaternion that is not symmetric
    let q = quat(1.0, 2.0, 3.0, 4.0).to_matrix3();
    assert_eq!(q.x, vec3(1.0 - 18.0 - 32.0, 12.0 + 8.0, 16.0 - 6.0));
    assert_eq!(q.y, vec3(12.0 - 8.0, 1.0 - 8.0 - 32.0, 24.0 + 4.0));
    assert_eq!(q.z, vec3(16.0 + 6.0, 24.0 - 4.0, 1.0 - 8.0 - 18.0));
}

#[test]
fn to_matrix4_embeds_the_three_by_three() {
    let q = quat(1.0, 2.0, 3.0, 4.0);
    let m3 = q.to_matrix3();
    let m4 = q.to_matrix4();
    let zero = F(0.0);
    assert_eq!(m4.x, Vector4 { x: m3.x.x, y: m3.x.y, z: m3.x.z, w: zero });
    assert_eq!(m4.y, Vector4 { x: m3.y.x, y: m3.y.y, z: m3.y.z, w: zero });
    assert_eq!(m4.z, Vector4 { x: m3.z.x, y: m3.z.y, z: m3.z.z, w: zero });
    assert_eq!(m4.w, Vector4 { x: zero, y: zero, z: zero, w: F(1.0) });
    assert_eq!(m4.x, Vector4 { x: F(-49.0), y: F(20.0), z: F(10.0), w: zero });
}

#[test]
fn matrix_constructors_take_columns() {
    let m = Matrix3::new(F(1.0), F(2.0), F(3.0), F(4.0), F(5.0), F(6.0), F(7.0), F(8.0), F(9.0));
    assert_eq!(m.x, vec3(1.0, 2.0, 3.0));
    assert_eq!(m.y, vec3(4.0, 5.0, 6.0));
    assert_eq!(m.z, vec3(7.0, 8.0, 9.0));
    assert_eq!(m, Matrix3::from_cols(vec3(1.0, 2.0, 3.0), vec3(4.0, 5.0, 6.0), vec3(7.0, 8.0, 9.0)));
    assert_eq!(m.trace(), F(15.0));
    // rows times the vector
    assert_eq!(m.mul_v(&vec3(1.0, 0.0, 0.0)), vec3(1.0, 2.0, 3.0));
    assert_eq!(m.mul_v(&vec3(1.0, 1.0, 1.0)), vec3(12.0, 15.0, 18.0));

    let n = Matrix4::new(
        F(1.0), F(2.0), F(3.0), F(4.0), F(5.0), F(6.0), F(7.0), F(8.0), F(9.0), F(10.0), F(11.0),
        F(12.0), F(13.0), F(14.0), F(15.0), F(16.0),
    );
    assert_eq!(n.x, Vector4 { x: F(1.0), y: F(2.0), z: F(3.0), w: F(4.0) });
    assert_eq!(n.w, Vector4 { x: F(13.0), y: F(14.0), z: F(15.0), w: F(16.0) });
}

#[test]
fn matrix_and_quaternion_rotate_alike() {
    let q = quat(0.5, 0.5, 0.5, 0.5);
    let m = q.to_matrix3();
    let samples = [
        vec3(1.0, 0.0, 0.0),
        vec3(0.0, 1.0, 0.0),
        vec3(0.0, 0.0, 1.0),
        vec3(1.0, 2.0, 3.0),
        vec3(-4.0, 0.5, 2.0),
    ];
    for v in samples.iter() {
        assert_eq!(m.mul_v(v), q.rotate_vector(v));
    }
    assert_eq!(q.rotate_vector(&vec3(1.0, 0.0, 0.0)), vec3(0.0, 1.0, 0.0));
    assert_eq!(q.rotate_vector(&vec3(1.0, 2.0, 3.0)), vec3(3.0, 1.0, 2.0));

    let r = quat(1.0, 2.0, 3.0, 4.0).normalize();
    let n = r.to_matrix3();
    for v in samples.iter() {
        let a = n.mul_v(v);
        let b = r.rotate_vector(v);
        assert!(vec_close(a, b.x.0, b.y.0, b.z.0));
    }
}

#[test]
fn mul_v_and_rotate_vector_agree() {
    let q = quat(0.5, 0.5, 0.5, 0.5);
    let v = vec3(1.0, 0.0, 0.0);
    assert_eq!(q.mul_v(&v), vec3(0.0, 1.0, 0.0));
    assert_eq!(q.mul_v(&v), q.rotate_vector(&v));
}

#[test]
fn quarter_turn_about_z_takes_x_to_y() {
    let q: Quaternion<F> =
        Rotation3::from_axis_angle(&vec3(0.0, 0.0, 1.0), rad(F(std::f64::consts::FRAC_PI_2)));
    assert!(quat_close(q, 0.5f64.sqrt(), 0.0, 0.0, 0.5f64.sqrt()));
    let r = q.rotate_vector(&vec3(1.0, 0.0, 0.0));
    assert!(vec_close(r, 0.0, 1.0, 0.0));
}

#[test]
fn rotation_about_an_axis_fixes_the_axis() {
    let axis = vec3(2.0 / 3.0, -1.0 / 3.0, 2.0 / 3.0);
    for step in 0..12 {
        let angle = rad(F(f64::from(step) * 0.5));
        let q: Quaternion<F> = Rotation3::from_axis_angle(&axis, angle);
        assert!(close(q.magnitude(), 1.0));
        let r = q.rotate_vector(&axis);
        assert!(vec_close(r, axis.x.0, axis.y.0, axis.z.0));
    }
}

#[test]
fn from_euler_exact_values() {
    let none: Quaternion<F> = Rotation3::from_euler(rad(F(0.0)), rad(F(0.0)), rad(F(0.0)));
    assert_eq!(none, quat(1.0, 0.0, 0.0, 0.0));

    let h = 0.5f64.sqrt();
    let quarter = std::f64::consts::FRAC_PI_2;
    // one angle at a time: half-angle cosine in the scalar part, half-angle
    // sine in the component that the formula gives that angle
    let x: Quaternion<F> = Rotation3::from_euler(rad(F(quarter)), rad(F(0.0)), rad(F(0.0)));
    assert!(quat_close(x, h, 0.0, h, 0.0));
    let y: Quaternion<F> = Rotation3::from_euler(rad(F(0.0)), rad(F(quarter)), rad(F(0.0)));
    assert!(quat_close(y, h, 0.0, 0.0, h));
    let z: Quaternion<F> = Rotation3::from_euler(rad(F(0.0)), rad(F(0.0)), rad(F(quarter)));
    assert!(quat_close(z, h, h, 0.0, 0.0));

    // all three at a quarter turn: every half-angle sine and cosine is h
    let all: Quaternion<F> =
        Rotation3::from_euler(rad(F(quarter)), rad(F(quarter)), rad(F(quarter)));
    let hhh = h * h * h;
    assert!(quat_close(all, hhh + hhh, 0.0, hhh + hhh, 0.0));
    assert!(close(all.magnitude(), 1.0));
}

#[test]
fn between_vectors_turns_the_first_onto_the_second() {
    let a = vec3(1.0, 0.0, 0.0);
    let b = vec3(0.0, 1.0, 0.0);
    let q: Quaternion<F> = Rotation::between_vectors(&a, &b);
    let h = 0.5f64.sqrt();
    assert!(quat_close(q, h, 0.0, 0.0, h));
    assert!(vec_close(q.rotate_vector(&a), 0.0, 1.0, 0.0));

    let same: Quaternion<F> = Rotation::between_vectors(&a, &a);
    assert_eq!(same, quat(1.0, 0.0, 0.0, 0.0));
}

#[test]
fn between_opposite_vectors_is_singular() {
    let a = vec3(1.0, 0.0, 0.0);
    let b = vec3(-1.0, 0.0, 0.0);
    let before = Quaternion::from_sv(F(1.0 + a.dot(&b).0), a.cross(&b));
    assert_eq!(before.magnitude2(), F(0.0));
    let q: Quaternion<F> = Rotation::between_vectors(&a, &b);
    assert!(q.s.0.is_nan());
    assert!(q.v.x.0.is_nan());
    assert!(q.v.y.0.is_nan());
    assert!(q.v.z.0.is_nan());
}

#[test]
fn matrix_to_quaternion_by_each_branch() {
    // trace zero or more
    let q = quat(0.5, 0.5, 0.5, 0.5);
    assert_eq!(q.to_matrix3().to_quaternion(), q);
    assert_eq!(Quaternion::<F>::identity().to_matrix3().to_quaternion(), Quaternion::identity());
    // half turns: the trace is -1 and the largest diagonal entry decides
    let i = quat(0.0, 1.0, 0.0, 0.0);
    assert_eq!(i.to_matrix3().x, vec3(1.0, 0.0, 0.0));
    assert_eq!(i.to_matrix3().y, vec3(0.0, -1.0, 0.0));
    assert_eq!(i.to_matrix3().to_quaternion(), i);
    let j = quat(0.0, 0.0, 1.0, 0.0);
    assert_eq!(j.to_matrix3().to_quaternion(), j);
    let k = quat(0.0, 0.0, 0.0, 1.0);
    assert_eq!(k.to_matrix3().to_quaternion(), k);
    // off the axes
    let r = quat(0.1, 0.7, 0.5, 0.5);
    assert!(close(r.magnitude2(), 1.0));
    let back = r.to_matrix3().to_quaternion();
    assert!(quat_close(back, 0.1, 0.7, 0.5, 0.5));
}

#[test]
fn look_at_builds_a_basis_and_converts_it() {
    let dir = vec3(0.0, 0.0, 2.0);
    let up = vec3(0.0, 3.0, 0.0);
    let m = Matrix3::look_at(&dir, &up);
    assert_eq!(m.z, vec3(0.0, 0.0, 1.0));
    assert_eq!(m.y, vec3(-1.0, 0.0, 0.0));
    assert_eq!(m.x, vec3(0.0, 1.0, 0.0));
    let q: Quaternion<F> = Rotation::look_at(&dir, &up);
    let h = 0.5f64.sqrt();
    assert!(quat_close(q, h, 0.0, 0.0, h));
    assert_eq!(q, m.to_quaternion());
}

#[test]
fn conversions_of_a_quaternion() {
    let q = quat(0.5, 0.5, 0.5, 0.5);
    assert_eq!(q.to_quaternion(), q);
    let b: Basis3<F> = q.to_rot3();
    assert_eq!(b, Basis3::from_quaternion(&q));
    assert_eq!(*b.as_matrix3(), q.to_matrix3());
}

#[test]
fn vector_operations_exact_values() {
    let a = vec3(1.0, 2.0, 3.0);
    let b = vec3(4.0, 5.0, 6.0);
    assert_eq!(Vector3::<F>::zero(), vec3(0.0, 0.0, 0.0));
    assert_eq!(a.add_v(&b), vec3(5.0, 7.0, 9.0));
    assert_eq!(a.mul_s(F(2.0)), vec3(2.0, 4.0, 6.0));
    assert_eq!(a.div_s(F(2.0)), vec3(0.5, 1.0, 1.5));
    assert_eq!(a.neg(), vec3(-1.0, -2.0, -3.0));
    assert_eq!(a.dot(&b), F(32.0));
    assert_eq!(a.cross(&b), vec3(-3.0, 6.0, -3.0));
    assert_eq!(b.cross(&a), vec3(3.0, -6.0, 3.0));
    assert_eq!(a.length2(), F(14.0));
    assert_eq!(vec3(3.0, 0.0, 4.0).length(), F(5.0));
    assert_eq!(vec3(3.0, 0.0, 4.0).normalize(), vec3(3.0 * 0.2, 0.0, 4.0 * 0.2));
}

#[test]
fn written_form_of_a_quaternion() {
    assert_eq!(render("1", "2", "3", "4"), "1 + 2i + 3j + 4k");
    assert_eq!(render("0.5", "-1", "0", "2.25"), "0.5 + -1i + 0j + 2.25k");
    assert_eq!(render("", "", "", ""), " + i + j + k");
    let q = quat(1.0, 2.5, -3.0, 0.0);
    let text = render(
        &format!("{}", q.s.0),
        &format!("{}", q.v.x.0),
        &format!("{}", q.v.y.0),
        &format!("{}", q.v.z.0),
    );
    assert_eq!(text, "1 + 2.5i + -3j + 0k");
}

#[test]
fn points_hold_their_coordinates() {
    let p = Point2::new(F(1.0), F(2.0));
    assert_eq!(p.x, F(1.0));
    assert_eq!(p.y, F(2.0));
    let q = Point3::new(F(1.0), F(2.0), F(3.0));
    assert_eq!(q.x, F(1.0));
    assert_eq!(q.y, F(2.0));
    assert_eq!(q.z, F(3.0));
    assert_eq!(q, Point3 { x: F(1.0), y: F(2.0), z: F(3.0) });
}

#[test]
fn angles_and_their_functions() {
    let quarter = rad(F(std::f64::consts::FRAC_PI_2));
    assert_eq!(quarter.s, F(std::f64::consts::FRAC_PI_2));
    assert_eq!(quarter.mul_s(F(2.0)).s, F(std::f64::consts::PI));
    assert!(close(sin(quarter), 1.0));
    assert!(close(cos(quarter), 0.0));
    let (s, c) = sin_cos(rad(F(0.0)));
    assert_eq!(s, F(0.0));
    assert_eq!(c, F(1.0));
    assert_eq!(acos(F(1.0)).s, F(0.0));
    assert!(close(acos(F(0.0)).s, std::f64::consts::FRAC_PI_2));
}

#[test]
fn matrix_round_trip_over_many_rotations() {
    // unit quaternions all over the sphere, so that each of the four ways of
    // taking the root is met with components that are not zero
    let mut by_scalar = 0;
    let mut by_x = 0;
    let mut by_y = 0;
    let mut by_z = 0;
    for a in -3..=3 {
        for b in -3..=3 {
            for c in -3..=3 {
                for d in -3..=3 {
                    if a == 0 && b == 0 && c == 0 && d == 0 {
                        continue;
                    }
                    let q = quat(f64::from(a), f64::from(b), f64::from(c), f64::from(d))
                        .normalize();
                    let m = q.to_matrix3();
                    let trace = m.trace().0;
                    if trace >= 0.0 {
                        by_scalar += 1;
                    } else if m.x.x.0 > m.y.y.0 && m.x.x.0 > m.z.z.0 {
                        by_x += 1;
                    } else if m.y.y.0 > m.z.z.0 {
                        by_y += 1;
                    } else {
                        by_z += 1;
                    }
                    let back = m.to_quaternion();
                    let same = quat_close(back, q.s.0, q.v.x.0, q.v.y.0, q.v.z.0);
                    let opposite = quat_close(back, -q.s.0, -q.v.x.0, -q.v.y.0, -q.v.z.0);
                    assert!(same || opposite, "{:?} came back as {:?}", q, back);
                    // either way it is the same rotation
                    let v = vec3(1.0, 2.0, 3.0);
                    let turned = q.rotate_vector(&v);
                    assert!(vec_close(back.rotate_vector(&v), turned.x.0, turned.y.0, turned.z.0));
                }
            }
        }
    }
    assert!(by_scalar > 100 && by_x > 100 && by_y > 100 && by_z > 100);
}

#[test]
fn between_vectors_over_many_pairs() {
    let mut pairs = 0;
    for a in -2..=2 {
        for b in -2..=2 {
            for c in -2..=2 {
                for d in -2..=2 {
                    for e in -2..=2 {
                        for f in -2..=2 {
                            if (a == 0 && b == 0 && c == 0) || (d == 0 && e == 0 && f == 0) {
                                continue;
                            }
                            let from = vec3(f64::from(a), f64::from(b), f64::from(c)).normalize();
                            let to = vec3(f64::from(d), f64::from(e), f64::from(f)).normalize();
                            // leave out the pairs that are opposite, or nearly
                            if from.dot(&to).0 < -0.99 {
                                continue;
                            }
                            let q: Quaternion<F> = Rotation::between_vectors(&from, &to);
                            assert!((q.magnitude().0 - 1.0).abs() < 1e-9);
                            let turned = q.rotate_vector(&from);
                            assert!((turned.x.0 - to.x.0).abs() < 1e-9);
                            assert!((turned.y.0 - to.y.0).abs() < 1e-9);
                            assert!((turned.z.0 - to.z.0).abs() < 1e-9);
                            pairs += 1;
                        }
                    }
                }
            }
        }
    }
    assert!(pairs > 10000);
}

#[test]
fn from_euler_is_of_magnitude_one() {
    for a in -6..=6 {
        for b in -6..=6 {
            for c in -6..=6 {
                let q: Quaternion<F> = Rotation3::from_euler(
                    rad(F(f64::from(a) * 0.5)),
                    rad(F(f64::from(b) * 0.5)),
                    rad(F(f64::from(c) * 0.5)),
                );
                assert!(close(q.magnitude2(), 1.0));
            }
        }
    }
}

#[test]
fn slerp_keeps_magnitude_one_and_even_steps() {
    // between unit quaternions a third of a turn apart, ten even steps: each
    // result is of magnitude 1 and as far from the one before as the rest
    let a = quat(1.0, 0.0, 0.0, 0.0);
    let b: Quaternion<F> = Rotation3::from_axis_angle(
        &vec3(0.0, 0.0, 1.0),
        rad(F(2.0 * std::f64::consts::FRAC_PI_3)),
    );
    let mut before = a;
    let mut first_step = None;
    for step in 1..=10 {
        let q = a.slerp(&b, F(f64::from(step) / 10.0));
        assert!(close(q.magnitude(), 1.0));
        let cosine = before.dot(&q).0;
        match first_step {
            None => first_step = Some(cosine),
            Some(c) => assert!((cosine - c).abs() < 1e-12),
        }
        before = q;
    }
    assert!(quat_close(before, b.s.0, b.v.x.0, b.v.y.0, b.v.z.0));
}
