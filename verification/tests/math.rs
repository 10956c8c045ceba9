use radar::math::angle::{
    half_angle_radians, opening_angle, to_degrees, to_radians, vertical_half_tangent,
};
use radar::math::mat4::Mat4;
use radar::math::scalar::Scalar;
use radar::math::transform::{rotate, rotation_from_sin_cos, scale, translation};
use radar::math::vec2::Vec2;
use radar::math::vec3::Vec3;
use radar::math::vec4::Vec4;

/// IEEE-754 single precision as the library's number type.
#[derive(Clone, Copy, Debug, PartialEq)]
struct Real(f32);

impl Scalar for Real {
    fn zero_spec() -> Self {
        Self::zero()
    }

    fn one_spec() -> Self {
        Self::one()
    }

    fn from_u32_spec(n: u32) -> Self {
        Self::from_u32(n)
    }

    fn pi_spec() -> Self {
        Self::pi()
    }

    fn plus_spec(self, rhs: Self) -> Self {
        self.plus(rhs)
    }

    fn minus_spec(self, rhs: Self) -> Self {
        self.minus(rhs)
    }

    fn times_spec(self, rhs: Self) -> Self {
        self.times(rhs)
    }

    fn over_spec(self, rhs: Self) -> Self {
        self.over(rhs)
    }

    fn negate_spec(self) -> Self {
        self.negate()
    }

    fn sqrt_spec(self) -> Self {
        self.sqrt()
    }

    fn is_positive_spec(self) -> bool {
        self.is_positive()
    }

    fn equals_spec(self, rhs: Self) -> bool {
        self.equals(rhs)
    }

    fn zero() -> Self {
        Real(0.0)
    }

    fn one() -> Self {
        Real(1.0)
    }

    fn from_u32(n: u32) -> Self {
        Real(n as f32)
    }

    fn pi() -> Self {
        Real(std::f32::consts::PI)
    }

    fn plus(self, rhs: Self) -> Self {
        Real(self.0 + rhs.0)
    }

    fn minus(self, rhs: Self) -> Self {
        Real(self.0 - rhs.0)
    }

    fn times(self, rhs: Self) -> Self {
        Real(self.0 * rhs.0)
    }

    fn over(self, rhs: Self) -> Self {
        Real(self.0 / rhs.0)
    }

    fn negate(self) -> Self {
        Real(-self.0)
    }

    fn sqrt(self) -> Self {
        Real(self.0.sqrt())
    }

    fn is_positive(self) -> bool {
        self.0 > 0.0
    }

    fn equals(self, rhs: Self) -> bool {
        self.0 == rhs.0
    }

    fn sin(self) -> Self {
        Real(self.0.sin())
    }

    fn cos(self) -> Self {
        Real(self.0.cos())
    }

    fn tan(self) -> Self {
        Real(self.0.tan())
    }

    fn atan(self) -> Self {
        Real(self.0.atan())
    }
}

fn v2(x: f32, y: f32) -> Vec2<Real> {
    Vec2::new(Real(x), Real(y))
}

fn v3(x: f32, y: f32, z: f32) -> Vec3<Real> {
    Vec3::new(Real(x), Real(y), Real(z))
}

fn v4(x: f32, y: f32, z: f32, w: f32) -> Vec4<Real> {
    Vec4::new(Real(x), Real(y), Real(z), Real(w))
}

fn floats(m: &Mat4<Real>) -> [f32; 16] {
    m.as_ptr().map(|x| x.0)
}

fn close(a: f32, b: f32) -> bool {
    (a - b).abs() <= 1e-5
}

fn close4(a: Vec4<Real>, b: Vec4<Real>) -> bool {
    close(a.x.0, b.x.0) && close(a.y.0, b.y.0) && close(a.z.0, b.z.0) && close(a.w.0, b.w.0)
}

fn sample() -> Mat4<Real> {
    Mat4::from_vec4(
        v4(1.0, 2.0, 3.0, 4.0),
        v4(5.0, 6.0, 7.0, 8.0),
        v4(9.0, 10.0, 11.0, 12.0),
        v4(13.0, 14.0, 15.0, 16.0),
    )
}

#[test]
fn it_works() {
}

#[test]
fn vec3_constructors() {
    assert_eq!(v3(1.0, 2.0, 3.0), Vec3 { x: Real(1.0), y: Real(2.0), z: Real(3.0) });
    assert_eq!(Vec3::<Real>::empty(), v3(0.0, 0.0, 0.0));
    assert_eq!(Vec3::<Real>::x(), v3(1.0, 0.0, 0.0));
    assert_eq!(Vec3::<Real>::y(), v3(0.0, 1.0, 0.0));
    assert_eq!(Vec3::<Real>::z(), v3(0.0, 0.0, 1.0));
}

#[test]
fn vec3_arithmetic() {
    let a = v3(1.0, 2.0, 3.0);
    let b = v3(4.0, 8.0, 12.0);
    assert_eq!(a.add(b), v3(5.0, 10.0, 15.0));
    assert_eq!(a.sub(b), v3(-3.0, -6.0, -9.0));
    assert_eq!(a.mul(b), v3(4.0, 16.0, 36.0));
    assert_eq!(b.div(a), v3(4.0, 4.0, 4.0));
    assert_eq!(a.mul_scalar(Real(2.0)), v3(2.0, 4.0, 6.0));
    assert_eq!(b.div_scalar(Real(4.0)), v3(1.0, 2.0, 3.0));
    assert_eq!(a.neg(), v3(-1.0, -2.0, -3.0));
}

#[test]
fn vec3_assigning_arithmetic() {
    let mut a = v3(1.0, 2.0, 3.0);
    a.add_assign(v3(1.0, 1.0, 1.0));
    assert_eq!(a, v3(2.0, 3.0, 4.0));
    a.sub_assign(v3(2.0, 2.0, 2.0));
    assert_eq!(a, v3(0.0, 1.0, 2.0));
    a.mul_assign(v3(5.0, 6.0, 7.0));
    assert_eq!(a, v3(0.0, 6.0, 14.0));
    a.mul_assign_scalar(Real(0.5));
    assert_eq!(a, v3(0.0, 3.0, 7.0));
    a.div_assign(v3(1.0, 3.0, 7.0));
    assert_eq!(a, v3(0.0, 1.0, 1.0));
    a.div_assign_scalar(Real(0.25));
    assert_eq!(a, v3(0.0, 4.0, 4.0));
}

#[test]
fn vec3_index_reads_each_component() {
    let a = v3(7.0, 8.0, 9.0);
    assert_eq!(a.index(0), Real(7.0));
    assert_eq!(a.index(1), Real(8.0));
    assert_eq!(a.index(2), Real(9.0));
}

#[test]
fn equality_is_exact() {
    assert!(v3(0.1, 0.2, 0.3).equals(v3(0.1, 0.2, 0.3)));
    assert!(!v3(0.1, 0.2, 0.3).equals(v3(0.1, 0.2, 0.3 + 1e-7)));
    assert!(v4(1.0, 2.0, 3.0, 4.0).equals(v4(1.0, 2.0, 3.0, 4.0)));
    assert!(!v4(1.0, 2.0, 3.0, 4.0).equals(v4(1.0, 2.0, 3.0, 4.5)));
    assert!(v2(1.0, 2.0).equals(v2(1.0, 2.0)));
    assert!(!v2(1.0, 2.0).equals(v2(2.0, 1.0)));
    assert!(!v2(f32::NAN, 0.0).equals(v2(f32::NAN, 0.0)));
}

#[test]
fn division_by_zero_follows_the_number_type() {
    let q = v3(1.0, -1.0, 0.0).div_scalar(Real(0.0));
    assert_eq!(q.x, Real(f32::INFINITY));
    assert_eq!(q.y, Real(f32::NEG_INFINITY));
    assert!(q.z.0.is_nan());
    let r = v4(1.0, 2.0, 3.0, 4.0).div(v4(1.0, 0.0, 1.0, 1.0));
    assert_eq!(r.y, Real(f32::INFINITY));
}

#[test]
fn dot_is_the_sum_of_products() {
    assert_eq!(Vec2::dot(v2(1.0, 2.0), v2(3.0, 4.0)), Real(11.0));
    assert_eq!(Vec3::dot(v3(1.0, 2.0, 3.0), v3(4.0, 5.0, 6.0)), Real(32.0));
    assert_eq!(Vec4::dot(v4(1.0, 2.0, 3.0, 4.0), v4(5.0, 6.0, 7.0, 8.0)), Real(70.0));
}

#[test]
fn dot_of_four_components_counts_the_fourth() {
    assert_eq!(Vec4::dot(v4(0.0, 0.0, 0.0, 2.0), v4(0.0, 0.0, 0.0, 3.0)), Real(6.0));
    assert_eq!(Vec4::length(v4(0.0, 0.0, 0.0, -3.0)), Real(3.0));
    assert_eq!(Vec4::normalize(v4(0.0, 0.0, 0.0, -3.0)), v4(0.0, 0.0, 0.0, -1.0));
}

#[test]
fn dot_is_symmetric() {
    let a = v3(0.1, -2.5, 3.75);
    let b = v3(4.2, 0.3, -6.0);
    assert_eq!(Vec3::dot(a, b), Vec3::dot(b, a));
    let c = v4(0.1, -2.5, 3.75, 9.0);
    let d = v4(4.2, 0.3, -6.0, 0.7);
    assert_eq!(Vec4::dot(c, d), Vec4::dot(d, c));
    assert_eq!(Vec2::dot(v2(0.1, 0.7), v2(3.0, -0.9)), Vec2::dot(v2(3.0, -0.9), v2(0.1, 0.7)));
}

#[test]
fn cross_follows_its_formula() {
    // x = 2*6 - 3*5, y = 3*4 - 1*6, z = 1*5 - 2*6
    assert_eq!(Vec3::cross(v3(1.0, 2.0, 3.0), v3(4.0, 5.0, 6.0)), v3(-3.0, 6.0, -7.0));
    assert_eq!(Vec3::cross(v3(1.0, 0.0, 0.0), v3(0.0, 1.0, 0.0)), v3(0.0, 0.0, 1.0));
    assert_eq!(Vec3::cross(v3(0.0, 0.0, -1.0), v3(0.0, 1.0, 0.0)), v3(1.0, 0.0, 0.0));
}

#[test]
fn cross_changes_sign_where_its_third_component_does() {
    let a = v3(2.0, 0.0, 2.0);
    let b = v3(3.0, 5.0, 3.0);
    assert_eq!(Vec3::cross(a, b), v3(-10.0, 0.0, 10.0));
    assert_eq!(Vec3::cross(a, b), Vec3::cross(b, a).neg());
    assert_eq!(Vec3::dot(a, Vec3::cross(a, b)), Real(0.0));
}

#[test]
fn cross_third_component_is_not_antisymmetric() {
    let a = v3(1.0, 0.0, 0.0);
    let b = v3(0.0, 1.0, 0.0);
    assert_eq!(Vec3::cross(a, b), v3(0.0, 0.0, 1.0));
    assert_eq!(Vec3::cross(b, a), v3(0.0, 0.0, 0.0));
}

#[test]
fn vector_product_is_at_right_angles() {
    assert_eq!(Vec3::vector_product(v3(1.0, 2.0, 3.0), v3(4.0, 5.0, 6.0)), v3(-3.0, 6.0, -3.0));
    assert_eq!(Vec3::vector_product(v3(1.0, 0.0, 0.0), v3(0.0, 1.0, 0.0)), v3(0.0, 0.0, 1.0));
    assert_eq!(Vec3::vector_product(v3(0.0, 1.0, 0.0), v3(1.0, 0.0, 0.0)), v3(0.0, 0.0, -1.0));
    let a = v3(1.0, 2.0, 3.0);
    let b = v3(-4.0, 0.5, 6.0);
    let p = Vec3::vector_product(a, b);
    assert_eq!(Vec3::dot(a, p), Real(0.0));
    assert_eq!(Vec3::dot(b, p), Real(0.0));
    assert_eq!(p, Vec3::vector_product(b, a).neg());
}

#[test]
fn length_is_the_root_of_the_dot_product() {
    assert_eq!(Vec2::length(v2(3.0, 4.0)), Real(5.0));
    assert_eq!(Vec3::length(v3(2.0, 3.0, 6.0)), Real(7.0));
    assert_eq!(Vec4::length(v4(1.0, 1.0, 1.0, 1.0)), Real(2.0));
}

#[test]
fn length_of_a_degenerate_vector_is_zero() {
    assert_eq!(Vec3::length(v3(0.0, 0.0, 0.0)), Real(0.0));
    assert_eq!(Vec4::length(v4(0.0, 0.0, 0.0, 0.0)), Real(0.0));
    assert_eq!(Vec2::length(v2(0.0, 0.0)), Real(0.0));
    assert_eq!(Vec3::length(v3(f32::NAN, 0.0, 0.0)), Real(0.0));
}

#[test]
fn normalize_divides_by_the_length() {
    assert_eq!(Vec3::normalize(v3(0.0, 0.0, 4.0)), v3(0.0, 0.0, 1.0));
    assert_eq!(Vec4::normalize(v4(2.0, 2.0, 2.0, 2.0)), v4(0.5, 0.5, 0.5, 0.5));
    assert_eq!(Vec2::normalize(v2(3.0, 4.0)), v2(3.0 / 5.0, 4.0 / 5.0));
}

#[test]
fn normalize_of_the_zero_vector_is_the_zero_vector() {
    assert_eq!(Vec3::normalize(v3(0.0, 0.0, 0.0)), v3(0.0, 0.0, 0.0));
    assert_eq!(Vec4::normalize(v4(0.0, 0.0, 0.0, 0.0)), v4(0.0, 0.0, 0.0, 0.0));
    assert_eq!(Vec2::normalize(v2(0.0, 0.0)), v2(0.0, 0.0));
}

#[test]
fn normalized_vectors_have_unit_length() {
    for a in [v3(1.0, 2.0, 3.0), v3(-0.3, 12.5, 0.01), v3(1e-3, 0.0, -7.0)] {
        let len = Vec3::length(Vec3::normalize(a));
        assert!((len.0 - 1.0).abs() <= 4.0 * f32::EPSILON);
    }
    let len = Vec4::length(Vec4::normalize(v4(1.0, -2.0, 3.0, -4.0)));
    assert!((len.0 - 1.0).abs() <= 4.0 * f32::EPSILON);
}

#[test]
fn vec4_constructors() {
    assert_eq!(Vec4::<Real>::empty(), v4(0.0, 0.0, 0.0, 0.0));
    assert_eq!(Vec4::<Real>::x_axis(), v4(1.0, 0.0, 0.0, 0.0));
    assert_eq!(Vec4::<Real>::y_axis(), v4(0.0, 1.0, 0.0, 0.0));
    assert_eq!(Vec4::<Real>::z_axis(), v4(0.0, 0.0, 1.0, 0.0));
}

#[test]
fn vec4_arithmetic() {
    let a = v4(1.0, 2.0, 3.0, 4.0);
    let b = v4(2.0, 4.0, 6.0, 8.0);
    assert_eq!(a.add(b), v4(3.0, 6.0, 9.0, 12.0));
    assert_eq!(a.sub(b), v4(-1.0, -2.0, -3.0, -4.0));
    assert_eq!(a.mul(b), v4(2.0, 8.0, 18.0, 32.0));
    assert_eq!(b.div(a), v4(2.0, 2.0, 2.0, 2.0));
    assert_eq!(a.mul_scalar(Real(3.0)), v4(3.0, 6.0, 9.0, 12.0));
    assert_eq!(b.div_scalar(Real(2.0)), a);
}

#[test]
fn vec4_assigning_arithmetic() {
    let mut a = v4(1.0, 2.0, 3.0, 4.0);
    a.add_assign(v4(1.0, 1.0, 1.0, 1.0));
    assert_eq!(a, v4(2.0, 3.0, 4.0, 5.0));
    a.sub_assign(v4(2.0, 2.0, 2.0, 2.0));
    assert_eq!(a, v4(0.0, 1.0, 2.0, 3.0));
    a.mul_assign(v4(5.0, 6.0, 7.0, 8.0));
    assert_eq!(a, v4(0.0, 6.0, 14.0, 24.0));
    a.mul_assign_scalar(Real(0.5));
    assert_eq!(a, v4(0.0, 3.0, 7.0, 12.0));
    a.div_assign(v4(1.0, 3.0, 7.0, 12.0));
    assert_eq!(a, v4(0.0, 1.0, 1.0, 1.0));
    a.div_assign_scalar(Real(0.25));
    assert_eq!(a, v4(0.0, 4.0, 4.0, 4.0));
}

#[test]
fn vec4_negation_negates_every_component() {
    let v = v4(1.0, 2.0, 3.0, 4.0);
    assert_eq!(v.neg(), v4(-1.0, -2.0, -3.0, -4.0));
    assert_eq!(v.add(v.neg()), Vec4::empty());
    assert_eq!(v.neg().neg(), v);
}

#[test]
fn vec4_index_reads_and_writes_one_component() {
    let mut a = v4(7.0, 8.0, 9.0, 10.0);
    assert_eq!(a.index(0), Real(7.0));
    assert_eq!(a.index(3), Real(10.0));
    *a.index_mut(2) = Real(-1.0);
    assert_eq!(a, v4(7.0, 8.0, -1.0, 10.0));
    *a.index_mut(0) = Real(0.5);
    assert_eq!(a, v4(0.5, 8.0, -1.0, 10.0));
}

#[test]
fn vec2_arithmetic() {
    let a = v2(1.0, 2.0);
    let b = v2(4.0, 8.0);
    assert_eq!(Vec2::<Real>::empty(), v2(0.0, 0.0));
    assert_eq!(a.add(b), v2(5.0, 10.0));
    assert_eq!(a.sub(b), v2(-3.0, -6.0));
    assert_eq!(a.mul(b), v2(4.0, 16.0));
    assert_eq!(b.div(a), v2(4.0, 4.0));
    assert_eq!(a.mul_scalar(Real(2.0)), v2(2.0, 4.0));
    assert_eq!(b.div_scalar(Real(4.0)), v2(1.0, 2.0));
    assert_eq!(a.neg(), v2(-1.0, -2.0));
    assert_eq!(a.index(0), Real(1.0));
    assert_eq!(a.index(1), Real(2.0));
}

#[test]
fn matrix_is_stored_column_by_column() {
    let m = sample();
    assert_eq!(m.m[1], v4(5.0, 6.0, 7.0, 8.0));
    assert_eq!(m.index(3), v4(13.0, 14.0, 15.0, 16.0));
    assert_eq!(
        floats(&m),
        [1.0, 2.0, 3.0, 4.0, 5.0, 6.0, 7.0, 8.0, 9.0, 10.0, 11.0, 12.0, 13.0, 14.0, 15.0, 16.0]
    );
}

#[test]
fn matrix_new_takes_the_entries_row_after_row() {
    let r = |x: f32| Real(x);
    let m = Mat4::new(
        r(1.0), r(5.0), r(9.0), r(13.0),
        r(2.0), r(6.0), r(10.0), r(14.0),
        r(3.0), r(7.0), r(11.0), r(15.0),
        r(4.0), r(8.0), r(12.0), r(16.0),
    );
    assert_eq!(m, sample());
}

#[test]
fn matrix_index_mut_writes_one_column() {
    let mut m = sample();
    *m.index_mut(2) = v4(0.0, 0.0, 0.0, 0.0);
    assert_eq!(m.index(2), v4(0.0, 0.0, 0.0, 0.0));
    assert_eq!(m.index(1), v4(5.0, 6.0, 7.0, 8.0));
    m.index_mut(0).y = Real(-2.0);
    assert_eq!(m.index(0), v4(1.0, -2.0, 3.0, 4.0));
}

#[test]
fn empty_and_identity() {
    assert_eq!(floats(&Mat4::<Real>::empty()), [0.0; 16]);
    assert_eq!(
        floats(&Mat4::<Real>::identity()),
        [1.0, 0.0, 0.0, 0.0, 0.0, 1.0, 0.0, 0.0, 0.0, 0.0, 1.0, 0.0, 0.0, 0.0, 0.0, 1.0]
    );
}

#[test]
fn matrix_sum_difference_and_scalar_multiples() {
    let m = sample();
    let i = Mat4::<Real>::identity();
    assert_eq!(m.add(i).index(0), v4(2.0, 2.0, 3.0, 4.0));
    assert_eq!(m.add(i).index(3), v4(13.0, 14.0, 15.0, 17.0));
    assert_eq!(m.sub(m), Mat4::empty());
    assert_eq!(m.mul_scalar(Real(2.0)).index(1), v4(10.0, 12.0, 14.0, 16.0));
    assert_eq!(m.div_scalar(Real(2.0)).index(1), v4(2.5, 3.0, 3.5, 4.0));
    let mut n = m;
    n.add_assign(i);
    assert_eq!(n, m.add(i));
    n.sub_assign(i);
    assert_eq!(n, m);
    n.mul_assign_scalar(Real(2.0));
    assert_eq!(n, m.mul_scalar(Real(2.0)));
    n.div_assign_scalar(Real(2.0));
    assert_eq!(n, m);
}

#[test]
fn matrix_product_sums_over_the_inner_index() {
    let a = sample();
    let b = Mat4::from_vec4(
        v4(1.0, 0.0, 2.0, 0.0),
        v4(0.0, 3.0, 0.0, 4.0),
        v4(5.0, 0.0, 6.0, 0.0),
        v4(0.0, 7.0, 0.0, 8.0),
    );
    let p = a.mul(b);
    // p[c][r] = a[c][0]*b[0][r] + a[c][1]*b[1][r] + a[c][2]*b[2][r] + a[c][3]*b[3][r]
    assert_eq!(p.index(0), v4(16.0, 34.0, 20.0, 40.0));
    assert_eq!(p.index(1), v4(40.0, 74.0, 52.0, 88.0));
    assert_eq!(p.index(2), v4(64.0, 114.0, 84.0, 136.0));
    assert_eq!(p.index(3), v4(88.0, 154.0, 116.0, 184.0));
    let mut q = a;
    q.mul_assign(b);
    assert_eq!(q, p);
}

#[test]
fn matrix_times_vector_uses_the_rows() {
    let v = sample().mul_vec4(v4(1.0, 0.0, 0.0, 0.0));
    assert_eq!(v, v4(1.0, 2.0, 3.0, 4.0));
    let w = sample().mul_vec4(v4(1.0, 1.0, 1.0, 1.0));
    assert_eq!(w, v4(28.0, 32.0, 36.0, 40.0));
}

#[test]
fn identity_is_neutral() {
    let m = sample();
    let i = Mat4::<Real>::identity();
    assert_eq!(i.mul(m), m);
    assert_eq!(m.mul(i), m);
}

#[test]
fn transpose_exchanges_rows_and_columns() {
    let t = Mat4::transpose(sample());
    assert_eq!(t.index(0), v4(1.0, 5.0, 9.0, 13.0));
    assert_eq!(t.index(3), v4(4.0, 8.0, 12.0, 16.0));
    assert_eq!(Mat4::transpose(t), sample());
}

#[test]
fn determinant_and_adjugate() {
    let m = Mat4::from_vec4(
        v4(2.0, 0.0, 0.0, 0.0),
        v4(1.0, 4.0, 0.0, 0.0),
        v4(0.0, 0.0, 1.0, 0.0),
        v4(3.0, 0.0, 5.0, 1.0),
    );
    assert_eq!(Mat4::determinant(m), Real(8.0));
    assert_eq!(Mat4::determinant(sample()), Real(0.0));
    let adj = Mat4::adjugate(m);
    assert_eq!(m.mul(adj), Mat4::<Real>::identity().mul_scalar(Real(8.0)));
}

#[test]
fn inverse_of_a_translation_is_the_opposite_translation() {
    let m = translation(v3(1.0, 2.0, 3.0));
    let inv = Mat4::inverse(m);
    assert_eq!(inv, translation(v3(-1.0, -2.0, -3.0)));
    let product = floats(&m.mul(inv));
    let identity = floats(&Mat4::<Real>::identity());
    for k in 0..16 {
        assert!(close(product[k], identity[k]));
    }
}

#[test]
fn inverse_divides_by_the_determinant() {
    let m = Mat4::from_vec4(
        v4(2.0, 0.0, 0.0, 0.0),
        v4(1.0, 4.0, 0.0, 0.0),
        v4(0.0, 0.0, 1.0, 0.0),
        v4(3.0, 0.0, 5.0, 1.0),
    );
    let inv = Mat4::inverse(m);
    assert_eq!(inv.index(0), v4(0.5, 0.0, 0.0, 0.0));
    assert_eq!(inv.index(1), v4(-0.125, 0.25, 0.0, 0.0));
    assert_eq!(inv.index(2), v4(0.0, 0.0, 1.0, 0.0));
    assert_eq!(inv.index(3), v4(-1.5, 0.0, -5.0, 1.0));
    assert_eq!(m.mul(inv), Mat4::identity());
    assert_eq!(inv.mul(m), Mat4::identity());
    assert_eq!(m.div(m), Mat4::identity());
    let mut q = m;
    q.div_assign(m);
    assert_eq!(q, Mat4::identity());
}

#[test]
fn inverse_of_a_singular_matrix_is_not_refused() {
    let inv = Mat4::inverse(Mat4::<Real>::empty());
    assert!(floats(&inv).iter().all(|x| x.is_nan()));
}

#[test]
fn translation_puts_the_offset_in_the_fourth_column() {
    assert_eq!(
        floats(&translation(v3(7.0, 8.0, 9.0))),
        [1.0, 0.0, 0.0, 0.0, 0.0, 1.0, 0.0, 0.0, 0.0, 0.0, 1.0, 0.0, 7.0, 8.0, 9.0, 1.0]
    );
    assert_eq!(translation(v3(7.0, 8.0, 9.0)).mul_vec4(v4(1.0, 1.0, 1.0, 1.0)), v4(8.0, 9.0, 10.0, 1.0));
    assert_eq!(translation(v3(7.0, 8.0, 9.0)).mul_vec4(v4(1.0, 1.0, 1.0, 0.0)), v4(1.0, 1.0, 1.0, 0.0));
}

#[test]
fn scale_stretches_each_axis() {
    assert_eq!(
        floats(&scale(v3(2.0, 3.0, 4.0))),
        [2.0, 0.0, 0.0, 0.0, 0.0, 3.0, 0.0, 0.0, 0.0, 0.0, 4.0, 0.0, 0.0, 0.0, 0.0, 1.0]
    );
    assert_eq!(scale(v3(2.0, 3.0, 4.0)).mul_vec4(v4(1.0, 1.0, 1.0, 1.0)), v4(2.0, 3.0, 4.0, 1.0));
}

#[test]
fn quarter_turn_about_z_maps_x_to_y() {
    let m = rotate(Real(std::f32::consts::FRAC_PI_2), v3(0.0, 0.0, 1.0));
    assert!(close4(m.mul_vec4(v4(1.0, 0.0, 0.0, 0.0)), v4(0.0, 1.0, 0.0, 0.0)));
    assert!(close4(m.mul_vec4(v4(0.0, 1.0, 0.0, 0.0)), v4(-1.0, 0.0, 0.0, 0.0)));
    assert!(close4(m.mul_vec4(v4(0.0, 0.0, 1.0, 1.0)), v4(0.0, 0.0, 1.0, 1.0)));
}

#[test]
fn rotate_normalizes_its_axis() {
    let a = rotate(Real(0.7), v3(0.0, 0.0, 5.0));
    let b = rotate(Real(0.7), v3(0.0, 0.0, 1.0));
    assert_eq!(a, b);
}

#[test]
fn rotation_from_sine_and_cosine_is_exact() {
    let m = rotation_from_sin_cos(Real(1.0), Real(0.0), v3(0.0, 0.0, 1.0));
    assert_eq!(
        floats(&m),
        [0.0, 1.0, 0.0, 0.0, -1.0, 0.0, 0.0, 0.0, 0.0, 0.0, 1.0, 0.0, 0.0, 0.0, 0.0, 1.0]
    );
    let n = rotation_from_sin_cos(Real(1.0), Real(0.0), v3(1.0, 0.0, 0.0));
    assert_eq!(
        floats(&n),
        [1.0, 0.0, 0.0, 0.0, 0.0, 0.0, 1.0, 0.0, 0.0, -1.0, 0.0, 0.0, 0.0, 0.0, 0.0, 1.0]
    );
}

#[test]
fn ortho_entries() {
    let m = Mat4::ortho(Real(0.0), Real(4.0), Real(0.0), Real(2.0), Real(1.0), Real(3.0));
    assert_eq!(
        floats(&m),
        [0.5, 0.0, 0.0, 0.0, 0.0, 1.0, 0.0, 0.0, 0.0, 0.0, -1.0, 0.0, -1.0, -1.0, -2.0, 1.0]
    );
    let f = Mat4::frustrum(Real(0.0), Real(4.0), Real(0.0), Real(2.0), Real(1.0), Real(3.0));
    assert_eq!(f, m);
}

#[test]
fn ortho_maps_the_near_plane_to_minus_one() {
    // The camera looks down the negative z axis: the near plane is at z = -n and
    // goes to depth -1, the far plane is at z = -f and goes to depth 1.
    let m = Mat4::ortho(Real(-1.0), Real(1.0), Real(-1.0), Real(1.0), Real(0.1), Real(100.0));
    let near = m.mul_vec4(v4(0.0, 0.0, -0.1, 1.0));
    assert_eq!(near, v4(0.0, 0.0, -1.0, 1.0));
    let far = m.mul_vec4(v4(0.0, 0.0, -100.0, 1.0));
    assert!(close4(far, v4(0.0, 0.0, 1.0, 1.0)));
}

#[test]
fn translations_compose() {
    let m = translation(v3(1.0, 0.0, 0.0)).mul(translation(v3(0.0, 1.0, 0.0)));
    assert_eq!(m.mul_vec4(v4(0.0, 0.0, 0.0, 1.0)), v4(1.0, 1.0, 0.0, 1.0));
}

#[test]
fn product_applies_the_left_matrix_first() {
    let p = v4(1.0, 1.0, 1.0, 1.0);
    let s = scale(v3(2.0, 2.0, 2.0));
    let t = translation(v3(1.0, 0.0, 0.0));
    // scale, then move
    assert_eq!(s.mul(t).mul_vec4(p), v4(3.0, 2.0, 2.0, 1.0));
    assert_eq!(s.mul(t).mul_vec4(p), t.mul_vec4(s.mul_vec4(p)));
    // move, then scale
    assert_eq!(t.mul(s).mul_vec4(p), v4(4.0, 2.0, 2.0, 1.0));
    assert_eq!(t.mul(s).mul_vec4(p), s.mul_vec4(t.mul_vec4(p)));
}

#[test]
fn degrees_and_radians() {
    assert_eq!(to_radians(Real(0.0)), Real(0.0));
    assert_eq!(to_radians(Real(180.0)), Real(180.0 * (std::f32::consts::PI / 180.0)));
    assert!(close(to_radians(Real(180.0)).0, std::f32::consts::PI));
    assert!(close(to_radians(Real(-90.0)).0, -std::f32::consts::FRAC_PI_2));
    assert_eq!(to_degrees(Real(2.0)), Real(2.0 * (180.0 / std::f32::consts::PI)));
    assert!((to_degrees(Real(std::f32::consts::PI)).0 - 180.0).abs() <= 1e-4);
}

#[test]
fn steps_from_the_horizontal_to_the_vertical_angle() {
    assert_eq!(
        half_angle_radians(Real(90.0)),
        Real(90.0 * (std::f32::consts::PI / 180.0) * 0.5)
    );
    assert!(close(half_angle_radians(Real(90.0)).0, std::f32::consts::FRAC_PI_4));
    assert_eq!(vertical_half_tangent(Real(1.0), Real(2.0)), Real(0.5));
    assert_eq!(vertical_half_tangent(Real(3.0), Real(1.5)), Real(2.0));
    assert_eq!(
        opening_angle(Real(0.25)),
        Real(2.0 * 0.25 * (180.0 / std::f32::consts::PI))
    );
    assert!((opening_angle(Real(std::f32::consts::FRAC_PI_4)).0 - 90.0).abs() <= 1e-4);
}

#[test]
fn perspective_from_the_half_angle_tangent() {
    let m = Mat4::persp_from_half_tan(Real(0.5), Real(2.0), Real(1.0), Real(3.0));
    assert_eq!(
        floats(&m),
        [1.0, 0.0, 0.0, 0.0, 0.0, 2.0, 0.0, 0.0, 0.0, 0.0, -2.0, -1.0, 0.0, 0.0, -3.0, 0.0]
    );
    // a point on the near plane goes to depth -1, one on the far plane to depth 1
    let near = m.mul_vec4(v4(0.0, 0.0, -1.0, 1.0));
    assert_eq!(near.z.0 / near.w.0, -1.0);
    let far = m.mul_vec4(v4(0.0, 0.0, -3.0, 1.0));
    assert_eq!(far.z.0 / far.w.0, 1.0);
}

#[test]
fn perspective_from_the_horizontal_angle() {
    let m = floats(&Mat4::persp(Real(90.0), Real(1.0), Real(1.0), Real(3.0)));
    let expected = [1.0, 0.0, 0.0, 0.0, 0.0, 1.0, 0.0, 0.0, 0.0, 0.0, -2.0, -1.0, 0.0, 0.0, -3.0, 0.0];
    for k in 0..16 {
        assert!(close(m[k], expected[k]));
    }
    // twice as wide as high: the same horizontal angle opens half as far upwards
    let wide = floats(&Mat4::persp(Real(90.0), Real(2.0), Real(1.0), Real(3.0)));
    assert!(close(wide[0], 1.0));
    assert!(close(wide[5], 2.0));
}

#[test]
fn look_at_moves_the_camera_to_the_origin() {
    let eye = v3(0.0, 0.0, 5.0);
    let m = Mat4::look_at(eye, v3(0.0, 0.0, 0.0), v3(0.0, 1.0, 0.0));
    assert_eq!(m.mul_vec4(v4(0.0, 0.0, 5.0, 1.0)), v4(0.0, 0.0, 0.0, 1.0));
    assert_eq!(m.mul_vec4(v4(0.0, 0.0, 0.0, 1.0)), v4(0.0, 0.0, -5.0, 1.0));
    assert_eq!(m.mul_vec4(v4(1.0, 2.0, 5.0, 1.0)), v4(1.0, 2.0, 0.0, 1.0));
}

#[test]
fn look_at_builds_an_orthonormal_basis_for_any_up() {
    let m = Mat4::look_at(v3(0.0, 0.0, 0.0), v3(0.0, 1.0, 0.0), v3(1.0, 0.0, 0.0));
    // forward is +y, right is forward x up = -z, the camera's up is +x
    assert_eq!(
        floats(&m),
        [0.0, 1.0, 0.0, 0.0, 0.0, 0.0, -1.0, 0.0, -1.0, 0.0, 0.0, 0.0, 0.0, 0.0, 0.0, 1.0]
    );
    assert_eq!(m.mul_vec4(v4(0.0, 1.0, 0.0, 1.0)), v4(0.0, 0.0, -1.0, 1.0));
    assert_eq!(m.mul_vec4(v4(1.0, 0.0, 0.0, 1.0)), v4(0.0, 1.0, 0.0, 1.0));
    assert_eq!(m.mul_vec4(v4(0.0, 0.0, -1.0, 1.0)), v4(1.0, 0.0, 0.0, 1.0));
}

#[test]
fn look_at_from_a_slanted_camera() {
    let eye = v3(3.0, 4.0, 12.0);
    let target = v3(0.0, 0.0, 0.0);
    let m = Mat4::look_at(eye, target, v3(0.3, 1.0, -0.2));
    assert!(close4(m.mul_vec4(v4(3.0, 4.0, 12.0, 1.0)), v4(0.0, 0.0, 0.0, 1.0)));
    assert!(close4(m.mul_vec4(v4(0.0, 0.0, 0.0, 1.0)), v4(0.0, 0.0, -13.0, 1.0)));
    let f = floats(&m);
    for i in 0..3 {
        for j in 0..3 {
            let dot = f[i] * f[j] + f[4 + i] * f[4 + j] + f[8 + i] * f[8 + j];
            assert!(close(dot, if i == j { 1.0 } else { 0.0 }));
        }
    }
    assert_eq!(f[15], 1.0);
}

#[test]
fn look_at_turns_the_view_direction_onto_negative_z() {
    let m = Mat4::look_at(v3(1.0, 2.0, 3.0), v3(1.0, 2.0, -7.0), v3(0.0, 1.0, 0.0));
    assert_eq!(m.mul_vec4(v4(1.0, 2.0, -7.0, 1.0)), v4(0.0, 0.0, -10.0, 1.0));
    assert_eq!(m.mul_vec4(v4(2.0, 2.0, 3.0, 1.0)), v4(1.0, 0.0, 0.0, 1.0));
}
