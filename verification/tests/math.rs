use zphy::fixed::Fixed;
use zphy::matrix::Mat3;
use zphy::quat::Quat;
use zphy::trig::sin_cos;
use zphy::vector::Vec3;

fn fx(x: f64) -> Fixed {
    Fixed::from_raw((x * 1e9).round() as i64)
}

fn val(x: Fixed) -> f64 {
    x.raw() as f64 / 1e9
}

fn vec3(x: f64, y: f64, z: f64) -> Vec3 {
    Vec3::new(fx(x), fx(y), fx(z))
}

fn close(a: Vec3, b: Vec3, tolerance: f64) -> bool {
    (val(a.x) - val(b.x)).abs() <= tolerance
        && (val(a.y) - val(b.y)).abs() <= tolerance
        && (val(a.z) - val(b.z)).abs() <= tolerance
}

#[test]
fn sums_saturate_at_the_limit() {
    let top = Fixed::from_raw(i64::MAX);
    assert_eq!(top.add(Fixed::one()).raw(), i64::MAX);
    assert_eq!(top.neg().sub(Fixed::one()).raw(), -i64::MAX);
    assert_eq!(top.mul(Fixed::from_int(2)).raw(), i64::MAX);
    assert_eq!(top.mul(Fixed::from_int(-2)).raw(), -i64::MAX);
}

#[test]
fn least_raw_value_is_clamped() {
    let bottom = Fixed::from_raw(i64::MIN);
    assert_eq!(bottom.raw(), -i64::MAX);
    assert_eq!(bottom.neg().raw(), i64::MAX);
}

#[test]
fn whole_numbers() {
    assert_eq!(Fixed::from_int(3).raw(), 3_000_000_000);
    assert_eq!(Fixed::from_int(-3).raw(), -3_000_000_000);
    assert_eq!(Fixed::from_int(i64::MAX).raw(), i64::MAX);
    assert_eq!(Fixed::zero().raw(), 0);
    assert_eq!(Fixed::one().raw(), 1_000_000_000);
}

#[test]
fn products_round_toward_zero() {
    let third = Fixed::from_raw(333_333_333);
    assert_eq!(third.mul(third).raw(), 111_111_110);
    assert_eq!(third.neg().mul(third).raw(), -111_111_110);
    assert_eq!(Fixed::from_raw(1).mul(Fixed::from_raw(999_999_999)).raw(), 0);
    assert_eq!(Fixed::from_raw(-1).mul(Fixed::from_raw(999_999_999)).raw(), 0);
}

#[test]
fn quotients() {
    assert_eq!(fx(1.0).div(fx(4.0)).raw(), 250_000_000);
    assert_eq!(fx(1.0).div(fx(-4.0)).raw(), -250_000_000);
    assert_eq!(fx(-2.0).div(fx(-3.0)).raw(), 666_666_666);
    assert_eq!(Fixed::from_raw(i64::MAX).div(Fixed::from_raw(1)).raw(), i64::MAX);
    assert_eq!(fx(7.0).div_int(2).raw(), 3_500_000_000);
    assert_eq!(Fixed::from_raw(-7).div_int(2).raw(), -3);
}

#[test]
fn norms_round_down() {
    let o = Fixed::zero();
    assert_eq!(Fixed::norm3(fx(3.0), o, fx(-4.0)).raw(), 5_000_000_000);
    assert_eq!(Fixed::norm3(fx(1.0), fx(1.0), o).raw(), 1_414_213_562);
    assert_eq!(Fixed::norm3(o, o, o).raw(), 0);
    assert_eq!(Fixed::norm3(Fixed::from_raw(1), Fixed::from_raw(1), Fixed::from_raw(1)).raw(), 1);
    assert_eq!(Fixed::norm4(fx(1.0), fx(-1.0), fx(1.0), fx(-1.0)).raw(), 2_000_000_000);
    // The squares of the largest numbers still add up without loss,
    // and a root beyond the range is clamped.
    let top = Fixed::from_raw(i64::MAX);
    assert_eq!(Fixed::norm3(top, o, o).raw(), i64::MAX);
    assert_eq!(Fixed::norm3(top, top, top).raw(), i64::MAX);
    assert_eq!(Fixed::norm4(top, top, top, top).raw(), i64::MAX);
    let big = Fixed::from_raw(3_000_000_000_000_000_000);
    assert_eq!(Fixed::norm3(big, Fixed::from_raw(4_000_000_000_000_000_000), o).raw(), 5_000_000_000_000_000_000);
}

#[test]
fn comparisons_and_extremes() {
    let a = fx(1.5);
    let b = fx(-2.0);
    assert!(b.lt(a) && b.le(a) && a.gt(b) && a.le(a) && !a.lt(a));
    assert_eq!(a.min(b), b);
    assert_eq!(a.max(b), a);
    assert!(Fixed::zero().is_zero() && !a.is_zero());
}

#[test]
fn sine_and_cosine_follow_the_real_ones() {
    let mut angle = -20.0_f64;
    while angle <= 20.0 {
        let (s, c) = sin_cos(fx(angle));
        assert!((val(s) - angle.sin()).abs() < 2e-8, "sin {angle}: {}", val(s));
        assert!((val(c) - angle.cos()).abs() < 2e-8, "cos {angle}: {}", val(c));
        angle += 0.0371;
    }
}

#[test]
fn sine_and_cosine_at_marked_angles() {
    let (s, c) = sin_cos(Fixed::zero());
    assert_eq!((s.raw(), c.raw()), (0, 1_000_000_000));
    let (s, c) = sin_cos(Fixed::from_raw(1_570_796_327));
    assert!((s.raw() - 1_000_000_000).abs() <= 5, "{}", s.raw());
    assert!(c.raw().abs() <= 5, "{}", c.raw());
    let (s, c) = sin_cos(Fixed::from_raw(3_141_592_654));
    assert!(s.raw().abs() <= 5, "{}", s.raw());
    assert!((c.raw() + 1_000_000_000).abs() <= 5, "{}", c.raw());
    // A full turn on: the same again.
    let (s, c) = sin_cos(Fixed::from_raw(6_283_185_307));
    assert_eq!((s.raw(), c.raw()), (0, 1_000_000_000));
}

#[test]
fn vector_arithmetic() {
    let a = vec3(1.0, 2.0, 3.0);
    let b = vec3(-4.0, 0.5, 2.0);
    assert_eq!(a.add(b), vec3(-3.0, 2.5, 5.0));
    assert_eq!(a.sub(b), vec3(5.0, 1.5, 1.0));
    assert_eq!(a.neg(), vec3(-1.0, -2.0, -3.0));
    assert_eq!(a.scale(fx(0.5)), vec3(0.5, 1.0, 1.5));
    assert_eq!(a.dot(b).raw(), 3_000_000_000);
    assert_eq!(a.cross(b), vec3(2.5, -14.0, 8.5));
    assert_eq!(b.cross(a), a.cross(b).neg());
    assert_eq!(a.length_squared().raw(), 14_000_000_000);
    assert_eq!(vec3(3.0, 0.0, 4.0).length().raw(), 5_000_000_000);
}

#[test]
fn normalizing() {
    assert_eq!(vec3(3.0, 0.0, 4.0).normalize(), vec3(0.6, 0.0, 0.8));
    assert_eq!(vec3(0.0, -2.0, 0.0).normalize(), vec3(0.0, -1.0, 0.0));
    assert_eq!(Vec3::zero().normalize(), Vec3::zero());
    let n = vec3(1.0, 1.0, 1.0).normalize();
    assert!((val(n.length()) - 1.0).abs() < 1e-8);
}

#[test]
fn identity_turns_nothing() {
    let v = vec3(1.25, -2.5, 3.0);
    assert_eq!(Quat::identity().mul_vec3(v), v);
    assert_eq!(Quat::from_axis_angle(Vec3::unit_y(), Fixed::zero()), Quat::identity());
}

#[test]
fn quarter_turns() {
    let quarter = fx(std::f64::consts::FRAC_PI_2);
    let about_z = Quat::from_axis_angle(Vec3::unit_z(), quarter);
    assert!(close(about_z.mul_vec3(Vec3::unit_x()), Vec3::unit_y(), 1e-8));
    assert!(close(about_z.mul_vec3(Vec3::unit_y()), Vec3::unit_x().neg(), 1e-8));
    let about_x = Quat::from_axis_angle(Vec3::unit_x(), quarter);
    // The product applies its right factor first.
    let both = about_z.mul_quat(about_x).normalize();
    assert!(close(both.mul_vec3(Vec3::unit_y()), Vec3::unit_z(), 1e-8));
    assert!((val(both.length()) - 1.0).abs() < 1e-8);
}

#[test]
fn rotation_matrix_agrees_with_the_quaternion() {
    let q = Quat::from_axis_angle(vec3(1.0, 2.0, -0.5).normalize(), fx(0.9)).normalize();
    let m = q.to_mat3();
    let v = vec3(0.3, -1.2, 2.0);
    assert!(close(m.mul_vec3(v), q.mul_vec3(v), 1e-8));
    // A rotation matrix times its transpose is the identity.
    let i = m.mul_mat3(m.transpose());
    assert!(close(i.x_axis, Vec3::unit_x(), 1e-8));
    assert!(close(i.y_axis, Vec3::unit_y(), 1e-8));
    assert!(close(i.z_axis, Vec3::unit_z(), 1e-8));
}

#[test]
fn matrices() {
    let d = Mat3::from_diagonal(vec3(2.0, 4.0, 8.0));
    assert_eq!(d.mul_vec3(vec3(1.0, 1.0, 1.0)), vec3(2.0, 4.0, 8.0));
    assert_eq!(d.diagonal_inverse(), Mat3::from_diagonal(vec3(0.5, 0.25, 0.125)));
    let m = Mat3::from_cols(vec3(1.0, 2.0, 3.0), vec3(4.0, 5.0, 6.0), vec3(7.0, 8.0, 9.0));
    assert_eq!(m.transpose().x_axis, vec3(1.0, 4.0, 7.0));
    assert_eq!(m.mul_vec3(vec3(1.0, 0.0, -1.0)), vec3(-6.0, -6.0, -6.0));
    assert_eq!(m.mul_mat3(d).y_axis, vec3(16.0, 20.0, 24.0));
    assert_eq!(Mat3::zero().mul_vec3(vec3(1.0, 2.0, 3.0)), Vec3::zero());
}
