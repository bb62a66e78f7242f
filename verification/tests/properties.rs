use complex_numbers::complex::Complex;

fn cartesian(re: f64, im: f64) -> Complex {
    Complex::new(re.to_bits(), im.to_bits())
}

#[test]
fn add_then_subtract_returns_left_operand() {
    let a = cartesian(0.1, -2.7);
    let b = cartesian(3.3, 5.9);

    let back = a.add(&b).sub(&b);

    assert!((f64::from_bits(back.real) - 0.1).abs() < 1e-12);
    assert!((f64::from_bits(back.imaginary) - (-2.7)).abs() < 1e-12);
}

#[test]
fn conjugate_twice_is_identity() {
    let z = cartesian(3.5, -4.25);

    assert_eq!(z.conjugate().conjugate(), z);
}

#[test]
fn conjugate_keeps_real_part_and_flips_imaginary() {
    let z = cartesian(-7.25, 0.5);
    let conj = z.conjugate();

    assert_eq!(f64::from_bits(conj.real), -7.25);
    assert_eq!(f64::from_bits(conj.imaginary), -0.5);
    assert!(conj.is_cartesian);
}

#[test]
fn polar_round_trip_returns_close_to_original() {
    let z = cartesian(1.0, 1.0);

    let theta = f64::from_bits(z.angle_tangent()).atan();
    let polar = z.to_polar(theta.to_bits(), theta.sin().to_bits());
    let angle = f64::from_bits(polar.imaginary);
    let back = polar.to_cartesian(angle.cos().to_bits(), angle.sin().to_bits());

    assert!(back.is_cartesian);
    assert!((f64::from_bits(back.real) - 1.0).abs() < 1e-12);
    assert!((f64::from_bits(back.imaginary) - 1.0).abs() < 1e-12);
}

#[test]
fn to_polar_is_idempotent() {
    let z = cartesian(1.0, 1.0);
    let theta = f64::from_bits(z.angle_tangent()).atan();
    let polar = z.to_polar(theta.to_bits(), theta.sin().to_bits());

    let again = polar.to_polar(0.123f64.to_bits(), 0.456f64.to_bits());

    assert_eq!(again, polar);
}

#[test]
fn to_cartesian_is_idempotent() {
    let z = cartesian(2.5, -0.5);

    let again = z.to_cartesian(0.123f64.to_bits(), 0.456f64.to_bits());

    assert_eq!(again, z);
}

#[test]
fn divide_by_zero_propagates_nan() {
    let z = cartesian(1.0, 2.0);
    let zero = cartesian(0.0, 0.0);

    let q = z.div(&zero);

    assert!(f64::from_bits(q.real).is_nan());
    assert!(f64::from_bits(q.imaginary).is_nan());
}

#[test]
fn modulus_of_zero_is_zero() {
    let z = cartesian(0.0, 0.0);

    assert_eq!(f64::from_bits(z.modulus()), 0.0);
}

#[test]
fn to_polar_of_real_axis_value_gives_nan_modulus() {
    // With a zero imaginary part the angle is atan(0) = 0 and the modulus
    // formula degenerates to 0 / sin(0) = 0 / 0, the NaN outcome that the
    // conversion keeps rather than traps.
    let z = cartesian(5.0, 0.0);

    let theta = f64::from_bits(z.angle_tangent()).atan();
    let polar = z.to_polar(theta.to_bits(), theta.sin().to_bits());

    assert!(f64::from_bits(polar.real).is_nan());
    assert_eq!(f64::from_bits(polar.imaginary), 0.0);
}

#[test]
fn new_polar_accepts_any_modulus_and_angle() {
    let p = Complex::new_polar((-3.0f64).to_bits(), 7.5f64.to_bits());

    assert!(!p.is_cartesian);
    assert_eq!(f64::from_bits(p.real), -3.0);
    assert_eq!(f64::from_bits(p.imaginary), 7.5);
}
