use mathlib::trig::{DegreeAngle, IntoDeg, IntoRad, RadianAngle};
use std::f32::consts::PI as PI32;
use std::f64::consts::PI as PI64;
use std::ops::{Add, Div, Mul, Sub};

/// A single-precision magnitude that converts between degrees and radians with `f32`'s own
/// `to_radians` and `to_degrees`.
#[derive(Debug, Clone, Copy, PartialEq)]
struct Single(f32);

impl Add for Single {
    type Output = Single;
    fn add(self, o: Single) -> Single {
        Single(self.0 + o.0)
    }
}

impl Sub for Single {
    type Output = Single;
    fn sub(self, o: Single) -> Single {
        Single(self.0 - o.0)
    }
}

impl Mul for Single {
    type Output = Single;
    fn mul(self, o: Single) -> Single {
        Single(self.0 * o.0)
    }
}

impl Div for Single {
    type Output = Single;
    fn div(self, o: Single) -> Single {
        Single(self.0 / o.0)
    }
}

impl IntoRad<Single> for DegreeAngle<Single> {
    fn into_rad(&self) -> Single {
        Single(self.0 .0.to_radians())
    }
}

impl IntoDeg<Single> for RadianAngle<Single> {
    fn into_deg(&self) -> Single {
        Single(self.0 .0.to_degrees())
    }
}

/// The same for double precision.
#[derive(Debug, Clone, Copy, PartialEq)]
struct Double(f64);

impl Add for Double {
    type Output = Double;
    fn add(self, o: Double) -> Double {
        Double(self.0 + o.0)
    }
}

impl IntoRad<Double> for DegreeAngle<Double> {
    fn into_rad(&self) -> Double {
        Double(self.0 .0.to_radians())
    }
}

impl IntoDeg<Double> for RadianAngle<Double> {
    fn into_deg(&self) -> Double {
        Double(self.0 .0.to_degrees())
    }
}

#[test]
fn test_angles() {
    let pi_by_two = RadianAngle(Single(0.5 * PI32));
    let pi = RadianAngle(Single(PI32));
    let ninety = DegreeAngle(Single(90.0));
    assert_eq!(pi_by_two, ninety);
    let three_pi_by_two = pi_by_two + pi;
    let two_seventy = DegreeAngle(Single(270.0));
    assert_eq!(three_pi_by_two, two_seventy);
}

#[test]
fn lib_test_deg_rad_arithmetic() {
    let pi_by_two = RadianAngle(Single(0.5 * PI32));
    let ninety = DegreeAngle(Single(90.0));
    // the right-hand side wins, so the resulting angle is a `RadianAngle`
    let straight_angle = ninety + pi_by_two;
    assert_eq!(Single(PI32), straight_angle.into_rad());
}

#[test]
fn lib_test_rad_deg_arithmetic() {
    let pi_by_two = RadianAngle(Single(0.5 * PI32));
    let ninety = DegreeAngle(Single(90.0));
    // the right-hand side wins, so the resulting angle is a `DegreeAngle`
    let straight_angle = pi_by_two + ninety;
    assert_eq!(Single(180.0), straight_angle.into_deg());
}

#[test]
fn trig_coerce_test_deg_rad_arithmetic() {
    let pi_by_two = RadianAngle(Single(0.5 * PI32));
    let ninety = DegreeAngle(Single(90.0));
    let straight_angle = ninety + pi_by_two;
    assert_eq!(Single(PI32), straight_angle.into_rad());
}

#[test]
fn trig_coerce_test_rad_deg_arithmetic() {
    let pi_by_two = RadianAngle(Single(0.5 * PI32));
    let ninety = DegreeAngle(Single(90.0));
    let straight_angle = pi_by_two + ninety;
    assert_eq!(Single(180.0), straight_angle.into_deg());
}

#[test]
fn round_trip_through_radians_is_close() {
    for v in [0.0f64, 1.0, -45.5, 90.0, 359.99, 720.0, -1234.5] {
        let rad = DegreeAngle(Double(v)).into_rad();
        let back = RadianAngle(rad).into_deg();
        assert!((back.0 - v).abs() <= 1e-9 * (1.0 + v.abs()));
    }
    for v in [0.0f32, 30.0, -90.0, 400.0] {
        let rad = DegreeAngle(Single(v)).into_rad();
        let back = RadianAngle(rad).into_deg();
        assert!((back.0 - v).abs() <= 1e-4 * (1.0 + v.abs()));
    }
}

#[test]
fn same_unit_equality_is_reflexive() {
    for v in [0.0f32, -0.0, 1.5, -720.25, f32::MAX, f32::MIN_POSITIVE] {
        assert!(DegreeAngle(v) == DegreeAngle(v));
        assert!(RadianAngle(v) == RadianAngle(v));
    }
    for v in [0.0f64, 2.75, -1e300] {
        assert!(DegreeAngle(v) == DegreeAngle(v));
        assert!(RadianAngle(v) == RadianAngle(v));
    }
    assert!(DegreeAngle(3i64) == DegreeAngle(3i64));
    assert!(DegreeAngle(3i64) != DegreeAngle(4i64));
}

#[test]
fn nan_is_not_equal_to_itself() {
    assert!(DegreeAngle(f32::NAN) != DegreeAngle(f32::NAN));
    assert!(RadianAngle(f64::NAN) != RadianAngle(f64::NAN));
}

#[test]
fn cross_unit_equality_is_symmetric() {
    for v in [0.0f64, 0.5, -2.0, PI64, 10.0] {
        let w = RadianAngle(Double(v)).into_deg();
        let r = RadianAngle(Double(v));
        let d = DegreeAngle(w);
        assert_eq!(r == d, d == r);
    }
    let r = RadianAngle(Double(0.5 * PI64));
    let d = DegreeAngle(Double(90.0));
    assert!(r == d);
    assert!(d == r);
    let other = DegreeAngle(Double(91.0));
    assert!(r != other);
    assert!(other != r);
}

#[test]
fn right_operand_unit_wins() {
    let a = DegreeAngle(Single(90.0));
    let b = RadianAngle(Single(0.5 * PI32));
    let ab: RadianAngle<Single> = a + b;
    let ba: DegreeAngle<Single> = b + a;
    assert_eq!(ab.0, Single(PI32));
    assert_eq!(ba.0, Single(180.0));
    assert!(ab.0 != ba.0);
}

#[test]
fn quarter_turn_plus_half_turn_is_two_seventy() {
    let sum = RadianAngle(Single(0.5 * PI32)) + RadianAngle(Single(PI32));
    assert!(sum == DegreeAngle(Single(270.0)));
}

#[test]
fn degree_over_radian_is_a_radian_quotient() {
    let q: RadianAngle<Single> = DegreeAngle(Single(90.0)) / RadianAngle(Single(0.5 * PI32));
    assert_eq!(q.0, Single(90.0f32.to_radians() / (0.5 * PI32)));
}

#[test]
fn radian_over_degree_is_a_degree_quotient() {
    let q: DegreeAngle<Single> = RadianAngle(Single(PI32)) / DegreeAngle(Single(90.0));
    assert_eq!(q.0, Single(PI32.to_degrees() / 90.0));
}

#[test]
fn mixed_subtraction_and_multiplication() {
    let d = DegreeAngle(Single(180.0));
    let r = RadianAngle(Single(0.5 * PI32));
    assert_eq!((d - r).0, Single(180.0f32.to_radians() - 0.5 * PI32));
    assert_eq!((r - d).0, Single((0.5 * PI32).to_degrees() - 180.0));
    assert_eq!((d * r).0, Single(180.0f32.to_radians() * (0.5 * PI32)));
    assert_eq!((r * d).0, Single((0.5 * PI32).to_degrees() * 180.0));
}

#[test]
fn same_unit_arithmetic_keeps_the_unit() {
    assert_eq!((DegreeAngle(30i64) + DegreeAngle(60i64)).0, 90);
    assert_eq!((DegreeAngle(30i64) - DegreeAngle(60i64)).0, -30);
    assert_eq!((DegreeAngle(6i64) * DegreeAngle(7i64)).0, 42);
    assert_eq!((DegreeAngle(90i64) / DegreeAngle(4i64)).0, 22);
    assert_eq!((RadianAngle(3.0f64) + RadianAngle(0.5)).0, 3.5);
    assert_eq!((RadianAngle(3.0f64) - RadianAngle(0.5)).0, 2.5);
    assert_eq!((RadianAngle(3.0f64) * RadianAngle(0.5)).0, 1.5);
    assert_eq!((RadianAngle(3.0f64) / RadianAngle(0.5)).0, 6.0);
}

#[test]
fn magnitudes_are_not_normalised() {
    let d = DegreeAngle(720.0f64) + DegreeAngle(-1000.0);
    assert_eq!(d.0, -280.0);
    assert_eq!(DegreeAngle(450.0f64).into_deg(), 450.0);
    assert_eq!(RadianAngle(-7.0f64).into_rad(), -7.0);
}

#[test]
fn identity_conversions_return_the_magnitude() {
    assert_eq!(DegreeAngle(Single(12.5)).into_deg(), Single(12.5));
    assert_eq!(RadianAngle(Single(-3.25)).into_rad(), Single(-3.25));
}

#[test]
fn infinity_and_nan_propagate() {
    let inf = DegreeAngle(f64::INFINITY) + DegreeAngle(1.0);
    assert_eq!(inf.0, f64::INFINITY);
    let nan = RadianAngle(f64::NAN) * RadianAngle(2.0);
    assert!(nan.0.is_nan());
}

/// A coarse integer kind whose two conversions are deliberately not inverse of each other,
/// so that a comparison shows which side was converted.
#[derive(Debug, Clone, Copy, PartialEq)]
struct Coarse(i64);

impl IntoRad<Coarse> for DegreeAngle<Coarse> {
    fn into_rad(&self) -> Coarse {
        Coarse(self.0 .0 / 10)
    }
}

impl IntoDeg<Coarse> for RadianAngle<Coarse> {
    fn into_deg(&self) -> Coarse {
        Coarse(self.0 .0 * 10 + 1)
    }
}

#[test]
fn cross_unit_equality_converts_the_degree_side() {
    let d = DegreeAngle(Coarse(20));
    let r = RadianAngle(Coarse(2));
    assert_eq!(r.into_deg(), Coarse(21));
    assert!(r == d);
    assert!(d == r);
    let d2 = DegreeAngle(Coarse(21));
    assert!(r == d2);
    assert!(d2 == r);
    assert!(RadianAngle(Coarse(3)) != d);
    assert!(d != RadianAngle(Coarse(3)));
}
