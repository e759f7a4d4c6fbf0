use imgui_support::rational::Rational;

#[test]
fn from_int_is_over_one() {
    let r = Rational::from_int(-7);
    assert_eq!(r.num, -7);
    assert_eq!(r.den, 1);
}

#[test]
fn new_keeps_positive_denominator() {
    let r = Rational::new(3, 4).unwrap();
    assert_eq!(r.num, 3);
    assert_eq!(r.den, 4);
}

#[test]
fn new_moves_sign_to_numerator() {
    let r = Rational::new(3, -4).unwrap();
    assert_eq!(r.num, -3);
    assert_eq!(r.den, 4);
}

#[test]
fn new_rejects_zero_denominator() {
    assert!(Rational::new(1, 0).is_none());
}

#[test]
fn new_rejects_unnegatable_extremes() {
    assert!(Rational::new(i64::MIN, -1).is_none());
    assert!(Rational::new(1, i64::MIN).is_none());
}

#[test]
fn mul_is_exact() {
    let a = Rational::new(2, 3).unwrap();
    let b = Rational::new(5, 7).unwrap();
    let c = a.mul(b).unwrap();
    assert_eq!(c.num, 10);
    assert_eq!(c.den, 21);
}

#[test]
fn mul_reports_overflow() {
    let a = Rational::from_int(i64::MAX);
    let b = Rational::from_int(2);
    assert!(a.mul(b).is_none());
}

#[test]
fn add_is_exact_over_the_product_denominator() {
    let a = Rational::new(1, 2).unwrap();
    let b = Rational::new(1, 3).unwrap();
    let c = a.add(b).unwrap();
    assert_eq!(c.num, 5);
    assert_eq!(c.den, 6);
}

#[test]
fn add_of_zero_keeps_the_representation() {
    let a = Rational::new(3, 4).unwrap();
    let z = Rational::new(0, 9).unwrap();
    let c = a.add(z).unwrap();
    assert_eq!(c.num, 3);
    assert_eq!(c.den, 4);
}

#[test]
fn sub_is_exact() {
    let a = Rational::new(1, 2).unwrap();
    let b = Rational::new(1, 3).unwrap();
    let c = a.sub(b).unwrap();
    assert_eq!(c.num, 1);
    assert_eq!(c.den, 6);
}

#[test]
fn div_is_exact_and_keeps_denominator_positive() {
    let a = Rational::new(1, 2).unwrap();
    let b = Rational::new(-3, 4).unwrap();
    let c = a.div(b).unwrap();
    assert_eq!(c.num, -4);
    assert_eq!(c.den, 6);
}

#[test]
fn div_by_zero_is_none() {
    let a = Rational::from_int(1);
    let z = Rational::new(0, 5).unwrap();
    assert!(a.div(z).is_none());
}

#[test]
fn trunc_rounds_toward_zero() {
    assert_eq!(Rational::new(7, 2).unwrap().trunc(), 3);
    assert_eq!(Rational::new(-7, 2).unwrap().trunc(), -3);
    assert_eq!(Rational::new(6, 3).unwrap().trunc(), 2);
    assert_eq!(Rational::new(0, 9).unwrap().trunc(), 0);
}

#[test]
fn trunc_sat_clamps_into_the_pixel_range() {
    let big = Rational::from_int(i64::MAX);
    assert_eq!(big.trunc_sat_i32(), i32::MAX);
    let small = Rational::from_int(i64::MIN);
    assert_eq!(small.trunc_sat_i32(), i32::MIN);
    let mid = Rational::new(-9, 4).unwrap();
    assert_eq!(mid.trunc_sat_i32(), -2);
}
