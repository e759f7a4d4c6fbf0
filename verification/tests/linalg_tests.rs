use imgui_support::linalg::{mat_vec_mul, Mat4, Vec4};
use imgui_support::rational::Rational;

fn rat(v: i64) -> Rational {
    Rational::from_int(v)
}

#[test]
fn identity_returns_the_vector_unchanged() {
    let m = Mat4::identity();
    let v = Vec4::new(rat(3), rat(-4), rat(0), rat(1));
    let r = mat_vec_mul(&m, &v).unwrap();
    assert_eq!(r.x.num, 3);
    assert_eq!(r.x.den, 1);
    assert_eq!(r.y.num, -4);
    assert_eq!(r.y.den, 1);
    assert_eq!(r.z.num, 0);
    assert_eq!(r.w.num, 1);
    assert_eq!(r.w.den, 1);
}

#[test]
fn row_vector_convention_picks_up_the_translation_row() {
    // A pure translation in row-major layout: the translation sits in
    // the fourth row, so a point with w = 1 is shifted by it.
    let o = rat(1);
    let z = rat(0);
    let m = Mat4::new([
        o, z, z, z,
        z, o, z, z,
        z, z, o, z,
        rat(10), rat(20), rat(30), o,
    ]);
    let v = Vec4::new(rat(1), rat(2), rat(3), rat(1));
    let r = mat_vec_mul(&m, &v).unwrap();
    assert_eq!(r.x.num, 11 * r.x.den);
    assert_eq!(r.y.num, 22 * r.y.den);
    assert_eq!(r.z.num, 33 * r.z.den);
    assert_eq!(r.w.num, r.w.den);
}

#[test]
fn general_product_is_the_exact_dot_of_each_column() {
    // out[i] = sum_j v[j] * m[j*4 + i] with exact fractions.
    let m = Mat4::new([
        rat(1), rat(2), rat(3), rat(4),
        rat(5), rat(6), rat(7), rat(8),
        rat(9), rat(10), rat(11), rat(12),
        rat(13), rat(14), rat(15), rat(16),
    ]);
    let v = Vec4::new(rat(1), rat(1), rat(1), rat(1));
    let r = mat_vec_mul(&m, &v).unwrap();
    assert_eq!(r.x.num, 28 * r.x.den);
    assert_eq!(r.y.num, 32 * r.y.den);
    assert_eq!(r.z.num, 36 * r.z.den);
    assert_eq!(r.w.num, 40 * r.w.den);
}

#[test]
fn overflowing_product_is_reported() {
    let big = Rational::from_int(i64::MAX);
    let m = Mat4::new([
        big, big, big, big,
        big, big, big, big,
        big, big, big, big,
        big, big, big, big,
    ]);
    let v = Vec4::new(big, big, big, big);
    assert!(mat_vec_mul(&m, &v).is_none());
}
