use ion_math::util::Fraction;
use ion_math::vector::{Vec2, Vec3, Vec4, VecTrait};

#[test]
fn cross_of_right_and_up_is_forward() {
    let r = Vec3::<i32>::new(1, 0, 0).cross(&Vec3::new(0, 1, 0));
    assert_eq!(r, Vec3::<i32>::new(0, 0, 1));
}

#[test]
fn cross_general_values() {
    let a = Vec3::<i64>::new(1, 3, 6);
    let b = Vec3::<i64>::new(4, 9, 2);
    assert_eq!(a.cross(&b), Vec3::<i64>::new(3 * 2 - 6 * 9, 6 * 4 - 1 * 2, 1 * 9 - 3 * 4));
}

#[test]
fn cross_is_orthogonal_to_both() {
    let a = Vec3::<i32>::new(2, -7, 5);
    let b = Vec3::<i32>::new(-3, 4, 11);
    let c = a.cross(&b);
    assert_eq!(a.dot(&c), 0);
    assert_eq!(b.dot(&c), 0);
}

#[test]
fn add_and_mul_commute() {
    let a = Vec4::<i32>::new(1, -2, 3, 40);
    let b = Vec4::<i32>::new(7, 5, -6, 2);
    assert_eq!(a + b, b + a);
    assert_eq!(a * b, b * a);
    assert_eq!(a + b, Vec4::<i32>::new(8, 3, -3, 42));
    assert_eq!(a * b, Vec4::<i32>::new(7, -10, -18, 80));
}

#[test]
fn component_wise_operators() {
    let a = Vec2::<i32>::new(9, -7);
    let b = Vec2::<i32>::new(2, 2);
    assert_eq!(a - b, Vec2::<i32>::new(7, -9));
    assert_eq!(a / b, Vec2::<i32>::new(4, -3));
    assert_eq!(a + 1, Vec2::<i32>::new(10, -6));
    assert_eq!(a - 1, Vec2::<i32>::new(8, -8));
    assert_eq!(a * 3, Vec2::<i32>::new(27, -21));
    assert_eq!(a / 2, Vec2::<i32>::new(4, -3));
}

#[test]
fn assigning_operators() {
    let mut v = Vec3::<i64>::new(1, 2, 3);
    v += Vec3::new(1, 1, 1);
    assert_eq!(v, Vec3::<i64>::new(2, 3, 4));
    v -= 2;
    assert_eq!(v, Vec3::<i64>::new(0, 1, 2));
    v *= Vec3::new(5, 5, -5);
    assert_eq!(v, Vec3::<i64>::new(0, 5, -10));
    v /= 5;
    assert_eq!(v, Vec3::<i64>::new(0, 1, -2));
    v += 10;
    v *= 2;
    v -= Vec3::new(1, 1, 1);
    v /= Vec3::new(1, 3, -5);
    assert_eq!(v, Vec3::<i64>::new(19, 7, -3));
}

#[test]
fn indexing_reads_and_writes_components() {
    let mut v = Vec4::<u32>::new(1, 2, 3, 4);
    assert_eq!(v[0], 1);
    assert_eq!(v[3], 4);
    v[2] = 30;
    assert_eq!(v, Vec4::<u32>::new(1, 2, 30, 4));
}

#[test]
fn dot_product_values() {
    assert_eq!(Vec2::<i32>::new(3, 4).dot(&Vec2::new(3, 4)), 25);
    assert_eq!(Vec4::<u64>::new(1, 2, 3, 4).dot(&Vec4::new(5, 6, 7, 8)), 70);
}

#[test]
fn presets() {
    assert_eq!(Vec2::<i32>::up(), Vec2::<i32>::new(0, 1));
    assert_eq!(Vec2::<i32>::down(), Vec2::<i32>::new(0, -1));
    assert_eq!(Vec2::<i32>::left(), Vec2::<i32>::new(-1, 0));
    assert_eq!(Vec2::<i32>::right(), Vec2::<i32>::new(1, 0));
    assert_eq!(Vec2::<i32>::zero(), Vec2::<i32>::new(0, 0));
    assert_eq!(Vec3::<i64>::forward(), Vec3::<i64>::new(0, 0, 1));
    assert_eq!(Vec3::<i64>::back(), Vec3::<i64>::new(0, 0, -1));
    assert_eq!(Vec4::<i32>::back(), Vec4::<i32>::new(0, 0, -1, 0));
    assert_eq!(Vec4::<u32>::up(), Vec4::<u32>::new(0, 1, 0, 0));
    assert_eq!(Vec4::<u32>::default(), Vec4::<u32>::zero());
}

#[test]
fn conversions_between_dimensions() {
    let v2 = Vec2::<i32>::new(5, -6);
    let v3 = Vec3::from(&v2);
    assert_eq!(v3, Vec3::<i32>::new(5, -6, 0));
    assert_eq!(Vec2::from(&v3), v2);
    let v4 = Vec4::from(&v3);
    assert_eq!(v4, Vec4::<i32>::new(5, -6, 0, 0));
    assert_eq!(Vec3::from(&v4), v3);
    assert_eq!(Vec2::from(&Vec4::from(&v2)), v2);
    let w = Vec4::<i32>::new(1, 2, 3, 4);
    assert_eq!(Vec3::from(&w), Vec3::<i32>::new(1, 2, 3));
    assert_eq!(Vec4::from(&Vec3::from(&w)), Vec4::<i32>::new(1, 2, 3, 0));
    assert_eq!(Vec3::from(7i64), Vec3::<i64>::new(7, 7, 7));
}

#[test]
fn new_converts_between_scalar_types() {
    let v = Vec3::<u64>::new(1i32, 2, 3);
    assert_eq!(v, Vec3 { x: 1u64, y: 2, z: 3 });
}

#[test]
fn min_max_and_clamp_per_component() {
    let a = Vec3::<i32>::new(1, 8, -3);
    let b = Vec3::<i32>::new(4, 2, -3);
    assert_eq!(Vec3::max(&a, &b), Vec3::<i32>::new(4, 8, -3));
    assert_eq!(Vec3::min(&a, &b), Vec3::<i32>::new(1, 2, -3));
    let v = Vec3::<i32>::new(15, -5, 5);
    let lo = Vec3::<i32>::from(0);
    let hi = Vec3::<i32>::from(10);
    assert_eq!(v.clamp(&lo, &hi), Vec3::<i32>::new(10, 0, 5));
}

#[test]
fn vector_lerp_clamps_and_extrapolates() {
    let a = Vec2::<i32>::new(0, 10);
    let b = Vec2::<i32>::new(100, -10);
    assert_eq!(Vec2::lerp(&a, &b, Fraction::new(1, 2)), Vec2::<i32>::new(50, 0));
    assert_eq!(Vec2::lerp(&a, &b, Fraction::new(0, 1)), a);
    assert_eq!(Vec2::lerp(&a, &b, Fraction::new(1, 1)), b);
    assert_eq!(Vec2::lerp(&a, &b, Fraction::new(3, 2)), b);
    assert_eq!(Vec2::lerp(&a, &b, Fraction::new(-1, 2)), a);
    assert_eq!(Vec2::lerp_unclamped(&a, &b, Fraction::new(3, 2)), Vec2::<i32>::new(150, -20));
    assert_eq!(Vec2::lerp_unclamped(&a, &b, Fraction::new(-1, 2)), Vec2::<i32>::new(-50, 20));
}

#[test]
fn borrowed_operands() {
    let a = Vec3::<i32>::new(4, 6, 8);
    let b = Vec3::<i32>::new(1, 2, 4);
    assert_eq!(&a + &b, Vec3::<i32>::new(5, 8, 12));
    assert_eq!(&a - &b, Vec3::<i32>::new(3, 4, 4));
    assert_eq!(&a * &b, Vec3::<i32>::new(4, 12, 32));
    assert_eq!(&a / &b, Vec3::<i32>::new(4, 3, 2));
    assert_eq!(&a + 1, Vec3::<i32>::new(5, 7, 9));
    assert_eq!(&a / 2, Vec3::<i32>::new(2, 3, 4));
}

#[test]
fn division_truncates_toward_zero() {
    let a = Vec4::<i32>::new(7, -7, 7, -7);
    let b = Vec4::<i32>::new(2, 2, -2, -2);
    assert_eq!(a / b, Vec4::<i32>::new(3, -3, -3, 3));
    assert_eq!(Vec2::<i64>::new(-9, 9) / -4, Vec2::<i64>::new(2, -2));
}

#[test]
fn dot_up_to_the_largest_value() {
    let a = Vec2::<i32>::new(46340, 1);
    assert_eq!(a.dot(&a), 46340 * 46340 + 1);
    let b = Vec3::<u64>::new(u32::MAX, 1, 0);
    assert_eq!(b.dot(&Vec3::new(u32::MAX, 0, 5)), (u32::MAX as u64) * (u32::MAX as u64));
}

#[test]
fn presets_of_every_dimension() {
    assert_eq!(Vec3::<i32>::up(), Vec3::<i32>::new(0, 1, 0));
    assert_eq!(Vec3::<i32>::down(), Vec3::<i32>::new(0, -1, 0));
    assert_eq!(Vec3::<i32>::left(), Vec3::<i32>::new(-1, 0, 0));
    assert_eq!(Vec3::<i32>::right(), Vec3::<i32>::new(1, 0, 0));
    assert_eq!(Vec3::<u32>::zero(), Vec3::<u32>::default());
    assert_eq!(Vec4::<i64>::down(), Vec4::<i64>::new(0, -1, 0, 0));
    assert_eq!(Vec4::<i64>::left(), Vec4::<i64>::new(-1, 0, 0, 0));
    assert_eq!(Vec4::<i64>::right(), Vec4::<i64>::new(1, 0, 0, 0));
    assert_eq!(Vec4::<i64>::forward(), Vec4::<i64>::new(0, 0, 1, 0));
    assert_eq!(Vec4::<i64>::zero(), Vec4::<i64>::new(0, 0, 0, 0));
    assert_eq!(Vec2::<u64>::default(), Vec2 { x: 0u64, y: 0 });
}

#[test]
fn cast_between_scalar_types() {
    let v = Vec3::<i32>::new(-1, 2, 3);
    assert_eq!(Vec3::<i64>::cast(&v), Vec3::<i64>::new(-1, 2, 3));
    let w = Vec2::<u64>::new(7u32, 8);
    assert_eq!(Vec2::<i32>::cast(&w), Vec2::<i32>::new(7, 8));
    assert_eq!(Vec4::<u32>::cast(&Vec4::<i64>::new(1, 2, 3, 4)), Vec4::<u32>::new(1, 2, 3, 4));
}
