use ion_math::matrix::{Mat3, Mat4, MatTrait};
use ion_math::vector::{Vec3, Vec4};

#[test]
fn identity_squared_is_identity() {
    let i = Mat3::<i32>::identity();
    assert_eq!(i * i, Mat3::<i32>::identity());
}

#[test]
fn identity_entries() {
    let i = Mat4::<i64>::identity();
    assert_eq!(i[0], Vec4::<i64>::new(1, 0, 0, 0));
    assert_eq!(i[3], Vec4::<i64>::new(0, 0, 0, 1));
    assert_eq!(i, Mat4::<i64>::new(1, 0, 0, 0, 0, 1, 0, 0, 0, 0, 1, 0, 0, 0, 0, 1));
}

#[test]
fn identity_is_neutral() {
    let m = Mat3::<i32>::new(1, 2, 3, 4, 5, 6, 7, 8, 9);
    let i = Mat3::<i32>::identity();
    assert_eq!(i * m, m);
    assert_eq!(m * i, m);
}

#[test]
fn product_row_by_column() {
    let a = Mat3::<i32>::new(1, 2, 3, 4, 5, 6, 7, 8, 9);
    let b = Mat3::<i32>::new(9, 8, 7, 6, 5, 4, 3, 2, 1);
    assert_eq!(a * b, Mat3::<i32>::new(30, 24, 18, 84, 69, 54, 138, 114, 90));
}

#[test]
fn product_of_four_by_four() {
    let a = Mat4::<i64>::new(1, 2, 3, 4, 5, 6, 7, 8, 9, 10, 11, 12, 13, 14, 15, 16);
    let b = Mat4::<i64>::new(1, 0, 0, 1, 0, 1, 1, 0, 2, 0, 0, 2, 0, 0, 0, 1);
    let p = a * b;
    assert_eq!(p[0], Vec4::<i64>::new(7, 2, 2, 11));
    assert_eq!(p[3], Vec4::<i64>::new(43, 14, 14, 59));
}

#[test]
fn product_is_associative() {
    let a = Mat3::<i64>::new(1, -2, 3, 0, 4, 5, -1, 2, 2);
    let b = Mat3::<i64>::new(2, 0, 1, 3, -1, 4, 5, 6, 0);
    let c = Mat3::<i64>::new(-3, 1, 1, 2, 2, -2, 0, 1, 7);
    assert_eq!((a * b) * c, a * (b * c));
}

#[test]
fn uniform_and_row_constructors() {
    assert_eq!(Mat3::<u32>::from(2), Mat3::<u32>::new(2, 2, 2, 2, 2, 2, 2, 2, 2));
    let row = Vec3::<i32>::new(1, 2, 3);
    assert_eq!(Mat3::from(&row), Mat3::<i32>::new(1, 2, 3, 1, 2, 3, 1, 2, 3));
    assert_eq!(Mat4::<i32>::zero(), Mat4::<i32>::from(0));
    assert_eq!(Mat4::<i32>::default(), Mat4::<i32>::zero());
}

#[test]
fn rows_can_be_replaced_by_index() {
    let mut m = Mat3::<i32>::zero();
    m[1] = Vec3::new(4, 5, 6);
    m[2][0] = 9;
    assert_eq!(m, Mat3::<i32>::new(0, 0, 0, 4, 5, 6, 9, 0, 0));
}

#[test]
fn borrowed_product() {
    let a = Mat3::<i32>::new(1, 2, 3, 4, 5, 6, 7, 8, 9);
    let b = Mat3::<i32>::identity();
    assert_eq!(&a * &b, a);
}
