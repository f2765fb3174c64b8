use ion_math::angle::{Deg, Rad};
use ion_math::util::{self, Clamp, Fraction, Lerp, MinMax};

#[test]
fn clamp_scenarios() {
    assert_eq!(util::clamp(15, 0, 10), 10);
    assert_eq!(util::clamp(-5, 0, 10), 0);
    assert_eq!(util::clamp(5, 0, 10), 5);
}

#[test]
fn clamp_trait_on_scalars() {
    assert_eq!(Clamp::clamp(&121u32, &0, &100), 100);
    assert_eq!(Clamp::clamp(&-3i64, &-2, &2), -2);
}

#[test]
fn max_and_min() {
    assert_eq!(util::max(43, 7), 43);
    assert_eq!(util::min(43, 7), 7);
    assert_eq!(util::max(-1i64, -1), -1);
    assert_eq!(<i32 as MinMax>::max(3, 9), 9);
    assert_eq!(<i32 as MinMax>::min(3, 9), 3);
}

#[test]
fn lerp_boundaries_are_exact() {
    assert_eq!(util::lerp(7, 300, Fraction::new(0, 5)), 7);
    assert_eq!(util::lerp(7, 300, Fraction::new(5, 5)), 300);
    assert_eq!(util::lerp(-9i64, -90, Fraction::new(0, 1)), -9);
    assert_eq!(util::lerp(-9i64, -90, Fraction::new(1, 1)), -90);
}

#[test]
fn lerp_truncates_toward_zero() {
    assert_eq!(util::lerp(1, 256, Fraction::new(1, 2)), 128);
    assert_eq!(util::lerp(-1, -256, Fraction::new(1, 2)), -128);
    assert_eq!(util::lerp(-1, 0, Fraction::new(1, 2)), 0);
}

#[test]
fn lerp_clamps_the_fraction() {
    assert_eq!(util::lerp(10, 20, Fraction::new(3, 2)), 20);
    assert_eq!(util::lerp(10, 20, Fraction::new(-1, 2)), 10);
    assert_eq!(<i32 as Lerp>::lerp(&10, &20, Fraction::new(7, 4)), 20);
}

#[test]
fn lerp_unclamped_extrapolates() {
    assert_eq!(util::lerp::lerp_unclamped(10, 20, Fraction::new(3, 2)), 25);
    assert_eq!(util::lerp::lerp_unclamped(10, 20, Fraction::new(-1, 2)), 5);
    assert_eq!(<u32 as Lerp>::lerp_unclamped(&10, &20, Fraction::new(1, 4)), 12);
}

#[test]
fn fraction_clamped() {
    assert_eq!(Fraction::new(-3, 4).clamped(), Fraction::new(0, 4));
    assert_eq!(Fraction::new(9, 4).clamped(), Fraction::new(4, 4));
    assert_eq!(Fraction::new(3, 4).clamped(), Fraction::new(3, 4));
}

#[test]
fn angles_hold_their_value() {
    assert_eq!(Deg::<i64>::new(45i32).value, 45);
    assert_eq!(Rad::<u32>::new(3u64).value, 3);
}

#[test]
fn lerp_at_the_extremes_of_i64() {
    assert_eq!(util::lerp(i64::MIN, i64::MAX, Fraction::new(1, 2)), 0);
    assert_eq!(util::lerp(i64::MIN, i64::MAX, Fraction::new(0, 7)), i64::MIN);
    assert_eq!(util::lerp(i64::MIN, i64::MAX, Fraction::new(7, 7)), i64::MAX);
    // u64::MAX is (2^32 - 1) * (2^32 + 1), so the quotient is exact
    assert_eq!(
        util::lerp(0u64, u64::MAX, Fraction::new(i32::MAX, u32::MAX)),
        ((1u64 << 32) + 1) * ((1u64 << 31) - 1)
    );
}

#[test]
fn lerp_with_the_largest_denominator() {
    let den = u32::MAX;
    assert_eq!(util::lerp(0i64, 10, Fraction::new(i32::MAX, den)), 4);
    assert_eq!(util::lerp(100u32, 0, Fraction::new(1, den)), 99);
}

#[test]
fn clamp_with_extreme_bounds() {
    assert_eq!(util::clamp(i32::MAX, i32::MIN, 0), 0);
    assert_eq!(util::clamp(i32::MIN, -1, i32::MAX), -1);
    assert_eq!(util::clamp(u64::MAX, 0, u64::MAX - 1), u64::MAX - 1);
}
