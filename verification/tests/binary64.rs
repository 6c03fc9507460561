use cursednoise::binary32::F32;
use cursednoise::binary64::{
    ALL_ONES, F64, INFINITY, MAX, MIN, NAN, NEG_INFINITY, ONE, SIGN, TWO, ZERO,
};

fn f(x: f64) -> F64 {
    F64::from_bits(x.to_bits())
}

fn v(x: F64) -> f64 {
    f64::from_bits(x.to_bits())
}

#[test]
fn constants_64_are_the_patterns_they_name() {
    assert_eq!(v(F64::from_bits(ZERO)), 0.0);
    assert_eq!(v(F64::from_bits(ONE)), 1.0);
    assert_eq!(v(F64::from_bits(TWO)), 2.0);
    assert_eq!(v(F64::from_bits(MAX)), f64::MAX);
    assert_eq!(v(F64::from_bits(MIN)), f64::MIN);
    assert_eq!(SIGN, (-0.0f64).to_bits());
    assert!(v(F64::from_bits(NAN)).is_nan());
    assert_eq!(ALL_ONES, u64::MAX);
}

#[test]
fn arithmetic_64_is_that_of_the_machine() {
    assert_eq!(v(f(0.1).plus(f(0.2))), 0.1f64 + 0.2f64);
    assert_eq!(v(f(0.3).minus(f(0.1))), 0.3f64 - 0.1f64);
    assert_eq!(v(f(0.1).times(f(0.3))), 0.1f64 * 0.3f64);
    assert_eq!(v(f(1.5).plus(f(2.25))), 3.75);
    assert_eq!(v(f(1.5).minus(f(2.25))), -0.75);
    assert_eq!(v(f(1.5).times(f(2.0))), 3.0);
}

#[test]
fn floor_and_conversions_64() {
    assert_eq!(v(f(1.75).floor()), 1.0);
    assert_eq!(v(f(-1.25).floor()), -2.0);
    assert_eq!(f(7.0).to_int(), 7);
    assert_eq!(f(-3.0).to_int(), -3);
    assert_eq!(f(f64::NAN).to_int(), 0);
    assert_eq!(f(1.0e30).to_int(), i64::MAX);
    assert_eq!(v(F64::from_int(5)), 5.0);
    assert_eq!(v(F64::from_int(-12)), -12.0);
}

#[test]
fn from_f32_keeps_the_number() {
    let x = 0.02f32;
    assert_eq!(v(F64::from_f32(F32::from_bits(x.to_bits()))), x as f64);
    assert_eq!(v(F64::from_f32(F32::from_bits(1.0f32.to_bits()))), 1.0);
    assert_eq!(v(F64::from_f32(F32::from_bits(f32::MAX.to_bits()))), f32::MAX as f64);
    assert_eq!(F64::from_f32(F32::from_bits(f32::NAN.to_bits())).to_bits(), NAN);
}

#[test]
fn nan_results_64_are_folded() {
    assert_eq!(f(f64::INFINITY).minus(f(f64::INFINITY)).to_bits(), NAN);
    let odd_nan = F64::from_bits(0xfff8_0000_0000_1234);
    assert!(odd_nan.is_nan());
    assert_eq!(odd_nan.times(f(1.0)).to_bits(), NAN);
}

#[test]
fn comparisons_64_follow_the_number_line() {
    let xs = [
        f64::NEG_INFINITY, f64::MIN, -2.5, -1.0, -f64::MIN_POSITIVE, -0.0, 0.0,
        f64::MIN_POSITIVE, 1.0, 2.5, f64::MAX, f64::INFINITY, f64::NAN,
    ];
    for a in xs {
        for b in xs {
            assert_eq!(f(a).lt(f(b)), a < b);
            assert_eq!(f(a).gt(f(b)), a > b);
            assert_eq!(f(a).same_value(f(b)), a == b);
        }
    }
}

#[test]
fn min_and_max_64_pick_an_operand() {
    assert_eq!(v(f(1.0).min(f(2.0))), 1.0);
    assert_eq!(v(f(1.0).max(f(2.0))), 2.0);
    assert_eq!(v(f(f64::NAN).min(f(2.0))), 2.0);
    assert_eq!(v(f(2.0).max(f(f64::NAN))), 2.0);
}

#[test]
fn abs_and_masks_64() {
    assert_eq!(v(f(-1.5).abs()), 1.5);
    assert_eq!(v(f(1.5).xor(F64::from_bits(SIGN))), -1.5);
    assert_eq!(v(F64::mask(false).blendv(f(1.0), f(2.0))), 1.0);
    assert_eq!(v(F64::mask(true).blendv(f(1.0), f(2.0))), 2.0);
}

#[test]
fn canonical_64_folds_every_nan() {
    assert_eq!(F64::from_bits(0x7ff0_0000_0000_0001).canonical().to_bits(), NAN);
    assert_eq!(F64::from_bits(u64::MAX).canonical().to_bits(), NAN);
    assert_eq!(f(f64::NEG_INFINITY).canonical(), f(f64::NEG_INFINITY));
    assert_eq!(f(1.5).canonical(), f(1.5));
}

#[test]
fn precedes_64_orders_numbers_and_tells_the_zeros_apart() {
    assert_eq!(v(F64::from_bits(INFINITY)), f64::INFINITY);
    assert_eq!(v(F64::from_bits(NEG_INFINITY)), f64::NEG_INFINITY);
    let xs = [
        f64::NEG_INFINITY, f64::MIN, -2.5, -1.0, -f64::MIN_POSITIVE, -0.0, 0.0,
        f64::MIN_POSITIVE, 1.0, 2.5, f64::MAX, f64::INFINITY,
    ];
    for (i, a) in xs.iter().enumerate() {
        for (j, b) in xs.iter().enumerate() {
            assert_eq!(f(*a).precedes(f(*b)), i < j);
        }
        assert!(!f(*a).precedes(f(f64::NAN)));
        assert!(!f(f64::NAN).precedes(f(*a)));
    }
}

#[test]
fn lowest_and_highest_64_are_settled() {
    assert_eq!(f(2.0).lowest(f(1.0)), f(1.0));
    assert_eq!(f(1.0).highest(f(2.0)), f(2.0));
    assert_eq!(f(0.0).lowest(f(-0.0)), f(-0.0));
    assert_eq!(f(-0.0).lowest(f(0.0)), f(-0.0));
    assert_eq!(f(0.0).highest(f(-0.0)), f(0.0));
    assert_eq!(f(-0.0).highest(f(0.0)), f(0.0));
    assert_eq!(f(f64::NAN).lowest(f(2.0)), f(2.0));
    assert_eq!(f(2.0).highest(f(f64::NAN)), f(2.0));
    assert_eq!(f(f64::INFINITY).lowest(f(f64::INFINITY)), f(f64::INFINITY));
    assert_eq!(f(f64::INFINITY).lowest(f(f64::MAX)), f(f64::MAX));
}
