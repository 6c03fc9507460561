use cursednoise::binary32::{
    ALL_ONES, F32, INFINITY, MAX, MIN, NAN, NEG_INFINITY, ONE, SIGN, TWO, ZERO,
};

fn f(x: f32) -> F32 {
    F32::from_bits(x.to_bits())
}

fn v(x: F32) -> f32 {
    f32::from_bits(x.to_bits())
}

#[test]
fn constants_are_the_patterns_they_name() {
    assert_eq!(v(F32::from_bits(ZERO)), 0.0);
    assert_eq!(v(F32::from_bits(ONE)), 1.0);
    assert_eq!(v(F32::from_bits(TWO)), 2.0);
    assert_eq!(v(F32::from_bits(MAX)), f32::MAX);
    assert_eq!(v(F32::from_bits(MIN)), f32::MIN);
    assert_eq!(SIGN, (-0.0f32).to_bits());
    assert!(v(F32::from_bits(NAN)).is_nan());
    assert_eq!(ALL_ONES, u32::MAX);
}

#[test]
fn plus_adds() {
    assert_eq!(v(f(1.5).plus(f(2.25))), 3.75);
    assert_eq!(F32::from_bits(ONE).plus(F32::from_bits(ONE)), F32::from_bits(TWO));
    assert_eq!(v(f(0.1).plus(f(0.2))), 0.1f32 + 0.2f32);
}

#[test]
fn minus_subtracts() {
    assert_eq!(v(f(1.5).minus(f(2.25))), -0.75);
    assert_eq!(v(f(0.3).minus(f(0.1))), 0.3f32 - 0.1f32);
}

#[test]
fn times_multiplies() {
    assert_eq!(v(f(1.5).times(f(2.0))), 3.0);
    assert_eq!(v(f(0.1).times(f(0.3))), 0.1f32 * 0.3f32);
}

#[test]
fn over_divides() {
    assert_eq!(v(f(3.0).over(f(2.0))), 1.5);
    assert_eq!(v(f(1.0).over(f(3.0))), 1.0f32 / 3.0f32);
    assert_eq!(v(f(1.0).over(f(0.0))), f32::INFINITY);
}

#[test]
fn floor_rounds_down() {
    assert_eq!(v(f(1.75).floor()), 1.0);
    assert_eq!(v(f(-1.25).floor()), -2.0);
    assert_eq!(v(f(3.0).floor()), 3.0);
}

#[test]
fn to_int_and_from_int_convert() {
    assert_eq!(f(7.0).to_int(), 7);
    assert_eq!(f(-3.0).to_int(), -3);
    assert_eq!(f(f32::NAN).to_int(), 0);
    assert_eq!(f(1.0e20).to_int(), i32::MAX);
    assert_eq!(v(F32::from_int(5)), 5.0);
    assert_eq!(v(F32::from_int(-12)), -12.0);
    assert_eq!(v(F32::from_int(16_777_217)), 16_777_216.0);
}

#[test]
fn nan_results_are_folded() {
    let r = f(f32::INFINITY).minus(f(f32::INFINITY));
    assert_eq!(r.to_bits(), NAN);
    let r = f(0.0).over(f(0.0));
    assert_eq!(r.to_bits(), NAN);
    let odd_nan = F32::from_bits(0xffc0_1234);
    assert!(odd_nan.is_nan());
    assert_eq!(odd_nan.plus(f(1.0)).to_bits(), NAN);
    assert_eq!(odd_nan.floor().to_bits(), NAN);
}

#[test]
fn is_nan_tells_nan_from_numbers() {
    assert!(f(f32::NAN).is_nan());
    assert!(F32::from_bits(0x7f80_0001).is_nan());
    assert!(F32::from_bits(0xff80_0001).is_nan());
    assert!(!f(f32::INFINITY).is_nan());
    assert!(!f(f32::NEG_INFINITY).is_nan());
    assert!(!f(0.0).is_nan());
    assert!(!f(f32::MAX).is_nan());
}

#[test]
fn comparisons_follow_the_number_line() {
    let xs = [
        f32::NEG_INFINITY, f32::MIN, -2.5, -1.0, -f32::MIN_POSITIVE, -0.0, 0.0,
        f32::MIN_POSITIVE, 1.0, 2.5, f32::MAX, f32::INFINITY, f32::NAN,
    ];
    for a in xs {
        for b in xs {
            assert_eq!(f(a).lt(f(b)), a < b);
            assert_eq!(f(a).gt(f(b)), a > b);
            assert_eq!(f(a).same_value(f(b)), a == b);
        }
    }
}

#[test]
fn min_and_max_pick_an_operand() {
    assert_eq!(v(f(1.0).min(f(2.0))), 1.0);
    assert_eq!(v(f(2.0).min(f(1.0))), 1.0);
    assert_eq!(v(f(1.0).max(f(2.0))), 2.0);
    assert_eq!(v(f(-3.0).max(f(-4.0))), -3.0);
    assert_eq!(v(f(f32::NAN).min(f(2.0))), 2.0);
    assert_eq!(v(f(2.0).min(f(f32::NAN))), 2.0);
    assert_eq!(v(f(f32::NAN).max(f(2.0))), 2.0);
    assert_eq!(v(f(2.0).max(f(f32::NAN))), 2.0);
    assert!(f(f32::NAN).min(f(f32::NAN)).is_nan());
}

#[test]
fn abs_clears_the_sign() {
    assert_eq!(v(f(-1.5).abs()), 1.5);
    assert_eq!(v(f(1.5).abs()), 1.5);
    assert_eq!(f(-0.0).abs().to_bits(), 0);
}

#[test]
fn bit_operations_act_on_patterns() {
    let a = F32::from_bits(0x0f0f_00ff);
    let b = F32::from_bits(0x00ff_0f0f);
    assert_eq!(a.and(b).to_bits(), 0x000f_000f);
    assert_eq!(a.or(b).to_bits(), 0x0fff_0fff);
    assert_eq!(a.xor(b).to_bits(), 0x0ff0_0ff0);
    assert_eq!(a.and_not(b).to_bits(), 0x0f00_00f0);
    assert_eq!(v(f(1.5).xor(F32::from_bits(SIGN))), -1.5);
}

#[test]
fn blendv_selects_by_mask() {
    assert_eq!(F32::mask(true).to_bits(), ALL_ONES);
    assert_eq!(F32::mask(false).to_bits(), 0);
    assert_eq!(v(F32::mask(false).blendv(f(1.0), f(2.0))), 1.0);
    assert_eq!(v(F32::mask(true).blendv(f(1.0), f(2.0))), 2.0);
}

#[test]
fn canonical_folds_every_nan() {
    assert_eq!(F32::from_bits(0x7f80_0001).canonical().to_bits(), NAN);
    assert_eq!(F32::from_bits(0xffff_ffff).canonical().to_bits(), NAN);
    assert_eq!(f(f32::INFINITY).canonical(), f(f32::INFINITY));
    assert_eq!(f(-0.0).canonical(), f(-0.0));
    assert_eq!(f(1.5).canonical(), f(1.5));
}

#[test]
fn infinities_are_the_patterns_they_name() {
    assert_eq!(v(F32::from_bits(INFINITY)), f32::INFINITY);
    assert_eq!(v(F32::from_bits(NEG_INFINITY)), f32::NEG_INFINITY);
}

#[test]
fn precedes_orders_numbers_and_tells_the_zeros_apart() {
    let xs = [
        f32::NEG_INFINITY, f32::MIN, -2.5, -1.0, -f32::MIN_POSITIVE, -0.0, 0.0,
        f32::MIN_POSITIVE, 1.0, 2.5, f32::MAX, f32::INFINITY,
    ];
    for (i, a) in xs.iter().enumerate() {
        for (j, b) in xs.iter().enumerate() {
            assert_eq!(f(*a).precedes(f(*b)), i < j);
        }
        assert!(!f(*a).precedes(f(f32::NAN)));
        assert!(!f(f32::NAN).precedes(f(*a)));
    }
}

#[test]
fn lowest_and_highest_are_settled() {
    assert_eq!(f(1.0).lowest(f(2.0)), f(1.0));
    assert_eq!(f(2.0).lowest(f(1.0)), f(1.0));
    assert_eq!(f(1.0).highest(f(2.0)), f(2.0));
    assert_eq!(f(2.0).highest(f(1.0)), f(2.0));
    assert_eq!(f(-3.0).lowest(f(-4.0)), f(-4.0));
    assert_eq!(f(-3.0).highest(f(-4.0)), f(-3.0));
    assert_eq!(f(0.0).lowest(f(-0.0)), f(-0.0));
    assert_eq!(f(-0.0).lowest(f(0.0)), f(-0.0));
    assert_eq!(f(0.0).highest(f(-0.0)), f(0.0));
    assert_eq!(f(-0.0).highest(f(0.0)), f(0.0));
    assert_eq!(f(f32::NAN).lowest(f(2.0)), f(2.0));
    assert_eq!(f(2.0).lowest(f(f32::NAN)), f(2.0));
    assert_eq!(f(f32::NAN).highest(f(2.0)), f(2.0));
    assert_eq!(f(2.0).highest(f(f32::NAN)), f(2.0));
    assert!(f(f32::NAN).lowest(f(f32::NAN)).is_nan());
    assert_eq!(f(f32::INFINITY).lowest(f(f32::INFINITY)), f(f32::INFINITY));
    assert_eq!(f(f32::INFINITY).lowest(f(f32::MAX)), f(f32::MAX));
    assert_eq!(f(f32::NEG_INFINITY).highest(f(f32::MIN)), f(f32::MIN));
    assert_eq!(f(f32::INFINITY).highest(f(f32::NEG_INFINITY)), f(f32::INFINITY));
}
