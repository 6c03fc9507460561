use cursednoise::binary32::F32;
use cursednoise::binary64::F64;
use cursednoise::vector_32::{Vf32, SCALAR_WIDTH, WIDE_WIDTH};
use cursednoise::vector_64::{Vf64, SCALAR_WIDTH_64, WIDE_WIDTH_64};

fn f(x: f32) -> F32 {
    F32::from_bits(x.to_bits())
}

fn v(x: F32) -> f32 {
    f32::from_bits(x.to_bits())
}

fn d(x: f64) -> F64 {
    F64::from_bits(x.to_bits())
}

fn w(x: F64) -> f64 {
    f64::from_bits(x.to_bits())
}

fn ramp() -> Vf32<8> {
    let mut x = Vf32::<8>::set1(f(0.0));
    for l in 0..8 {
        x = x.with_lane(l, f(l as f32 + 0.5));
    }
    x
}

#[test]
fn widths_of_the_engines() {
    assert_eq!((SCALAR_WIDTH, WIDE_WIDTH), (1, 8));
    assert_eq!((SCALAR_WIDTH_64, WIDE_WIDTH_64), (1, 4));
}

#[test]
fn set1_fills_every_lane() {
    let x = Vf32::<8>::set1(f(2.5));
    for l in 0..8 {
        assert_eq!(v(x.lane(l)), 2.5);
    }
    let y = Vf64::<4>::set1(d(2.5));
    for l in 0..4 {
        assert_eq!(w(y.lane(l)), 2.5);
    }
}

#[test]
fn with_lane_changes_one_lane() {
    let x = Vf32::<8>::set1(f(1.0)).with_lane(3, f(9.0));
    for l in 0..8 {
        assert_eq!(v(x.lane(l)), if l == 3 { 9.0 } else { 1.0 });
    }
    let lanes = [f(1.0), f(2.0), f(3.0)];
    let y = Vf32::<3>::from_lanes(lanes);
    assert_eq!((v(y.lane(0)), v(y.lane(1)), v(y.lane(2))), (1.0, 2.0, 3.0));
    let z = Vf64::<2>::from_lanes([d(1.0), d(2.0)]).with_lane(0, d(5.0));
    assert_eq!((w(z.lane(0)), w(z.lane(1))), (5.0, 2.0));
}

#[test]
fn arithmetic_goes_lane_by_lane() {
    let x = ramp();
    let y = Vf32::<8>::set1(f(2.0));
    let p = x.times(y);
    let s = x.plus(y);
    let lo = x.min(Vf32::set1(f(3.0)));
    let hi = x.max(Vf32::set1(f(3.0)));
    for l in 0..8 {
        let a = l as f32 + 0.5;
        assert_eq!(v(p.lane(l)), a * 2.0);
        assert_eq!(v(s.lane(l)), a + 2.0);
        assert_eq!(v(lo.lane(l)), a.min(3.0));
        assert_eq!(v(hi.lane(l)), a.max(3.0));
    }
    let x = Vf64::<4>::set1(d(1.5));
    let y = Vf64::<4>::set1(d(4.0));
    assert_eq!(w(x.times(y).lane(2)), 6.0);
    assert_eq!(w(x.plus(y).lane(3)), 5.5);
    assert_eq!(w(x.min(y).lane(0)), 1.5);
    assert_eq!(w(x.max(y).lane(1)), 4.0);
    let zeros = Vf32::<2>::from_lanes([f(0.0), f(-0.0)]);
    let mixed = Vf32::<2>::from_lanes([f(-0.0), f(f32::NAN)]);
    assert_eq!(zeros.min(mixed).lanes, [f(-0.0), f(-0.0)]);
    assert_eq!(zeros.max(mixed).lanes, [f(0.0), f(-0.0)]);
}

#[test]
fn load_store_and_append_move_lanes() {
    let data: Vec<F32> = (0..20).map(|n| f(n as f32)).collect();
    let x = Vf32::<8>::load(&data, 5);
    for l in 0..8 {
        assert_eq!(v(x.lane(l)), (5 + l) as f32);
    }
    let mut out = data.clone();
    ramp().store(&mut out, 12);
    for n in 0..20 {
        let expected = if n >= 12 { (n - 12) as f32 + 0.5 } else { n as f32 };
        assert_eq!(v(out[n]), expected);
    }
    let mut tail = vec![f(7.0)];
    ramp().append_to(&mut tail, 3);
    let got: Vec<f32> = tail.iter().map(|n| v(*n)).collect();
    assert_eq!(got, [7.0, 0.5, 1.5, 2.5]);
    ramp().append_to(&mut tail, 0);
    assert_eq!(tail.len(), 4);
    let mut wide = vec![d(1.0), d(2.0), d(3.0)];
    Vf64::<2>::load(&wide.clone(), 1).store(&mut wide, 0);
    let got: Vec<f64> = wide.iter().map(|n| w(*n)).collect();
    assert_eq!(got, [2.0, 3.0, 3.0]);
}
