use cursednoise::binary32::F32;
use cursednoise::intrinsics::{avx2, scalar};
use cursednoise::shared::{get_scaled_noise, scale_noise};
use cursednoise::{get_1d_scaled_noise, get_2d_scaled_noise, get_3d_scaled_noise};
use cursednoise::{Engine, NoiseBuilder};

fn f(x: f32) -> F32 {
    F32::from_bits(x.to_bits())
}

fn v(x: F32) -> f32 {
    f32::from_bits(x.to_bits())
}

fn all(xs: &[f32]) -> Vec<F32> {
    xs.iter().map(|x| f(*x)).collect()
}

fn values(xs: &[F32]) -> Vec<f32> {
    xs.iter().map(|x| v(*x)).collect()
}

#[test]
fn scaling_is_multiply_and_offset() {
    let mut data = all(&[1.0, 2.0, 3.0, 5.0]);
    scale_noise::<1>(f(0.0), f(1.0), f(1.0), f(5.0), &mut data);
    assert_eq!(values(&data), [0.0, 0.25, 0.5, 1.0]);
    let mut data = all(&[1.0, 2.0, 3.0, 5.0]);
    scale_noise::<8>(f(10.0), f(30.0), f(1.0), f(5.0), &mut data);
    assert_eq!(values(&data), [10.0, 15.0, 20.0, 30.0]);
    let multiplier = (7.0f32 - 0.5) / (0.9f32 - 0.1);
    let offset = 0.5f32 - 0.1 * multiplier;
    let mut data = all(&[0.1, 0.3, 0.9]);
    scale_noise::<2>(f(0.5), f(7.0), f(0.1), f(0.9), &mut data);
    let expected =
        [0.1f32 * multiplier + offset, 0.3 * multiplier + offset, 0.9 * multiplier + offset];
    assert_eq!(values(&data), expected);
}

#[test]
fn scaling_to_the_extremes_changes_nothing() {
    let raw = [0.25f32, -1.5, 3.0, 0.0, 2.75, -0.125, 1.0, 2.0, -1.0, 0.5, 1.25];
    for width in 0..raw.len() {
        let mut data = all(&raw[..width]);
        scale_noise::<8>(f(-1.5), f(3.0), f(-1.5), f(3.0), &mut data);
        assert_eq!(values(&data), &raw[..width]);
    }
    let (noise, min, max) = NoiseBuilder::fbm_2d(13, 7).with_freq(f(0.3)).generate().unwrap();
    let mut data = noise.clone();
    scale_noise::<8>(min, max, min, max, &mut data);
    assert_eq!(values(&data), values(&noise));
}

#[test]
fn scaling_to_the_unit_range_fills_it() {
    for width in 2..40 {
        let mut s = NoiseBuilder::fbm_2d(width, 5);
        s.with_freq(f(0.37)).with_seed(3);
        let scaled = s.generate_scaled(f(0.0), f(1.0)).unwrap();
        assert_eq!(scaled.len(), width * 5);
        let mut least = f32::MAX;
        let mut most = f32::MIN;
        for n in &scaled {
            assert!(v(*n) >= 0.0 && v(*n) <= 1.0 + 2.0 * f32::EPSILON);
            least = least.min(v(*n));
            most = most.max(v(*n));
        }
        assert_eq!(least, 0.0);
        assert!((most - 1.0).abs() <= 2.0 * f32::EPSILON);
    }
}

#[test]
fn a_flat_block_goes_to_the_lower_end() {
    let mut data = all(&[4.0; 11]);
    scale_noise::<8>(f(2.0), f(9.0), f(4.0), f(4.0), &mut data);
    assert_eq!(values(&data), [2.0; 11]);
    let mut data = all(&[0.0, -0.0, 0.0]);
    scale_noise::<1>(f(2.0), f(9.0), f(-0.0), f(0.0), &mut data);
    assert_eq!(values(&data), [2.0; 3]);
    let flat = NoiseBuilder::gradient_1d(1).generate_scaled(f(5.0), f(6.0)).unwrap();
    assert_eq!(values(&flat), [5.0]);
    let mut empty: Vec<F32> = Vec::new();
    scale_noise::<8>(f(0.0), f(1.0), f(4.0), f(4.0), &mut empty);
    assert!(empty.is_empty());
}

#[test]
fn strides_and_tail_scale_alike() {
    let raw: Vec<f32> = (0..37).map(|n| (n as f32 * 0.77).sin() * 3.0).collect();
    let mut one = all(&raw);
    scale_noise::<1>(f(-1.0), f(1.0), f(-3.0), f(3.0), &mut one);
    for n in 0..raw.len() {
        let multiplier = (1.0f32 - -1.0) / (3.0f32 - -3.0);
        let offset = -1.0f32 - -3.0 * multiplier;
        assert_eq!(v(one[n]), raw[n] * multiplier + offset);
    }
    let mut eight = all(&raw);
    scale_noise::<8>(f(-1.0), f(1.0), f(-3.0), f(3.0), &mut eight);
    assert_eq!(eight, one);
    let mut five = all(&raw);
    scale_noise::<5>(f(-1.0), f(1.0), f(-3.0), f(3.0), &mut five);
    assert_eq!(five, one);
}

#[test]
fn scaled_blocks_use_the_range_of_the_settings() {
    let mut s = NoiseBuilder::fbm_3d(9, 4, 3);
    s.with_freq(f(0.37)).with_seed(3);
    s.dim.min = f(-2.0);
    s.dim.max = f(6.0);
    let noise_type = s.wrap();
    let (raw, min, max) = s.generate().unwrap();
    let mut expected = raw.clone();
    scale_noise::<8>(f(-2.0), f(6.0), min, max, &mut expected);
    assert_eq!(get_3d_scaled_noise(&noise_type), expected);
    assert_eq!(s.generate_scaled(f(-2.0), f(6.0)).unwrap(), expected);
    assert_eq!(get_scaled_noise::<8>(&noise_type, (raw, min, max)), expected);
    assert_eq!(scalar::get_3d_scaled_noise(&noise_type), expected);
    assert_eq!(avx2::get_3d_scaled_noise(&noise_type), expected);
    assert_eq!(Engine::Scalar.get_scaled_noise(&noise_type).unwrap(), expected);
    let mut g = NoiseBuilder::gradient_2d(9, 4);
    g.with_freq(f(0.37));
    let scaled = g.generate_scaled(f(0.0), f(255.0)).unwrap();
    g.dim.max = f(255.0);
    assert_eq!(get_2d_scaled_noise(&g.wrap()), scaled);
    assert_eq!(scalar::get_2d_scaled_noise(&g.wrap()), scaled);
    let mut g = NoiseBuilder::gradient_1d(9);
    g.with_freq(f(0.37));
    let scaled = g.generate_scaled(f(0.0), f(1.0)).unwrap();
    assert_eq!(get_1d_scaled_noise(&g.wrap()), scaled);
    assert_eq!(avx2::get_1d_scaled_noise(&g.wrap()), scaled);
}
