use cursednoise::binary32::{F32, MAX, MIN};
use cursednoise::intrinsics::{avx2, scalar};
use cursednoise::noise_helpers_32::{
    get_1d_noise, get_1d_noise_helper_f32, get_2d_noise, get_2d_noise_helper_f32, get_3d_noise,
    get_3d_noise_helper_f32,
};
use cursednoise::vector_32::Vf32;
use cursednoise::{
    Engine, FbmSettings, GradientSettings, NoiseBuilder, NoiseDimensions, NoiseError, NoiseType,
};

fn f(x: f32) -> F32 {
    F32::from_bits(x.to_bits())
}

fn v(x: F32) -> f32 {
    f32::from_bits(x.to_bits())
}

fn true_extremes(noise: &[F32]) -> (f32, f32) {
    let mut min = f32::INFINITY;
    let mut max = f32::NEG_INFINITY;
    for n in noise {
        min = min.min(v(*n));
        max = max.max(v(*n));
    }
    (min, max)
}

#[test]
fn default_dimensions_are_a_single_sample() {
    for d in 1..=3 {
        let dim = NoiseDimensions::default(d);
        assert_eq!(dim.dim, d);
        assert_eq!((v(dim.x), v(dim.y), v(dim.z)), (0.0, 0.0, 0.0));
        assert_eq!((dim.width, dim.height, dim.depth), (1, 1, 1));
        assert_eq!((v(dim.min), v(dim.max)), (0.0, 1.0));
        assert_eq!(dim.seed, 1);
        assert_eq!(dim.len(), 1);
    }
}

#[test]
fn len_is_width_times_height_times_depth() {
    let dim = NoiseDimensions { width: 5, height: 7, depth: 3, ..NoiseDimensions::default(3) };
    assert_eq!(dim.len(), 105);
    let dim = NoiseDimensions { width: 5, height: 0, depth: 3, ..NoiseDimensions::default(3) };
    assert_eq!(dim.len(), 0);
}

#[test]
fn builders_fill_in_the_box() {
    let s = NoiseBuilder::fbm_3d_offset(f(1.5), 4, f(2.5), 5, f(3.5), 6);
    assert_eq!(s.dim.dim, 3);
    assert_eq!((v(s.dim.x), v(s.dim.y), v(s.dim.z)), (1.5, 2.5, 3.5));
    assert_eq!((s.dim.width, s.dim.height, s.dim.depth), (4, 5, 6));
    assert_eq!((v(s.freq_x), v(s.freq_y), v(s.freq_z)), (0.02, 0.02, 0.02));
    assert_eq!((v(s.lacunarity), v(s.gain), s.octaves), (0.5, 2.0, 3));
    assert_eq!(s.dim.seed, 1);
    let s = NoiseBuilder::fbm_2d(8, 9);
    assert_eq!((s.dim.dim, s.dim.width, s.dim.height, s.dim.depth), (2, 8, 9, 1));
    let s = NoiseBuilder::fbm_1d_offset(f(-4.0), 10);
    assert_eq!((s.dim.dim, s.dim.width, v(s.dim.x)), (1, 10, -4.0));
    let s = NoiseBuilder::gradient_1d(12);
    assert_eq!((s.dim.dim, s.dim.width, s.dim.height, s.dim.depth), (1, 12, 1, 1));
    assert_eq!((v(s.freq_x), v(s.freq_y), v(s.freq_z)), (0.02, 0.02, 0.02));
    let s = NoiseBuilder::gradient_2d_offset(f(1.0), 3, f(2.0), 4);
    assert_eq!((s.dim.dim, s.dim.width, s.dim.height), (2, 3, 4));
    assert_eq!((v(s.dim.x), v(s.dim.y), v(s.dim.z)), (1.0, 2.0, 0.0));
    let s = NoiseBuilder::gradient_3d(3, 4, 5);
    assert_eq!((s.dim.dim, s.dim.width, s.dim.height, s.dim.depth), (3, 3, 4, 5));
    let s = NoiseBuilder::gradient_3d_offset(f(1.0), 3, f(2.0), 4, f(3.0), 5);
    assert_eq!((v(s.dim.x), v(s.dim.y), v(s.dim.z)), (1.0, 2.0, 3.0));
    let s = NoiseBuilder::fbm_1d(2);
    assert_eq!((s.dim.dim, s.dim.width), (1, 2));
    let s = NoiseBuilder::fbm_3d(2, 3, 4);
    assert_eq!((s.dim.dim, s.dim.width, s.dim.height, s.dim.depth), (3, 2, 3, 4));
    let s = NoiseBuilder::fbm_2d_offset(f(1.0), 3, f(2.0), 4);
    assert_eq!((v(s.dim.x), v(s.dim.y), s.dim.width, s.dim.height), (1.0, 2.0, 3, 4));
    let s = NoiseBuilder::gradient_2d(3, 4);
    assert_eq!((s.dim.dim, s.dim.width, s.dim.height), (2, 3, 4));
    let s = NoiseBuilder::gradient_1d_offset(f(9.0), 3);
    assert_eq!((s.dim.dim, s.dim.width, v(s.dim.x)), (1, 3, 9.0));
}

#[test]
fn setters_change_what_they_name() {
    let mut s = NoiseBuilder::fbm_2d(3, 4);
    s.with_seed(9).with_freq(f(0.5)).with_octaves(7).with_gain(f(3.0)).with_lacunarity(f(4.0));
    assert_eq!(s.dim.seed, 9);
    assert_eq!((v(s.freq_x), v(s.freq_y), v(s.freq_z)), (0.5, 0.5, 0.5));
    assert_eq!((s.octaves, v(s.gain), v(s.lacunarity)), (7, 3.0, 4.0));
    s.with_freq_2d(f(1.0), f(2.0));
    assert_eq!((v(s.get_freq_x()), v(s.get_freq_y()), v(s.get_freq_z())), (1.0, 2.0, 0.5));
    s.with_freq_3d(f(5.0), f(6.0), f(7.0));
    assert_eq!((v(s.freq_x), v(s.freq_y), v(s.freq_z)), (5.0, 6.0, 7.0));
    assert_eq!(s.get_dimensions().width, 3);
    let mut g = NoiseBuilder::gradient_2d(3, 4);
    g.with_seed(9).with_freq_2d(f(1.0), f(2.0));
    assert_eq!(g.dim.seed, 9);
    assert_eq!((v(g.get_freq_x()), v(g.get_freq_y()), v(g.get_freq_z())), (1.0, 2.0, 0.02));
    g.with_freq(f(3.0)).with_freq_3d(f(5.0), f(6.0), f(7.0));
    assert_eq!((v(g.freq_x), v(g.freq_y), v(g.freq_z)), (5.0, 6.0, 7.0));
    assert!(matches!(g.wrap(), NoiseType::Gradient(_)));
    assert!(matches!(s.wrap(), NoiseType::Fbm(_)));
    assert_eq!(g.wrap().get_dimensions().height, 4);
}

#[test]
fn gradient_noise_on_a_line_of_64() {
    let (noise, min, max) =
        NoiseBuilder::gradient_1d(64).with_freq(f(0.01)).with_seed(1337).generate().unwrap();
    assert_eq!(noise.len(), 64);
    let head: Vec<u32> = noise[..4].iter().map(|n| n.to_bits()).collect();
    assert_eq!(head, [0x0, 0x3cf5_ead8, 0x3d76_5d33, 0x3db9_4c28]);
    assert_eq!(noise[37].to_bits(), 0x3f93_34e6);
    assert_eq!(noise[63].to_bits(), 0x3f86_0632);
    assert_eq!((v(min), v(max)), (f32::from_bits(0x0), f32::from_bits(0x3fa0_a350)));
    let again =
        NoiseBuilder::gradient_1d(64).with_freq(f(0.01)).with_seed(1337).generate().unwrap();
    assert_eq!(again.0, noise);
}

#[test]
fn fractal_noise_in_a_box_of_64_by_32_by_16() {
    let settings = *NoiseBuilder::fbm_3d(64, 32, 16)
        .with_freq_3d(f(0.05), f(0.04), f(0.01))
        .with_seed(1337)
        .with_octaves(5)
        .with_gain(f(2.0))
        .with_lacunarity(f(0.5));
    let (noise, min, max) = settings.generate().unwrap();
    assert_eq!(noise.len(), 32768);
    assert_eq!(noise[16389].to_bits(), 0xbf08_b987);
    assert_eq!(noise[32767].to_bits(), 0x3f2a_ee3e);
    assert_eq!((v(min), v(max)), (f32::from_bits(0xbf9d_5112), f32::from_bits(0x403a_0fe3)));
    assert_eq!(settings.generate().unwrap().0, noise);
    assert_eq!(scalar::get_3d_noise(&settings.wrap()).0, noise);
}

#[test]
fn gradient_noise_in_space_fails_at_64_bits() {
    let dims = NoiseDimensions { width: 64, height: 32, depth: 16, ..NoiseDimensions::default(3) };
    let noise_type = GradientSettings::default(dims).with_seed(1337).wrap();
    assert_eq!(avx2::get_3d_noise_64(&noise_type).err(), Some(NoiseError::NotImplemented));
    assert_eq!(scalar::get_3d_noise_64(&noise_type).err(), Some(NoiseError::NotImplemented));
    assert_eq!(Engine::Avx2.get_noise_64(&noise_type).err(), Some(NoiseError::NotImplemented));
    let fbm = FbmSettings::default(dims).wrap();
    assert_eq!(Engine::Scalar.get_noise_64(&fbm).err(), Some(NoiseError::NotImplemented));
    let empty = NoiseDimensions { width: 0, ..dims };
    let noise_type = GradientSettings::default(empty).wrap();
    assert_eq!(avx2::get_3d_noise_64(&noise_type).err(), Some(NoiseError::NotImplemented));
}

#[test]
fn a_number_of_dimensions_out_of_range_is_refused() {
    for d in [0usize, 4, 17] {
        let dims = NoiseDimensions { dim: d, width: 4, ..NoiseDimensions::default(1) };
        let g = GradientSettings::default(dims);
        let s = FbmSettings::default(dims);
        assert_eq!(g.validate(), Err(NoiseError::InvalidDimension));
        assert_eq!(s.validate(), Err(NoiseError::InvalidDimension));
        assert_eq!(g.generate().err(), Some(NoiseError::InvalidDimension));
        assert_eq!(s.generate().err(), Some(NoiseError::InvalidDimension));
        assert_eq!(g.generate_scaled(f(0.0), f(1.0)).err(), Some(NoiseError::InvalidDimension));
        assert_eq!(s.generate_scaled(f(0.0), f(1.0)).err(), Some(NoiseError::InvalidDimension));
        for e in [Engine::Scalar, Engine::Avx2] {
            assert_eq!(e.get_noise(&g.wrap()).err(), Some(NoiseError::InvalidDimension));
            assert_eq!(e.get_scaled_noise(&s.wrap()).err(), Some(NoiseError::InvalidDimension));
            assert_eq!(e.get_noise_64(&g.wrap()).err(), Some(NoiseError::InvalidDimension));
        }
    }
    for d in 1..=3 {
        let dims = NoiseDimensions { width: 4, ..NoiseDimensions::default(d) };
        assert_eq!(GradientSettings::default(dims).validate(), Ok(()));
        assert_eq!(FbmSettings::default(dims).validate(), Ok(()));
    }
}

#[test]
fn the_engine_is_chosen_by_what_the_hardware_has() {
    assert_eq!(Engine::select(true), Engine::Avx2);
    assert_eq!(Engine::select(false), Engine::Scalar);
    assert_eq!((Engine::Scalar.width(), Engine::Avx2.width()), (1, 8));
    assert_eq!((Engine::Scalar.width_64(), Engine::Avx2.width_64()), (1, 4));
}

#[test]
fn engines_give_the_same_block() {
    for width in 0..20 {
        for (height, depth) in [(1usize, 1usize), (3, 1), (3, 2)] {
            let mut s = NoiseBuilder::fbm_3d_offset(f(0.3), width, f(1.7), height, f(-2.1), depth);
            s.with_freq_3d(f(0.31), f(0.17), f(0.23)).with_seed(42).with_octaves(2);
            let mut g =
                NoiseBuilder::gradient_3d_offset(f(0.3), width, f(1.7), height, f(-2.1), depth);
            g.with_freq_3d(f(0.31), f(0.17), f(0.23)).with_seed(42);
            for noise_type in [s.wrap(), g.wrap()] {
                let one = get_3d_noise::<1>(&noise_type);
                let three = get_3d_noise::<3>(&noise_type);
                let eight = get_3d_noise::<8>(&noise_type);
                assert_eq!(one.0.len(), width * height * depth);
                assert_eq!(one.0, three.0);
                assert_eq!(one.0, eight.0);
                assert_eq!((one.1, one.2), (eight.1, eight.2));
                assert_eq!((one.1, one.2), (three.1, three.2));
                assert_eq!(get_2d_noise::<1>(&noise_type).0, get_2d_noise::<8>(&noise_type).0);
                assert_eq!(get_1d_noise::<1>(&noise_type).0, get_1d_noise::<8>(&noise_type).0);
                assert_eq!(
                    Engine::Scalar.get_noise(&noise_type).unwrap().0,
                    Engine::Avx2.get_noise(&noise_type).unwrap().0
                );
            }
        }
    }
}

#[test]
fn extremes_are_those_of_the_block() {
    for width in 1..30 {
        for height in [1usize, 2, 5] {
            let mut s = NoiseBuilder::fbm_2d_offset(f(width as f32), width, f(3.0), height);
            s.with_freq(f(0.37)).with_seed(width as i32);
            let (noise, min, max) = s.generate().unwrap();
            assert_eq!((v(min), v(max)), true_extremes(&noise));
            assert!(noise.contains(&min) && noise.contains(&max));
            let (noise, min, max) = scalar::get_2d_noise(&s.wrap());
            assert_eq!((v(min), v(max)), true_extremes(&noise));
            let mut g = NoiseBuilder::gradient_3d(width, height, 3);
            g.with_freq(f(0.37)).with_seed(width as i32);
            let (noise, min, max) = g.generate().unwrap();
            assert_eq!((v(min), v(max)), true_extremes(&noise));
        }
    }
}

#[test]
fn an_empty_block_reports_the_starting_extremes() {
    let (noise, min, max) = NoiseBuilder::gradient_1d(0).generate().unwrap();
    assert!(noise.is_empty());
    assert_eq!((min.to_bits(), max.to_bits()), (MAX, MIN));
    let (noise, min, max) = NoiseBuilder::fbm_3d(4, 0, 4).generate().unwrap();
    assert!(noise.is_empty());
    assert_eq!((min.to_bits(), max.to_bits()), (MAX, MIN));
}

#[test]
fn a_block_without_a_number_reports_the_finite_ends() {
    let mut g = NoiseBuilder::gradient_2d(11, 3);
    g.with_freq(f(f32::NAN));
    for engine in [Engine::Scalar, Engine::Avx2] {
        let (noise, min, max) = engine.get_noise(&g.wrap()).unwrap();
        assert_eq!(noise.len(), 33);
        assert!(noise.iter().all(|n| n.is_nan()));
        assert_eq!((min.to_bits(), max.to_bits()), (MAX, MIN));
    }
    let mut s = NoiseBuilder::fbm_1d(5);
    s.with_lacunarity(f(f32::INFINITY));
    let (noise, min, max) = s.generate().unwrap();
    assert!(noise.iter().all(|n| n.is_nan()));
    assert_eq!((min.to_bits(), max.to_bits()), (MAX, MIN));
}

#[test]
fn a_shorter_line_starts_a_longer_one() {
    let mut long = NoiseBuilder::fbm_1d_offset(f(3.5), 29);
    long.with_freq(f(0.37)).with_seed(5);
    let (whole, _, _) = long.generate().unwrap();
    for width in 0..29 {
        let mut short = long;
        short.dim.width = width;
        assert_eq!(short.generate().unwrap().0, whole[..width]);
    }
}

#[test]
fn the_layout_is_row_major() {
    let (width, height, depth) = (5usize, 4usize, 3usize);
    let (fx, fy, fz) = (0.31f32, 0.17f32, 0.23f32);
    let mut s = NoiseBuilder::fbm_3d_offset(f(0.5), width, f(1.5), height, f(-2.0), depth);
    s.with_freq_3d(f(fx), f(fy), f(fz)).with_seed(42).with_octaves(2);
    let (noise, _, _) = s.generate().unwrap();
    let mut z = -2.0f32;
    for k in 0..depth {
        let mut y = 1.5f32;
        for j in 0..height {
            for i in 0..width {
                let x = 0.5f32 + i as f32;
                let expected =
                    scalar::fbm_3d(f(x * fx), f(y * fy), f(z * fz), s.lacunarity, s.gain, 2, 42);
                assert_eq!(noise[(k * height + j) * width + i], expected);
            }
            y += 1.0;
        }
        z += 1.0;
    }
    let mut g = NoiseBuilder::gradient_2d_offset(f(0.5), width, f(1.5), height);
    g.with_freq_2d(f(fx), f(fy)).with_seed(42);
    let (noise, _, _) = g.generate().unwrap();
    assert_eq!(noise.len(), width * height);
    let first_of_second_row = noise[width];
    let mut h = NoiseBuilder::gradient_2d_offset(f(0.5), width, f(2.5), height);
    h.with_freq_2d(f(fx), f(fy)).with_seed(42);
    assert_eq!(h.generate().unwrap().0[0], first_of_second_row);
}

#[test]
fn blocks_64_are_the_same_on_both_engines() {
    for width in 0..12 {
        let mut g = NoiseBuilder::gradient_2d_offset(f(0.25), width, f(1.5), 3);
        g.with_freq_2d(f(0.31), f(0.17)).with_seed(42);
        let mut s = NoiseBuilder::fbm_2d(width, 3);
        s.with_freq(f(0.31)).with_seed(42);
        for noise_type in [g.wrap(), s.wrap()] {
            let a = scalar::get_2d_noise_64(&noise_type);
            let b = avx2::get_2d_noise_64(&noise_type);
            assert_eq!(a.0.len(), width * 3);
            assert_eq!(a.0, b.0);
            let line = scalar::get_1d_noise_64(&noise_type).0;
            assert_eq!(line, avx2::get_1d_noise_64(&noise_type).0);
            let mut min = f64::MAX;
            let mut max = f64::MIN;
            for n in &a.0 {
                min = min.min(f64::from_bits(n.to_bits()));
                max = max.max(f64::from_bits(n.to_bits()));
            }
            assert_eq!((f64::from_bits(b.1.to_bits()), f64::from_bits(b.2.to_bits())), (min, max));
        }
    }
    let g = NoiseBuilder::gradient_2d(5, 3);
    let (noise, _, _) = Engine::Avx2.get_noise_64(&g.wrap()).unwrap();
    assert_eq!(noise, scalar::get_2d_noise_64(&g.wrap()).0);
    let g = NoiseBuilder::gradient_1d(5);
    let (noise, _, _) = Engine::Scalar.get_noise_64(&g.wrap()).unwrap();
    assert_eq!(noise, avx2::get_1d_noise_64(&g.wrap()).0);
}

#[derive(Clone, Copy)]
struct Flat {
    dim: NoiseDimensions,
    value: F32,
}

impl cursednoise::noise_helpers_32::Sample32 for Flat {
    fn dimensions(&self) -> NoiseDimensions {
        self.dim
    }

    fn freq_x(&self) -> F32 {
        f(1.0)
    }

    fn freq_y(&self) -> F32 {
        f(1.0)
    }

    fn freq_z(&self) -> F32 {
        f(1.0)
    }

    fn noise_1d(&self, x: F32) -> F32 {
        if v(x) == 2.0 {
            f(f32::NAN)
        } else {
            self.value
        }
    }

    fn noise_2d(&self, x: F32, _y: F32) -> F32 {
        self.noise_1d(x)
    }

    fn noise_3d(&self, x: F32, _y: F32, _z: F32) -> F32 {
        self.noise_1d(x)
    }

    fn get_dimensions(&self) -> NoiseDimensions {
        self.dim
    }

    fn get_freq_x(&self) -> F32 {
        f(1.0)
    }

    fn get_freq_y(&self) -> F32 {
        f(1.0)
    }

    fn get_freq_z(&self) -> F32 {
        f(1.0)
    }

    fn sample_1d<const W: usize>(&self, x: Vf32<W>) -> Vf32<W> {
        let mut out = x;
        for l in 0..W {
            out = out.with_lane(l, self.noise_1d(x.lane(l)));
        }
        out
    }

    fn sample_2d<const W: usize>(&self, x: Vf32<W>, _y: Vf32<W>) -> Vf32<W> {
        self.sample_1d(x)
    }

    fn sample_3d<const W: usize>(&self, x: Vf32<W>, _y: Vf32<W>, _z: Vf32<W>) -> Vf32<W> {
        self.sample_1d(x)
    }
}

#[test]
fn extremes_are_samples_whatever_the_block_holds() {
    for width in 1..20 {
        let dim = NoiseDimensions { width, height: 3, depth: 2, ..NoiseDimensions::default(3) };
        for value in [f32::INFINITY, f32::NEG_INFINITY, f32::MAX, f32::MIN, -0.0, f32::NAN] {
            let flat = Flat { dim, value: f(value) };
            for (noise, min, max) in [
                get_1d_noise_helper_f32::<8, Flat>(flat),
                get_2d_noise_helper_f32::<8, Flat>(flat),
                get_3d_noise_helper_f32::<8, Flat>(flat),
                get_3d_noise_helper_f32::<1, Flat>(flat),
            ] {
                assert!(noise.len() >= width);
                assert_eq!(noise.iter().any(|n| n.is_nan()), width > 2 || value.is_nan());
                if value.is_nan() {
                    assert_eq!((min.to_bits(), max.to_bits()), (MAX, MIN));
                } else {
                    assert_eq!((min, max), (f(value), f(value)));
                }
            }
        }
    }
}
