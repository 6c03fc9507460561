use cursednoise::binary32::F32;
use cursednoise::intrinsics::scalar;
use cursednoise::{FbmSettings, GradientSettings, NoiseBuilder};

const W: usize = 64;
const H: usize = 32;
const D: usize = 16;

fn f(x: f32) -> F32 {
    F32::from_bits(x.to_bits())
}

fn v(x: F32) -> f32 {
    f32::from_bits(x.to_bits())
}

fn bits(noise: &[F32], at: usize) -> [u32; 4] {
    [noise[at].to_bits(), noise[at + 1].to_bits(), noise[at + 2].to_bits(), noise[at + 3].to_bits()]
}

fn fbm(settings: &mut FbmSettings) -> (Vec<F32>, F32, F32) {
    let s = *settings.with_seed(1337).with_octaves(5).with_gain(f(2.0)).with_lacunarity(f(0.5));
    let r = s.generate().unwrap();
    let again = match s.dim.dim {
        1 => scalar::get_1d_noise(&s.wrap()),
        2 => scalar::get_2d_noise(&s.wrap()),
        _ => scalar::get_3d_noise(&s.wrap()),
    };
    assert_eq!(r.0, again.0);
    r
}

fn gradient(settings: &mut GradientSettings) -> (Vec<F32>, F32, F32) {
    let s = *settings.with_seed(1337);
    let r = s.generate().unwrap();
    let again = match s.dim.dim {
        1 => scalar::get_1d_noise(&s.wrap()),
        2 => scalar::get_2d_noise(&s.wrap()),
        _ => scalar::get_3d_noise(&s.wrap()),
    };
    assert_eq!(r.0, again.0);
    r
}

#[test]
fn test_noisebuilder_fbm_nooffset_f32_1d() {
    let (noise, min, max) = fbm(NoiseBuilder::fbm_1d(W).with_freq(f(0.01)));
    assert_eq!(noise.len(), W);
    assert_eq!(bits(&noise, 0), [0x0, 0x3d62_31db, 0x3de1_e31a, 0x3e29_0818]);
    assert_eq!(noise[W / 2 + 5].to_bits(), 0x3f94_4c6c);
    assert_eq!(noise[W - 1].to_bits(), 0x3fa5_6de2);
    assert_eq!((v(min), v(max)), (f32::from_bits(0x0), f32::from_bits(0x3fa5_6de2)));
}

#[test]
fn test_noisebuilder_fbm_nooffset_f32_2d() {
    let (noise, min, max) = fbm(NoiseBuilder::fbm_2d(W, H).with_freq_2d(f(0.04), f(0.01)));
    assert_eq!(noise.len(), W * H);
    assert_eq!(bits(&noise, 0), [0x0, 0xbe49_9e83, 0xbec5_49a0, 0xbf0e_bc98]);
    assert_eq!(noise[W * H / 2 + 5].to_bits(), 0xbff3_bc20);
    assert_eq!(noise[W * H - 1].to_bits(), 0xbfea_d202);
    assert_eq!((v(min), v(max)), (f32::from_bits(0xc030_1882), f32::from_bits(0x0)));
}

#[test]
fn test_noisebuilder_fbm_nooffset_f32_3d() {
    let (noise, min, max) =
        fbm(NoiseBuilder::fbm_3d(W, H, D).with_freq_3d(f(0.05), f(0.04), f(0.01)));
    assert_eq!(noise.len(), W * H * D);
    assert_eq!(bits(&noise, 0), [0x0, 0x0, 0x0, 0x0]);
    assert_eq!(noise[W * H * D / 2 + 5].to_bits(), 0xbf08_b987);
    assert_eq!(noise[W * H * D - 1].to_bits(), 0x3f2a_ee3e);
    assert_eq!((v(min), v(max)), (f32::from_bits(0xbf9d_5112), f32::from_bits(0x403a_0fe3)));
}

#[test]
fn test_noisebuilder_fbm_offset_f32_1d() {
    let (noise, min, max) = fbm(NoiseBuilder::fbm_1d_offset(f(16.0), W).with_freq(f(0.01)));
    assert_eq!(noise.len(), W);
    assert_eq!(bits(&noise, 0), [0x3f49_b5ba, 0x3f53_33c0, 0x3f5c_3130, 0x3f64_ab0b]);
    assert_eq!(noise[W / 2 + 5].to_bits(), 0x3f98_d231);
    assert_eq!(noise[W - 1].to_bits(), 0x3faf_7567);
    assert_eq!((v(min), v(max)), (f32::from_bits(0x3f49_b5ba), f32::from_bits(0x3fb0_56d9)));
}

#[test]
fn test_noisebuilder_fbm_offset_f32_2d() {
    let (noise, min, max) =
        fbm(NoiseBuilder::fbm_2d_offset(f(16.0), W, f(32.0), H).with_freq_2d(f(0.04), f(0.01)));
    assert_eq!(noise.len(), W * H);
    assert_eq!(bits(&noise, 0), [0xbf6b_3c5a, 0xbf62_1f52, 0xbf5f_6bb6, 0xbf64_43a7]);
    assert_eq!(noise[W * H / 2 + 5].to_bits(), 0xbf49_654f);
    assert_eq!(noise[W * H - 1].to_bits(), 0xbf75_ce12);
    assert_eq!((v(min), v(max)), (f32::from_bits(0xc02c_269c), f32::from_bits(0x3e71_828a)));
}

#[test]
fn test_noisebuilder_fbm_offset_f32_3d() {
    let (noise, min, max) = fbm(
        NoiseBuilder::fbm_3d_offset(f(16.0), W, f(32.0), H, f(64.0), D)
            .with_freq_3d(f(0.05), f(0.04), f(0.01)),
    );
    assert_eq!(noise.len(), W * H * D);
    assert_eq!(bits(&noise, 0), [0xbf26_edb9, 0xbf22_62c6, 0xbf1a_5b51, 0xbf0d_cf4f]);
    assert_eq!(noise[W * H * D / 2 + 5].to_bits(), 0xbf12_d71c);
    assert_eq!(noise[W * H * D - 1].to_bits(), 0x3f49_28cb);
    assert_eq!((v(min), v(max)), (f32::from_bits(0xbfb2_3999), f32::from_bits(0x3fb4_4f20)));
}

#[test]
fn test_noisebuilder_gradient_nooffset_f32_1d() {
    let (noise, min, max) = gradient(NoiseBuilder::gradient_1d(W).with_freq(f(0.01)));
    assert_eq!(noise.len(), W);
    assert_eq!(bits(&noise, 0), [0x0, 0x3cf5_ead8, 0x3d76_5d33, 0x3db9_4c28]);
    assert_eq!(noise[W / 2 + 5].to_bits(), 0x3f93_34e6);
    assert_eq!(noise[W - 1].to_bits(), 0x3f86_0632);
    assert_eq!((v(min), v(max)), (f32::from_bits(0x0), f32::from_bits(0x3fa0_a350)));
}

#[test]
fn test_noisebuilder_gradient_nooffset_f32_2d() {
    let (noise, min, max) =
        gradient(NoiseBuilder::gradient_2d(W, H).with_freq_2d(f(0.04), f(0.01)));
    assert_eq!(noise.len(), W * H);
    assert_eq!(bits(&noise, 0), [0x0, 0xbd26_1bfd, 0xbdab_9ff9, 0xbe06_0606]);
    assert_eq!(noise[W * H / 2 + 5].to_bits(), 0xbeff_3044);
    assert_eq!(noise[W * H - 1].to_bits(), 0x3f67_b7df);
    assert_eq!((v(min), v(max)), (f32::from_bits(0xbf43_824c), f32::from_bits(0x3f74_3e12)));
}

#[test]
fn test_noisebuilder_gradient_nooffset_f32_3d() {
    let (noise, min, max) =
        gradient(NoiseBuilder::gradient_3d(W, H, D).with_freq_3d(f(0.05), f(0.04), f(0.01)));
    assert_eq!(noise.len(), W * H * D);
    assert_eq!(bits(&noise, 0), [0x0, 0x3a90_3538, 0x3bfc_71d7, 0x3cb9_4dc8]);
    assert_eq!(noise[W * H * D / 2 + 5].to_bits(), 0x3c17_ea2c);
    assert_eq!(noise[W * H * D - 1].to_bits(), 0x3e88_e583);
    assert_eq!((v(min), v(max)), (f32::from_bits(0xbf00_0000), f32::from_bits(0x3ee9_1cf4)));
}

#[test]
fn test_noisebuilder_gradient_offset_f32_1d() {
    let (noise, min, max) =
        gradient(NoiseBuilder::gradient_1d_offset(f(16.0), W).with_freq(f(0.01)));
    assert_eq!(noise.len(), W);
    assert_eq!(bits(&noise, 0), [0x3f04_a2e4, 0x3f0d_961d, 0x3f16_8c48, 0x3f1f_8075]);
    assert_eq!(noise[W / 2 + 5].to_bits(), 0x3f9d_4050);
    assert_eq!(noise[W - 1].to_bits(), 0x3f0c_695e);
    assert_eq!((v(min), v(max)), (f32::from_bits(0x3f04_a2e4), f32::from_bits(0x3fa0_a350)));
}

#[test]
fn test_noisebuilder_gradient_offset_f32_2d() {
    let (noise, min, max) = gradient(
        NoiseBuilder::gradient_2d_offset(f(16.0), W, f(32.0), H).with_freq_2d(f(0.04), f(0.01)),
    );
    assert_eq!(noise.len(), W * H);
    assert_eq!(bits(&noise, 0), [0xbf21_42ac, 0xbf19_2192, 0xbf0f_89f4, 0xbf04_ddec]);
    assert_eq!(noise[W * H / 2 + 5].to_bits(), 0xbe3f_a0c4);
    assert_eq!(noise[W * H - 1].to_bits(), 0x3f47_d961);
    assert_eq!((v(min), v(max)), (f32::from_bits(0xbf21_42ac), f32::from_bits(0x3f67_aa37)));
}

#[test]
fn test_noisebuilder_gradient_offset_f32_3d() {
    let (noise, min, max) = gradient(
        NoiseBuilder::gradient_3d_offset(f(16.0), W, f(32.0), H, f(64.0), D)
            .with_freq_3d(f(0.05), f(0.04), f(0.01)),
    );
    assert_eq!(noise.len(), W * H * D);
    assert_eq!(bits(&noise, 0), [0xbf03_1870, 0xbf06_77fc, 0xbf04_c6a6, 0xbefe_4cd6]);
    assert_eq!(noise[W * H * D / 2 + 5].to_bits(), 0xbeae_8a4c);
    assert_eq!(noise[W * H * D - 1].to_bits(), 0x3caf_f276);
    assert_eq!((v(min), v(max)), (f32::from_bits(0xbf2d_5f50), f32::from_bits(0x3f0b_6570)));
}
