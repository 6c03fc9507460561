use cursednoise::binary32::F32;
use cursednoise::binary64::F64;
use cursednoise::intrinsics::{avx2, scalar};
use cursednoise::{GradientSettings, NoiseDimensions, NoiseError};

const W: usize = 64;
const H: usize = 32;
const D: usize = 16;

fn do_intrinsic_gradient_1_avx2_32_normal() -> Vec<F32> {
    let dims = NoiseDimensions { width: W, ..NoiseDimensions::default(1) };
    let noise_type = GradientSettings::default(dims).with_seed(1337).wrap();
    let (noise, _min, _max) = avx2::get_1d_noise(&noise_type);
    assert_eq!(noise, scalar::get_1d_noise(&noise_type).0);
    noise
}

#[test]
fn test_intrinsic_gradient_1_avx2_32_normal() {
    let noise = do_intrinsic_gradient_1_avx2_32_normal();
    assert_eq!(noise.len(), W);
    let head: Vec<u32> = noise[..4].iter().map(|n| n.to_bits()).collect();
    assert_eq!(head, [0x0, 0x3d76_5d33, 0x3df7_fae1, 0x3e3b_bff5]);
    assert_eq!(noise[W / 2 + 5].to_bits(), 0x3f36_e1ba);
    assert_eq!(noise[W - 1].to_bits(), 0xbdfa_0978);
}

fn do_intrinsic_gradient_1_avx2_64_normal() -> Vec<F64> {
    let dims = NoiseDimensions { width: W, ..NoiseDimensions::default(1) };
    let noise_type = GradientSettings::default(dims).with_seed(1337).wrap();
    let (noise, _min, _max) = avx2::get_1d_noise_64(&noise_type);
    assert_eq!(noise, scalar::get_1d_noise_64(&noise_type).0);
    noise
}

#[test]
fn test_intrinsic_gradient_1_avx2_64_normal() {
    let noise = do_intrinsic_gradient_1_avx2_64_normal();
    assert_eq!(noise.len(), W);
    let head: Vec<u64> = noise[..4].iter().map(|n| n.to_bits()).collect();
    assert_eq!(
        head,
        [0x0, 0xbf94_3ea6_cca9_9214, 0xbfa3_9464_eca5_f15b, 0xbfab_d091_cb89_bd4d]
    );
    assert_eq!(noise[W / 2 + 5].to_bits(), 0x3fe3_65fc_8f10_b4ec);
    assert_eq!(noise[W - 1].to_bits(), 0xbfd6_8d0e_433e_f23e);
}

fn do_intrinsic_gradient_2_avx2_32_normal() -> Vec<F32> {
    let dims = NoiseDimensions { width: W, height: H, ..NoiseDimensions::default(2) };
    let noise_type = GradientSettings::default(dims).with_seed(1337).wrap();
    let (noise, _min, _max) = avx2::get_2d_noise(&noise_type);
    assert_eq!(noise, scalar::get_2d_noise(&noise_type).0);
    noise
}

#[test]
fn test_intrinsic_gradient_2_avx2_32_normal() {
    let noise = do_intrinsic_gradient_2_avx2_32_normal();
    assert_eq!(noise.len(), W * H);
    let head: Vec<u32> = noise[..4].iter().map(|n| n.to_bits()).collect();
    assert_eq!(head, [0x0, 0xbca4_734f, 0xbd26_1bfd, 0xbd7c_dc9d]);
    assert_eq!(noise[W * H / 2 + 5].to_bits(), 0xbee0_09ec);
    assert_eq!(noise[W * H - 1].to_bits(), 0x3e80_3b28);
}

fn do_intrinsic_gradient_2_avx2_64_normal() -> Vec<F64> {
    let dims = NoiseDimensions { width: W, height: H, ..NoiseDimensions::default(2) };
    let noise_type = GradientSettings::default(dims).with_seed(1337).wrap();
    let (noise, _min, _max) = avx2::get_2d_noise_64(&noise_type);
    assert_eq!(noise, scalar::get_2d_noise_64(&noise_type).0);
    noise
}

#[test]
fn test_intrinsic_gradient_2_avx2_64_normal() {
    let noise = do_intrinsic_gradient_2_avx2_64_normal();
    assert_eq!(noise.len(), W * H);
    let head: Vec<u64> = noise[..4].iter().map(|n| n.to_bits()).collect();
    assert_eq!(
        head,
        [0x0, 0xbf94_6688_5062_e76c, 0xbfa4_2bf2_4a08_8b77, 0xbfad_b612_bc77_6ab7]
    );
    assert_eq!(noise[W * H / 2 + 5].to_bits(), 0x3fd6_4ea6_f236_35d2);
    assert_eq!(noise[W * H - 1].to_bits(), 0xbfdf_77e7_590c_8d1c);
}

fn do_intrinsic_gradient_3_avx2_32_normal() -> Vec<F32> {
    let dims = NoiseDimensions { width: W, height: H, depth: D, ..NoiseDimensions::default(3) };
    let noise_type = GradientSettings::default(dims).with_seed(1337).wrap();
    let (noise, _min, _max) = avx2::get_3d_noise(&noise_type);
    assert_eq!(noise, scalar::get_3d_noise(&noise_type).0);
    noise
}

#[test]
fn test_intrinsic_gradient_3_avx2_32_normal() {
    let noise = do_intrinsic_gradient_3_avx2_32_normal();
    assert_eq!(noise.len(), W * H * D);
    let head: Vec<u32> = noise[..4].iter().map(|n| n.to_bits()).collect();
    assert_eq!(head, [0x0, 0x389f_8610, 0x3a17_8d5e, 0x3af2_c079]);
    assert_eq!(noise[W * H * D / 2 + 5].to_bits(), 0xbdf5_9d41);
    assert_eq!(noise[W * H * D - 1].to_bits(), 0xbd7c_bcc3);
}

fn do_intrinsic_gradient_3_avx2_64_normal() -> Result<Vec<F64>, NoiseError> {
    let dims = NoiseDimensions { width: W, height: H, depth: D, ..NoiseDimensions::default(3) };
    let noise_type = GradientSettings::default(dims).with_seed(1337).wrap();
    let (noise, _min, _max) = avx2::get_3d_noise_64(&noise_type)?;
    Ok(noise)
}

#[test]
fn test_intrinsic_gradient_3_avx2_64_normal() {
    assert_eq!(do_intrinsic_gradient_3_avx2_64_normal(), Err(NoiseError::NotImplemented));
}
