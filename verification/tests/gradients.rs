use cursednoise::binary32::F32;
use cursednoise::binary64::F64;
use cursednoise::noise::gradient_32::{grad1, grad2, grad3d, grad3d_dot};
use cursednoise::noise::hash_32::{hash1d, hash2d, hash3d, scramble};
use cursednoise::noise::{gradient_64, hash_64};
use cursednoise::NoiseError;

fn f(x: f32) -> F32 {
    F32::from_bits(x.to_bits())
}

fn v(x: F32) -> f32 {
    f32::from_bits(x.to_bits())
}

fn d(x: f64) -> F64 {
    F64::from_bits(x.to_bits())
}

fn w(x: F64) -> f64 {
    f64::from_bits(x.to_bits())
}

fn mix(n: u32) -> i32 {
    (n.wrapping_mul(2_654_435_761) ^ (n >> 7)) as i32
}

#[test]
fn scramble_is_the_folded_cube() {
    assert_eq!(scramble(0), 0);
    assert_eq!(scramble(1), 60493 ^ (60493 >> 13));
    let h: u32 = 0xdead_beef;
    let m = h.wrapping_mul(h).wrapping_mul(60493).wrapping_mul(h);
    assert_eq!(scramble(h), (m >> 13) ^ m);
}

#[test]
fn lattice_hashes_mix_seed_and_coordinates() {
    assert_eq!(hash1d(5, 9), scramble((5 ^ 9) as u32) as i32);
    assert_eq!(hash2d(5, 9, 17), scramble((5 ^ 9 ^ 17) as u32) as i32);
    assert_eq!(hash1d(-1, 0), scramble(u32::MAX) as i32);
    assert_ne!(hash1d(1, 1000), hash1d(2, 1000));
}

#[test]
fn grad1_is_an_integer_up_to_seven() {
    for h in 0..16 {
        let g = v(grad1(0, h));
        let magnitude = (h & 7) as f32;
        assert_eq!(g, if h & 8 == 0 { magnitude } else { 0.0 - magnitude });
    }
    assert_eq!(v(grad1(3, 4)), 7.0);
    assert_eq!(v(grad1(8, 5)), -5.0);
}

#[test]
fn grad2_has_one_unit_and_one_double_component() {
    let expected = [
        (1.0, 2.0), (-1.0, 2.0), (1.0, -2.0), (-1.0, -2.0),
        (2.0, 1.0), (2.0, -1.0), (-2.0, 1.0), (-2.0, -1.0),
    ];
    for h in 0..8 {
        let g = grad2(0, h);
        assert_eq!((v(g[0]), v(g[1])), expected[h as usize]);
    }
    let g = grad2(5, 6);
    assert_eq!((v(g[0]), v(g[1])), expected[3]);
}

#[test]
fn hash3d_gives_masks_and_signs() {
    for n in 0..500u32 {
        let h = hash3d(mix(n), mix(n + 1000), mix(n + 2000), mix(n + 3000));
        for m in [h.l8, h.l4, h.h12_or_14] {
            assert!(m.to_bits() == 0 || m.to_bits() == u32::MAX);
        }
        for s in [h.h1, h.h2] {
            assert!(s.to_bits() == 0 || s.to_bits() == 0x8000_0000);
        }
    }
}

#[test]
fn grad3d_picks_exactly_two_axes() {
    for n in 0..2000u32 {
        let g = grad3d(mix(n), mix(n + 7), mix(n + 77), mix(n + 777));
        let sum = v(g[0]).abs() + v(g[1]).abs() + v(g[2]).abs();
        assert_eq!(sum, 2.0);
        for c in g {
            assert!(v(c) == 0.0 || v(c) == 1.0 || v(c) == -1.0);
        }
    }
}

#[test]
fn grad3d_dot_agrees_with_grad3d() {
    for n in 0..2000u32 {
        let (seed, i, j, k) = (mix(n), mix(n + 11), mix(n + 111), mix(n + 1111));
        let x = (mix(n + 5) % 1000) as f32 / 250.0;
        let y = (mix(n + 6) % 1000) as f32 / 125.0;
        let z = (mix(n + 7) % 1000) as f32 / 500.0;
        let g = grad3d(seed, i, j, k);
        let explicit = v(g[0]) * x + v(g[1]) * y + v(g[2]) * z;
        let fused = v(grad3d_dot(seed, i, j, k, f(x), f(y), f(z)));
        assert_eq!(fused, explicit);
    }
}

#[test]
fn grad3d_dot_on_known_points() {
    let mut seen = [false; 12];
    for n in 0..4000u32 {
        let (seed, i, j, k) = (mix(n), mix(n + 1), mix(n + 2), mix(n + 3));
        let r = v(grad3d_dot(seed, i, j, k, f(1.0), f(10.0), f(100.0)));
        let all = [
            11.0, 9.0, -9.0, -11.0, 101.0, 99.0, -99.0, -101.0, 110.0, 90.0, -90.0, -110.0,
        ];
        let at = all.iter().position(|a| *a == r);
        assert!(at.is_some());
        seen[at.unwrap()] = true;
    }
    assert!(seen.iter().all(|s| *s));
}

#[test]
fn gradients_64_on_line_and_plane() {
    for h in 0..16 {
        let g = w(gradient_64::grad1(0, h));
        let magnitude = (h & 7) as f64;
        assert_eq!(g, if h & 8 == 0 { magnitude } else { 0.0 - magnitude });
    }
    let g = gradient_64::grad2(0, 2);
    assert_eq!((w(g[0]), w(g[1])), (1.0, -2.0));
    let g = gradient_64::grad2(0, 6);
    assert_eq!((w(g[0]), w(g[1])), (-2.0, 1.0));
}

#[test]
fn grad4_adds_three_signed_coordinates() {
    let (x, y, z, t) = (d(1.0), d(10.0), d(100.0), d(1000.0));
    assert_eq!(w(gradient_64::grad4(0, 0, x, y, z, t)), 111.0);
    assert_eq!(w(gradient_64::grad4(0, 1, x, y, z, t)), 109.0);
    assert_eq!(w(gradient_64::grad4(0, 7, x, y, z, t)), -111.0);
    assert_eq!(w(gradient_64::grad4(0, 8, x, y, z, t)), 1011.0);
    assert_eq!(w(gradient_64::grad4(0, 16, x, y, z, t)), 1101.0);
    assert_eq!(w(gradient_64::grad4(0, 24, x, y, z, t)), 1110.0);
    assert_eq!(w(gradient_64::grad4(31, 0, x, y, z, t)), -1110.0);
}

#[test]
fn hash_of_space_is_missing_at_64_bits() {
    assert_eq!(hash_64::hash3d(1, 2, 3, 4).err(), Some(NoiseError::NotImplemented));
    assert_eq!(
        gradient_64::grad3d_dot(1, 2, 3, 4, d(1.0), d(2.0), d(3.0)).err(),
        Some(NoiseError::NotImplemented)
    );
    assert_eq!(gradient_64::grad3d(1, 2, 3, 4).err(), Some(NoiseError::NotImplemented));
}

#[test]
fn hashes_64_mix_seed_and_coordinates() {
    let h: u64 = 0x0123_4567_89ab_cdef;
    let m = h.wrapping_mul(h).wrapping_mul(0x9e37_79b9_7f4a_7c15).wrapping_mul(h);
    assert_eq!(hash_64::scramble(h), (m >> 29) ^ m);
    assert_eq!(hash_64::hash1d(5, 9), hash_64::scramble(5 ^ 9) as i64);
    assert_eq!(hash_64::hash2d(5, 9, 17), hash_64::scramble(5 ^ 9 ^ 17) as i64);
}
