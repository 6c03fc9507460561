use cursednoise::binary32::F32;
use cursednoise::binary64::F64;
use cursednoise::intrinsics::{avx2, scalar};
use cursednoise::noise::fbm_32::fbm_1d_lane;
use cursednoise::noise::gradient_32::{grad1, grad2, grad3d_dot};
use cursednoise::noise::hash_32::{hash1d, hash2d, X_PRIME, Y_PRIME, Z_PRIME};
use cursednoise::noise::perlin_32::{fade, lerp, perlin_1d_lane, perlin_2d_lane, perlin_3d_lane};
use cursednoise::noise::ridge_64::{ridge_1d, ridge_1d_lane, ridge_2d_lane, ridge_3d, ridge_3d_lane};
use cursednoise::noise::simplex_32::{
    falloff, simplex_1d, simplex_1d_lane, simplex_2d_lane, simplex_3d, simplex_3d_lane, step_if,
    unit_if,
};
use cursednoise::noise::{fbm_64, perlin_64, simplex_64};
use cursednoise::vector_32::Vf32;
use cursednoise::vector_64::Vf64;
use cursednoise::NoiseError;

fn f(x: f32) -> F32 {
    F32::from_bits(x.to_bits())
}

fn v(x: F32) -> f32 {
    f32::from_bits(x.to_bits())
}

fn d(x: f64) -> F64 {
    F64::from_bits(x.to_bits())
}

fn w(x: F64) -> f64 {
    f64::from_bits(x.to_bits())
}

fn weight(d2: f32) -> f32 {
    let t = 0.52f32 - d2;
    if t < 0.0 {
        0.0
    } else {
        (t * t) * (t * t)
    }
}

#[test]
fn falloff_is_the_fourth_power_inside_the_radius() {
    assert_eq!(v(falloff(f(0.27), f(2.0))), weight(0.27) * 2.0);
    assert_eq!(v(falloff(f(0.0), f(1.0))), weight(0.0));
    assert_eq!(v(falloff(f(0.6), f(5.0))), 0.0);
    assert_eq!(v(falloff(f(0.52), f(5.0))), 0.0);
}

#[test]
fn unit_if_and_step_if_follow_the_flag() {
    assert_eq!(v(unit_if(true)), 1.0);
    assert_eq!(v(unit_if(false)), 0.0);
    assert_eq!(step_if(4, true), 5);
    assert_eq!(step_if(4, false), 4);
    assert_eq!(step_if(i32::MAX, true), i32::MIN);
}

#[test]
fn simplex_1d_is_the_sum_of_two_corners() {
    let seed = 1337;
    for x in [0.25f32, 0.5, 3.75, -2.125, 17.3] {
        let floor = x.floor();
        let i0 = floor as i32;
        let x0 = x - floor;
        let x1 = x0 - 1.0;
        let g0 = v(grad1(seed, hash1d(seed, i0.wrapping_mul(X_PRIME))));
        let g1 = v(grad1(seed, hash1d(seed, (i0 + 1).wrapping_mul(X_PRIME))));
        let n0 = if 0.52f32 - x0 * x0 < 0.0 { 0.0 } else { weight(x0 * x0) * (g0 * x0) };
        let n1 = if 0.52f32 - x1 * x1 < 0.0 { 0.0 } else { weight(x1 * x1) * (g1 * x1) };
        assert_eq!(v(simplex_1d_lane(f(x), seed)), (n0 + n1) * 13.0);
    }
}

#[test]
fn simplex_vanishes_on_the_lattice() {
    for i in -5..5 {
        assert_eq!(v(simplex_1d_lane(f(i as f32), 7)), 0.0);
    }
    assert_eq!(v(simplex_2d_lane(f(0.0), f(0.0), 7)), 0.0);
    assert_eq!(v(simplex_3d_lane(f(0.0), f(0.0), f(0.0), 7)), 0.0);
}

#[test]
fn simplex_2d_at_a_point_near_one_corner() {
    let seed = 99;
    let (x, y) = (0.05f32, 0.02f32);
    let g = grad2(seed, hash2d(seed, 0, 0));
    let s = 0.36602540378f32 * (x + y);
    assert_eq!((x + s).floor(), 0.0);
    assert_eq!((y + s).floor(), 0.0);
    let t = 0.0f32 * 0.2113248654f32;
    let x0 = x - (0.0 - t);
    let y0 = y - (0.0 - t);
    let n0 = weight(x0 * x0 + y0 * y0) * (v(g[0]) * x0 + v(g[1]) * y0);
    let got = v(simplex_2d_lane(f(x), f(y), seed));
    assert_eq!(got, ((n0 + 0.0) + 0.0) * 35.0);
    assert_ne!(got, 0.0);
}

#[test]
fn simplex_3d_at_a_point_near_one_corner() {
    let seed = 5;
    let (x, y, z) = (0.03f32, 0.05f32, 0.02f32);
    let s = (1.0f32 / 3.0) * ((x + y) + z);
    assert_eq!((x + s).floor(), 0.0);
    let dot = v(grad3d_dot(seed, 0, 0, 0, f(x), f(y), f(z)));
    let n0 = weight((x * x + y * y) + z * z) * dot;
    let got = v(simplex_3d_lane(f(x), f(y), f(z), seed));
    assert_eq!(got, (((n0 + 0.0) + 0.0) + 0.0) * 64.0);
    assert_ne!(got, 0.0);
}

#[test]
fn simplex_stays_within_one() {
    let mut largest = 0.0f32;
    for n in 0..4000 {
        let x = n as f32 * 0.137 - 200.0;
        let y = n as f32 * 0.071 + 3.0;
        let z = n as f32 * 0.193 - 50.0;
        for r in [
            v(simplex_1d_lane(f(x), 1337)),
            v(simplex_2d_lane(f(x), f(y), 1337)),
            v(simplex_3d_lane(f(x), f(y), f(z), 1337)),
        ] {
            assert!(r.abs() <= 1.0);
            largest = largest.max(r.abs());
        }
    }
    assert!(largest > 0.5);
}

#[test]
fn fade_and_lerp_on_exact_values() {
    assert_eq!(v(fade(f(0.0))), 0.0);
    assert_eq!(v(fade(f(1.0))), 1.0);
    assert_eq!(v(fade(f(0.5))), 0.5);
    let t = 0.25f32;
    assert_eq!(v(fade(f(t))), ((t * t) * t) * (t * (t * 6.0 - 15.0) + 10.0));
    assert_eq!(v(lerp(f(1.0), f(3.0), f(0.5))), 2.0);
    assert_eq!(v(lerp(f(1.0), f(3.0), f(0.0))), 1.0);
    assert_eq!(v(lerp(f(1.0), f(3.0), f(1.0))), 3.0);
}

#[test]
fn perlin_1d_blends_two_corners() {
    let seed = 1337;
    for x in [0.25f32, 0.5, 3.75, -2.125, 17.3] {
        let floor = x.floor();
        let i0 = floor as i32;
        let fx = x - floor;
        let n0 = v(grad1(seed, hash1d(seed, i0.wrapping_mul(X_PRIME)))) * fx;
        let n1 = v(grad1(seed, hash1d(seed, (i0 + 1).wrapping_mul(X_PRIME)))) * (fx - 1.0);
        let u = v(fade(f(fx)));
        assert_eq!(v(perlin_1d_lane(f(x), seed)), n0 + u * (n1 - n0));
    }
}

#[test]
fn perlin_vanishes_on_the_lattice() {
    for i in -4..4 {
        for j in -4..4 {
            assert_eq!(v(perlin_1d_lane(f(i as f32), 3)), 0.0);
            assert_eq!(v(perlin_2d_lane(f(i as f32), f(j as f32), 3)), 0.0);
            assert_eq!(v(perlin_3d_lane(f(i as f32), f(j as f32), f(2.0), 3)), 0.0);
        }
    }
}

#[test]
fn perlin_2d_blends_four_corners() {
    let seed = 21;
    let (x, y) = (2.25f32, -0.5f32);
    let (i, j) = (2i32, -1i32);
    let (fx, fy) = (0.25f32, 0.5f32);
    let dot = |di: i32, dj: i32| {
        let g = grad2(
            seed,
            hash2d(seed, (i + di).wrapping_mul(X_PRIME), (j + dj).wrapping_mul(Y_PRIME)),
        );
        v(g[0]) * (fx - di as f32) + v(g[1]) * (fy - dj as f32)
    };
    let u = v(fade(f(fx)));
    let near = dot(0, 0) + u * (dot(1, 0) - dot(0, 0));
    let far = dot(0, 1) + u * (dot(1, 1) - dot(0, 1));
    let expected = near + v(fade(f(fy))) * (far - near);
    assert_eq!(v(perlin_2d_lane(f(x), f(y), seed)), expected);
    assert_ne!(expected, 0.0);
}

#[test]
fn perlin_3d_blends_eight_corners() {
    let seed = 4;
    let (i, j, k) = (1i32, 2i32, 3i32);
    let (fx, fy, fz) = (0.25f32, 0.75f32, 0.5f32);
    let dot = |di: i32, dj: i32, dk: i32| {
        v(grad3d_dot(
            seed,
            (i + di).wrapping_mul(X_PRIME),
            (j + dj).wrapping_mul(Y_PRIME),
            (k + dk).wrapping_mul(Z_PRIME),
            f(fx - di as f32),
            f(fy - dj as f32),
            f(fz - dk as f32),
        ))
    };
    let mix = |a: f32, b: f32, t: f32| a + t * (b - a);
    let (u, s) = (v(fade(f(fx))), v(fade(f(fy))));
    let plane = |dk: i32| {
        mix(mix(dot(0, 0, dk), dot(1, 0, dk), u), mix(dot(0, 1, dk), dot(1, 1, dk), u), s)
    };
    let expected = mix(plane(0), plane(1), v(fade(f(fz))));
    assert_eq!(v(perlin_3d_lane(f(1.25), f(2.75), f(3.5), seed)), expected);
}

#[test]
fn one_octave_of_fractal_noise_is_simplex_noise() {
    for n in 0..200 {
        let x = f(n as f32 * 0.37 - 20.0);
        let y = f(n as f32 * 0.11 + 1.0);
        let z = f(n as f32 * 0.53 - 7.0);
        for octaves in [0u8, 1] {
            assert_eq!(scalar::fbm_1d(x, f(0.5), f(2.0), octaves, 9), scalar::simplex_1d(x, 9));
            assert_eq!(
                scalar::fbm_2d(x, y, f(0.5), f(2.0), octaves, 9),
                scalar::simplex_2d(x, y, 9)
            );
            assert_eq!(
                scalar::fbm_3d(x, y, z, f(0.5), f(2.0), octaves, 9),
                scalar::simplex_3d(x, y, z, 9)
            );
        }
    }
}

#[test]
fn octaves_add_up_in_order() {
    let (x, lacunarity, seed) = (7.3f32, 0.5f32, 11);
    let s = |x: f32| v(simplex_1d_lane(f(x), seed));
    let x1 = x * lacunarity;
    let x2 = x1 * lacunarity;
    let x3 = x2 * lacunarity;
    assert_eq!(v(fbm_1d_lane(f(x), f(lacunarity), f(2.0), 2, seed)), s(x) + s(x1));
    assert_eq!(
        v(fbm_1d_lane(f(x), f(lacunarity), f(2.0), 4, seed)),
        ((s(x) + s(x1)) + s(x2)) + s(x3)
    );
    assert_eq!(
        fbm_1d_lane(f(x), f(lacunarity), f(2.0), 4, seed),
        fbm_1d_lane(f(x), f(lacunarity), f(0.25), 4, seed)
    );
}

#[test]
fn every_lane_is_computed_as_a_single_value_is() {
    let mut x = Vf32::<8>::set1(f(0.0));
    let mut y = Vf32::<8>::set1(f(0.0));
    let mut z = Vf32::<8>::set1(f(0.0));
    for l in 0..8 {
        x = x.with_lane(l, f(l as f32 * 0.37 + 0.1));
        y = y.with_lane(l, f(l as f32 * 0.21 - 3.0));
        z = z.with_lane(l, f(l as f32 * 1.9 + 8.0));
    }
    let s1 = simplex_1d::<8>(x, 5);
    let s3 = simplex_3d::<8>(x, y, z, 5);
    let a3 = avx2::fbm_3d(x, y, z, Vf32::set1(f(0.5)), Vf32::set1(f(2.0)), 3, 5);
    for l in 0..8 {
        assert_eq!(s1.lane(l), scalar::simplex_1d(x.lane(l), 5));
        assert_eq!(s3.lane(l), scalar::simplex_3d(x.lane(l), y.lane(l), z.lane(l), 5));
        assert_eq!(
            a3.lane(l),
            scalar::fbm_3d(x.lane(l), y.lane(l), z.lane(l), f(0.5), f(2.0), 3, 5)
        );
    }
    assert_eq!(avx2::simplex_1d(x, 5).lanes, s1.lanes);
}

#[test]
fn kernels_64_on_line_and_plane() {
    for i in -3..3 {
        assert_eq!(w(simplex_64::simplex_1d_lane(d(i as f64), 7)), 0.0);
        assert_eq!(w(perlin_64::perlin_1d_lane(d(i as f64), 7)), 0.0);
    }
    let mut largest = 0.0f64;
    for n in 0..2000 {
        let x = d(n as f64 * 0.137 - 100.0);
        let y = d(n as f64 * 0.071 + 3.0);
        for r in [w(simplex_64::simplex_1d_lane(x, 3)), w(simplex_64::simplex_2d_lane(x, y, 3))] {
            assert!(r.abs() <= 1.0);
            largest = largest.max(r.abs());
        }
        assert_eq!(
            scalar::fbm_1d_f64(x, d(0.5), d(2.0), 1, 3),
            scalar::simplex_1d_f64(x, 3)
        );
        assert_eq!(
            scalar::fbm_2d_f64(x, y, d(0.5), d(2.0), 1, 3),
            scalar::simplex_2d_f64(x, y, 3)
        );
    }
    assert!(largest > 0.5);
    let s = |x: f64| w(simplex_64::simplex_1d_lane(d(x), 3));
    assert_eq!(w(fbm_64::fbm_1d_lane(d(7.3), d(0.5), d(2.0), 3, 3)), (s(7.3) + s(3.65)) + s(1.825));
}

#[test]
fn ridges_turn_the_noise_over() {
    let s1 = |x: f64| w(simplex_64::simplex_1d_lane(d(x), 3));
    let s2 = |x: f64, y: f64| w(simplex_64::simplex_2d_lane(d(x), d(y), 3));
    assert_eq!(w(ridge_1d_lane(d(7.3), d(0.5), d(2.0), 1, 3)), 1.0 - s1(7.3).abs());
    assert_eq!(w(ridge_1d_lane(d(7.3), d(0.5), d(2.0), 0, 3)), 1.0 - s1(7.3).abs());
    assert_eq!(
        w(ridge_1d_lane(d(7.3), d(0.5), d(2.0), 3, 3)),
        ((1.0 - s1(7.3).abs()) + (1.0 - s1(3.65).abs())) + (1.0 - s1(1.825).abs())
    );
    assert_eq!(
        w(ridge_2d_lane(d(7.3), d(-2.5), d(0.5), d(3.0), 3, 3)),
        ((1.0 - s2(7.3, -2.5).abs()) + (1.0 - s2(3.65, -1.25).abs() * 3.0))
            + (1.0 - s2(1.825, -0.625).abs() * 9.0)
    );
    let x = Vf64::<4>::set1(d(7.3));
    let r = ridge_1d::<4>(x, Vf64::set1(d(0.5)), Vf64::set1(d(2.0)), 3, 3);
    for l in 0..4 {
        assert_eq!(r.lane(l), ridge_1d_lane(d(7.3), d(0.5), d(2.0), 3, 3));
    }
}

#[test]
fn noise_in_space_is_missing_at_64_bits() {
    let e = Some(NoiseError::NotImplemented);
    let (x, y, z) = (d(0.3), d(0.4), d(0.5));
    assert_eq!(simplex_64::simplex_3d_lane(x, y, z, 1).err(), e);
    assert_eq!(perlin_64::perlin_3d_lane(x, y, z, 1).err(), e);
    assert_eq!(fbm_64::fbm_3d_lane(x, y, z, d(0.5), d(2.0), 3, 1).err(), e);
    assert_eq!(ridge_3d_lane(x, y, z, d(0.5), d(2.0), 3, 1).err(), e);
    assert_eq!(scalar::simplex_3d_f64(x, y, z, 1).err(), e);
    assert_eq!(scalar::fbm_3d_f64(x, y, z, d(0.5), d(2.0), 3, 1).err(), e);
    let (vx, vy, vz) = (Vf64::<4>::set1(x), Vf64::<4>::set1(y), Vf64::<4>::set1(z));
    assert_eq!(avx2::simplex_3d_f64(vx, vy, vz, 1).err(), e);
    assert_eq!(ridge_3d::<4>(vx, vy, vz, vx, vx, 2, 1).err(), e);
    assert_eq!(perlin_64::perlin_3d::<4>(vx, vy, vz, 1).err(), e);
}
