//! Statistical tests of the sphere sampler feeding the verified library.
//!
//! The inverse-CDF sampler itself works in floating point, so it lives on
//! the unverified side; these tests draw points with a fixed seed,
//! quantise them to the library's fixed-point vectors, and check the
//! spherical invariants and the Monte Carlo convergence.

use rand::rngs::StdRng;
use rand::Rng;
use rand::SeedableRng;
use sphere_tetra::geom::{norm_sq, Vec3};
use sphere_tetra::sim::Accumulator;
use std::f32::consts::PI;

const SCALE: i64 = 1_000_000;

/// One point drawn uniformly on the unit sphere: inverse-CDF transform of
/// two uniform draws in [0,1).
fn sample_s2_point(rng: &mut StdRng) -> [f32; 3] {
    let (x, y): (f32, f32) = (rng.gen(), rng.gen());
    let phi: f32 = (2.0 * x - 1.0).acos();
    let theta: f32 = 2.0 * PI * y;
    [theta.cos() * phi.sin(), theta.sin() * phi.sin(), phi.cos()]
}

fn quantize_coord(c: f32) -> i64 {
    let v = (c as f64 * SCALE as f64).round() as i64;
    v.clamp(-SCALE, SCALE)
}

fn quantize(p: [f32; 3]) -> Vec3 {
    Vec3 {
        x: quantize_coord(p[0]),
        y: quantize_coord(p[1]),
        z: quantize_coord(p[2]),
    }
}

#[test]
fn sampled_points_have_unit_norm() {
    let mut rng = StdRng::seed_from_u64(1);
    for _ in 0..10_000 {
        let p = sample_s2_point(&mut rng);
        let float_norm =
            (p[0] as f64 * p[0] as f64 + p[1] as f64 * p[1] as f64 + p[2] as f64 * p[2] as f64)
                .sqrt();
        assert!((float_norm - 1.0).abs() < 1e-5);
        let n: i64 = norm_sq(quantize(p));
        // Exact squared norm of the quantised point, against SCALE^2 with a
        // tolerance covering the float error and the rounding to integers.
        assert!((n - SCALE * SCALE).abs() <= 100_000_000);
    }
}

#[test]
fn sampled_points_are_isotropic() {
    let n: i64 = 100_000;
    let mut rng = StdRng::seed_from_u64(2);
    let mut sums: [i64; 3] = [0, 0, 0];
    for _ in 0..n {
        let q = quantize(sample_s2_point(&mut rng));
        sums[0] += q.x;
        sums[1] += q.y;
        sums[2] += q.z;
    }
    for s in sums {
        let mean = s as f64 / (n * SCALE) as f64;
        assert!(mean.abs() < 0.01, "coordinate mean {mean} is not near zero");
    }
}

#[test]
fn simulation_converges_to_one_eighth() {
    let trials: u64 = 100_000;
    let mut rng = StdRng::seed_from_u64(3);
    let mut acc = Accumulator::new();
    for _ in 0..trials {
        let p0 = quantize(sample_s2_point(&mut rng));
        let p1 = quantize(sample_s2_point(&mut rng));
        let p2 = quantize(sample_s2_point(&mut rng));
        let p3 = quantize(sample_s2_point(&mut rng));
        acc.run_trial(p0, p1, p2, p3);
    }
    assert_eq!(acc.trials, trials);
    let estimate = acc.hits as f64 / acc.trials as f64;
    assert!(
        (estimate - 0.125).abs() < 0.005,
        "estimate {estimate} is not near 1/8"
    );
    let fixed: u64 = acc.estimate_fixed();
    assert!(120_000 < fixed && fixed < 130_000);
}

#[test]
fn fixed_seed_is_deterministic() {
    let trials: u64 = 5_000;
    let mut first_points: Vec<Vec3> = Vec::new();
    let mut first_bits: Vec<[u32; 3]> = Vec::new();
    let mut second_points: Vec<Vec3> = Vec::new();
    let mut second_bits: Vec<[u32; 3]> = Vec::new();
    let mut counts: [u64; 2] = [0, 0];

    for (run, points, bits) in [
        (0usize, &mut first_points, &mut first_bits),
        (1usize, &mut second_points, &mut second_bits),
    ] {
        let mut rng = StdRng::seed_from_u64(42);
        let mut acc = Accumulator::new();
        for trial in 0..trials {
            let raw0 = sample_s2_point(&mut rng);
            let p0 = quantize(raw0);
            let p1 = quantize(sample_s2_point(&mut rng));
            let p2 = quantize(sample_s2_point(&mut rng));
            let p3 = quantize(sample_s2_point(&mut rng));
            if trial < 16 {
                points.push(p0);
                bits.push([raw0[0].to_bits(), raw0[1].to_bits(), raw0[2].to_bits()]);
            }
            acc.run_trial(p0, p1, p2, p3);
        }
        counts[run] = acc.hits;
    }

    assert_eq!(counts[0], counts[1]);
    assert_eq!(first_points, second_points);
    assert_eq!(first_bits, second_bits);
}
