use sph_core::{check_smoothing_radius, ConfigError, Poly6Kernel, SpikyKernel};
use std::cmp::Ordering;

type Vec3 = [f32; 3];

const PI: f32 = std::f32::consts::PI;

fn compare(a: &f32, b: &f32) -> Option<Ordering> {
    a.partial_cmp(b)
}

fn mag2(v: &Vec3) -> f32 {
    v[0] * v[0] + v[1] * v[1] + v[2] * v[2]
}

fn mag(v: &Vec3) -> f32 {
    mag2(v).sqrt()
}

fn times(a: &f32, b: &f32) -> f32 {
    *a * *b
}

fn poly6(r: Vec3, h: f32) -> f32 {
    Poly6Kernel::value(&r, &h, 0., mag2, times, compare, |m2: &f32, h: &f32| {
        315. / (64. * PI * h.powi(9)) * (*h * *h - *m2).powi(3)
    })
}

fn poly6_grad(r: Vec3, h: f32) -> f32 {
    Poly6Kernel::gradient_mag(&r, &h, 0., mag2, times, compare, |m2: &f32, h: &f32| {
        315. / (64. * PI * h.powi(9)) * 3. * -2. * m2.sqrt() * (*h * *h - *m2) * (*h * *h - *m2)
    })
}

fn spiky(r: Vec3, h: f32) -> f32 {
    SpikyKernel::value(&r, &h, 0., mag, compare, |m: &f32, h: &f32| {
        15. / (PI * h.powi(6)) * (*h - *m) * (*h - *m) * (*h - *m)
    })
}

fn spiky_grad(r: Vec3, h: f32) -> f32 {
    SpikyKernel::gradient_mag(&r, &h, 0., mag, compare, |m: &f32, h: &f32| {
        15. * -3. / (PI * h.powi(6)) * (*h - *m) * (*h - *m)
    })
}

#[test]
fn kernels_vanish_outside_the_radius() {
    for h in [0.5f32, 1.0, 2.0] {
        for r in [[h * 1.01, 0., 0.], [0., -h * 1.5, 0.], [h, h, h], [10., 3., -4.]] {
            assert_eq!(poly6(r, h), 0.);
            assert_eq!(poly6_grad(r, h), 0.);
            assert_eq!(spiky(r, h), 0.);
            assert_eq!(spiky_grad(r, h), 0.);
        }
    }
}

#[test]
fn support_boundary_is_inside() {
    // A falloff that marks where it was applied shows the support test alone.
    let marked = |m: &f32, _h: &f32| *m + 100.;
    assert_eq!(SpikyKernel::value(&[1., 0., 0.], &1., 0., mag, compare, marked), 101.);
    assert_eq!(SpikyKernel::value(&[0., 0., 0.], &1., 0., mag, compare, marked), 100.);
    assert_eq!(Poly6Kernel::value(&[0., 1., 0.], &1., 0., mag2, times, compare, marked), 101.);
    assert_eq!(SpikyKernel::value(&[1.5, 0., 0.], &1., 0., mag, compare, marked), 0.);
}

#[test]
fn poly6_is_zero_at_the_origin() {
    let marked = |m: &f32, _h: &f32| *m + 100.;
    assert_eq!(Poly6Kernel::value(&[0., 0., 0.], &1., 0., mag2, times, compare, marked), 0.);
    assert_eq!(poly6([0., 0., 0.], 1.), 0.);
    assert_eq!(poly6_grad([0., 0., 0.], 1.), 0.);
}

#[test]
fn spiky_is_finite_at_the_origin() {
    assert!((spiky([0., 0., 0.], 1.) - 15. / PI).abs() < 1e-5);
    assert!((spiky_grad([0., 0., 0.], 1.) - (-45. / PI)).abs() < 1e-5);
}

#[test]
fn kernel_values_at_half_radius() {
    assert!((poly6([0.5, 0., 0.], 1.) - 0.660_943).abs() < 1e-5);
    assert!((spiky([0.5, 0., 0.], 1.) - 0.596_831).abs() < 1e-5);
    assert!((spiky_grad([0.5, 0., 0.], 1.) - (-3.580_986)).abs() < 1e-4);
    assert!((poly6_grad([0.5, 0., 0.], 1.) - (-2.643_772)).abs() < 1e-4);
}

#[test]
fn kernels_are_symmetric() {
    for r in [[0.3f32, -0.2, 0.1], [0.0, 0.7, 0.0], [0.5, 0.5, 0.5]] {
        let n = [-r[0], -r[1], -r[2]];
        assert_eq!(poly6(r, 1.), poly6(n, 1.));
        assert_eq!(spiky(r, 1.), spiky(n, 1.));
        assert_eq!(poly6_grad(r, 1.), poly6_grad(n, 1.));
        assert_eq!(spiky_grad(r, 1.), spiky_grad(n, 1.));
    }
}

#[test]
fn kernels_are_not_negative() {
    for k in 0..50 {
        let x = k as f32 * 0.03;
        let r = [x, 0.5 * x, -0.25 * x];
        assert!(poly6(r, 1.) >= 0.);
        assert!(spiky(r, 1.) >= 0.);
    }
}

#[test]
fn poly6_integrates_to_one() {
    for h in [0.5f32, 1.0, 2.0] {
        // Midpoint rule over radial shells: 4 pi r^2 W(r) dr.
        let steps = 2000;
        let dr = h / steps as f32;
        let mut sum = 0.0f64;
        for k in 0..steps {
            let r = (k as f32 + 0.5) * dr;
            sum += (4. * PI * r * r * poly6([r, 0., 0.], h) * dr) as f64;
        }
        assert!((sum - 1.).abs() < 1e-3);
    }
}

#[test]
fn radius_must_be_positive() {
    assert_eq!(check_smoothing_radius(&1.0f32, |h: &f32| *h > 0.), Ok(()));
    assert_eq!(check_smoothing_radius(&0.0f32, |h: &f32| *h > 0.), Err(ConfigError::NonPositiveRadius));
    assert_eq!(check_smoothing_radius(&-2.0f32, |h: &f32| *h > 0.), Err(ConfigError::NonPositiveRadius));
}
