use sph_core::{ConfigError, Poly6Kernel, Simulation, TickOutput};

type Vec3 = [f32; 3];
type Record = (Vec3, Vec3);

const PI: f32 = std::f32::consts::PI;

fn poly6(r: Vec3, h: f32) -> f32 {
    Poly6Kernel::value(
        &r,
        &h,
        0.,
        |v: &Vec3| v[0] * v[0] + v[1] * v[1] + v[2] * v[2],
        |a: &f32, b: &f32| *a * *b,
        |a: &f32, b: &f32| a.partial_cmp(b),
        |m2: &f32, h: &f32| 315. / (64. * PI * h.powi(9)) * (*h * *h - *m2).powi(3),
    )
}

fn positive(m: &f32) -> bool {
    *m > 0.
}

fn build(masses: Vec<f32>, positions: Vec<Vec3>, velocities: Vec<Vec3>, force: Vec<Vec3>) -> Simulation<f32, Vec3, Vec3> {
    Simulation::new(masses, positions, velocities, force, positive).unwrap()
}

fn tick(s: &mut Simulation<f32, Vec3, Vec3>, dt: f32, h: f32) -> TickOutput<f32, Record> {
    s.step(
        |v: &Vec3, m: &f32, f: &Vec3| {
            let k = dt / *m;
            [v[0] + k * f[0], v[1] + k * f[1], v[2] + k * f[2]]
        },
        |p: &Vec3, v: &Vec3| [p[0] + dt * v[0], p[1] + dt * v[1], p[2] + dt * v[2]],
        |m: &f32, a: &Vec3, b: &Vec3| *m * poly6([a[0] - b[0], a[1] - b[1], a[2] - b[2]], h),
        |t: &Vec<f32>| t.iter().sum::<f32>(),
        |p: &Vec3, d: &f32| (*p, [*d / 150., 1., *d / 150.]),
    )
}

#[test]
fn two_resting_particles() {
    let mut s = build(
        vec![1.0, 1.0],
        vec![[0., 0., 0.], [0.5, 0., 0.]],
        vec![[0., 0., 0.]; 2],
        vec![[0., 0., 0.]; 2],
    );
    let out = tick(&mut s, 0.01, 1.0);
    assert_eq!(s.positions, vec![[0., 0., 0.], [0.5, 0., 0.]]);
    // The self term is zero at r = 0, so each density is the one cross term.
    let expected = poly6([0.5, 0., 0.], 1.0);
    assert!((out.densities[0] - expected).abs() < 1e-6);
    assert!((out.densities[1] - expected).abs() < 1e-6);
    assert!((out.densities[0] - 0.660_943).abs() < 1e-4);
    assert_eq!(out.snapshot.len(), 2);
    assert_eq!(out.snapshot[1].0, [0.5, 0., 0.]);
    assert!((out.snapshot[1].1[0] - expected / 150.).abs() < 1e-6);
    assert_eq!(out.snapshot[1].1[1], 1.);
}

#[test]
fn single_particle_under_restoring_force() {
    let mut s = build(vec![1.0], vec![[1., 0., 0.]], vec![[0., 0., 0.]], vec![[-0.1, 0., 0.]]);
    let out = tick(&mut s, 0.01, 1.0);
    assert!((s.velocities[0][0] - (-0.001)).abs() < 1e-7);
    assert_eq!(s.velocities[0][1], 0.);
    assert!((s.positions[0][0] - 0.99999).abs() < 1e-6);
    assert_eq!(s.positions[0][1], 0.);
    assert_eq!(s.force, vec![[-0.1, 0., 0.]]);
    assert_eq!(out.densities, vec![0.]);
}

#[test]
fn mass_is_kept_over_ticks() {
    let mut s = build(
        vec![1.0, 2.0, 0.5],
        vec![[0.1, 0.2, 0.3], [-0.4, 0.1, 0.0], [0.3, -0.3, 0.2]],
        vec![[0.0, 0.1, 0.0], [0.2, 0.0, 0.0], [0.0, 0.0, -0.1]],
        vec![[-0.01, -0.02, -0.03], [0.04, -0.01, 0.0], [-0.03, 0.03, -0.02]],
    );
    let before: f32 = s.masses.iter().sum();
    for _ in 0..10 {
        tick(&mut s, 0.01, 1.0);
    }
    let after: f32 = s.masses.iter().sum();
    assert_eq!(before, after);
    assert_eq!(s.masses, vec![1.0, 2.0, 0.5]);
}

#[test]
fn densities_are_not_negative() {
    let mut s = build(
        vec![1.0, 3.0, 0.25, 1.5],
        vec![[0.0, 0.0, 0.0], [0.2, 0.1, 0.0], [-0.7, 0.3, 0.5], [2.0, 2.0, 2.0]],
        vec![[0.0; 3]; 4],
        vec![[0.0, 0.0, 0.0], [-0.02, -0.01, 0.0], [0.07, -0.03, -0.05], [-0.2, -0.2, -0.2]],
    );
    for _ in 0..5 {
        let out = tick(&mut s, 0.01, 1.0);
        assert_eq!(out.densities.len(), 4);
        assert!(out.densities.iter().all(|d| *d >= 0.));
    }
}

#[test]
fn equal_starts_give_equal_runs() {
    let make = || {
        build(
            vec![1.0, 1.0, 2.0],
            vec![[0.3, 0.1, -0.2], [-0.5, 0.4, 0.9], [0.0, -0.6, 0.1]],
            vec![[0.0; 3]; 3],
            vec![[-0.03, -0.01, 0.02], [0.05, -0.04, -0.09], [0.0, 0.06, -0.01]],
        )
    };
    let mut a = make();
    let mut b = make();
    for _ in 0..20 {
        let oa = tick(&mut a, 0.01, 1.0);
        let ob = tick(&mut b, 0.01, 1.0);
        assert_eq!(a.positions, b.positions);
        assert_eq!(a.velocities, b.velocities);
        assert_eq!(oa.densities, ob.densities);
    }
}

#[test]
fn density_sees_earlier_particles_moved() {
    // Particle 0 moves into range of particle 1 during the tick; particle 1's
    // density sees it there, particle 0's density sees particle 1 unmoved.
    let mut s = build(
        vec![1.0, 1.0],
        vec![[0., 0., 0.], [1.5, 0., 0.]],
        vec![[100., 0., 0.], [0., 0., 0.]],
        vec![[0., 0., 0.], [0., 0., 0.]],
    );
    let out = tick(&mut s, 0.01, 1.0);
    assert!((s.positions[0][0] - 1.).abs() < 1e-6);
    let expected = poly6([0.5, 0., 0.], 1.0);
    assert!((out.densities[0] - expected).abs() < 1e-6);
    assert!((out.densities[1] - expected).abs() < 1e-6);
}

#[test]
fn empty_system_is_refused() {
    let r = Simulation::<f32, Vec3, Vec3>::new(vec![], vec![], vec![], vec![], positive);
    assert!(matches!(r, Err(ConfigError::EmptySystem)));
}

#[test]
fn arrays_of_different_lengths_are_refused() {
    let r = Simulation::new(vec![1.0f32, 1.0], vec![[0.0f32; 3]; 2], vec![[0.0f32; 3]; 1], vec![[0.0f32; 3]; 2], positive);
    assert!(matches!(r, Err(ConfigError::LengthMismatch)));
}

#[test]
fn first_non_positive_mass_is_reported() {
    let r = Simulation::new(
        vec![1.0f32, 0.0, -1.0],
        vec![[0.0f32; 3]; 3],
        vec![[0.0f32; 3]; 3],
        vec![[0.0f32; 3]; 3],
        positive,
    );
    assert!(matches!(r, Err(ConfigError::NonPositiveMass { index: 1 })));
}

#[test]
fn valid_configuration_is_kept_as_given() {
    let s = build(vec![2.0], vec![[1., 2., 3.]], vec![[4., 5., 6.]], vec![[7., 8., 9.]]);
    assert_eq!(s.masses, vec![2.0]);
    assert_eq!(s.positions, vec![[1., 2., 3.]]);
    assert_eq!(s.velocities, vec![[4., 5., 6.]]);
    assert_eq!(s.force, vec![[7., 8., 9.]]);
}
