use lorenz::attractor::{derivative, step, LorenzParams, Position, Velocity};

fn assert_close(actual: f32, expected: f32, tolerance: f32) {
    assert!((actual - expected).abs() <= tolerance, "{} is not within {} of {}", actual, tolerance, expected);
}

#[test]
fn classic_parameters_are_ten_eight_thirds_twenty_eight() {
    let single: LorenzParams<f32> = LorenzParams::classic();
    assert_eq!(single.sigma, 10.0);
    assert_eq!(single.beta, 8.0 / 3.0);
    assert_eq!(single.rho, 28.0);
    assert_eq!(single.dt, 0.001);
    let double: LorenzParams<f64> = LorenzParams::classic();
    assert_eq!(double.sigma, 10.0);
    assert_eq!(double.beta, 8.0 / 3.0);
    assert_eq!(double.rho, 28.0);
    assert_eq!(double.dt, 0.001);
}

#[test]
fn classic_parameters_on_integers_divide_towards_zero() {
    let params: LorenzParams<i64> = LorenzParams::classic();
    assert_eq!(params, LorenzParams { sigma: 10, beta: 2, rho: 28, dt: 0 });
}

#[test]
fn seed_is_a_tenth_zero_a_tenth() {
    let single: Position<f32> = Position::seed();
    assert_eq!(single, Position { x: 0.1, y: 0.0, z: 0.1 });
    let double: Position<f64> = Position::seed();
    assert_eq!(double, Position { x: 0.1, y: 0.0, z: 0.1 });
}

#[test]
fn derivative_at_the_seed() {
    let params: LorenzParams<f32> = LorenzParams::classic();
    let v = derivative(&Position::seed(), &params);
    assert_eq!(v.dx, -1.0);
    assert_close(v.dy, 2.79, 1e-6);
    assert_close(v.dz, -0.2667, 1e-4);
    assert_eq!(v.dy, 0.1f32 * (28.0f32 - 0.1f32) - 0.0f32);
    assert_eq!(v.dz, 0.1f32 * 0.0f32 - (8.0f32 / 3.0f32) * 0.1f32);
}

#[test]
fn derivative_on_integers() {
    let params = LorenzParams { sigma: 10i64, beta: 2, rho: 28, dt: 1 };
    let v = derivative(&Position { x: 1, y: 2, z: 3 }, &params);
    assert_eq!(v, Velocity { dx: 10, dy: 23, dz: -4 });
}

#[test]
fn origin_is_a_fixed_point() {
    let single: LorenzParams<f32> = LorenzParams::classic();
    let mut p = Position { x: 0.0f32, y: 0.0, z: 0.0 };
    step(&mut p, &single);
    assert_eq!(p, Position { x: 0.0, y: 0.0, z: 0.0 });
    for _ in 0..1000 {
        step(&mut p, &single);
    }
    assert_eq!(p, Position { x: 0.0, y: 0.0, z: 0.0 });

    let double: LorenzParams<f64> = LorenzParams::classic();
    let mut q = Position { x: 0.0f64, y: 0.0, z: 0.0 };
    step(&mut q, &double);
    assert_eq!(q, Position { x: 0.0, y: 0.0, z: 0.0 });

    let whole = LorenzParams { sigma: 10i64, beta: 2, rho: 28, dt: 1 };
    let mut w = Position { x: 0i64, y: 0, z: 0 };
    step(&mut w, &whole);
    assert_eq!(w, Position { x: 0, y: 0, z: 0 });
}

#[test]
fn one_step_from_the_seed() {
    let params: LorenzParams<f32> = LorenzParams::classic();
    let mut p: Position<f32> = Position::seed();
    step(&mut p, &params);
    assert_close(p.x, 0.099, 1e-7);
    assert_close(p.y, 0.00279, 1e-7);
    assert_close(p.z, 0.099733, 1e-6);
    assert_eq!(p.x.to_bits(), 0x3dca_c083);
    assert_eq!(p.y.to_bits(), 0x3b36_d86f);
    assert_eq!(p.z.to_bits(), 0x3dcc_40fe);
}

#[test]
fn one_step_from_the_seed_in_double_precision() {
    let params: LorenzParams<f64> = LorenzParams::classic();
    let mut p: Position<f64> = Position::seed();
    step(&mut p, &params);
    assert_eq!(p.x, 0.1 + 10.0 * (0.0 - 0.1) * 0.001);
    assert_eq!(p.y, 0.0 + (0.1 * (28.0 - 0.1) - 0.0) * 0.001);
    assert_eq!(p.z, 0.1 + (0.1 * 0.0 - (8.0 / 3.0) * 0.1) * 0.001);
    assert!((p.x - 0.099).abs() < 1e-15);
    assert!((p.y - 0.00279).abs() < 1e-15);
    assert!((p.z - 0.099733).abs() < 1e-6);
}

#[test]
fn one_step_on_integers() {
    let params = LorenzParams { sigma: 10i64, beta: 2, rho: 28, dt: 1 };
    let mut p = Position { x: 1i64, y: 2, z: 3 };
    step(&mut p, &params);
    assert_eq!(p, Position { x: 11, y: 25, z: -1 });
}

#[test]
fn step_reads_the_position_as_it_was_before_the_step() {
    // With the new x in place of the old one, dy and dz would come out differently.
    let params = LorenzParams { sigma: 2.0f64, beta: 0.5, rho: 3.0, dt: 0.25 };
    let mut p = Position { x: 1.0f64, y: 5.0, z: 2.0 };
    step(&mut p, &params);
    assert_eq!(p.x, 1.0 + 2.0 * (5.0 - 1.0) * 0.25);
    assert_eq!(p.y, 5.0 + (1.0 * (3.0 - 2.0) - 5.0) * 0.25);
    assert_eq!(p.z, 2.0 + (1.0 * 5.0 - 0.5 * 2.0) * 0.25);
    assert_eq!(p, Position { x: 3.0, y: 4.0, z: 3.0 });
}

#[test]
fn step_is_deterministic() {
    let params: LorenzParams<f32> = LorenzParams::classic();
    let starts = [
        Position { x: 0.1f32, y: 0.0, z: 0.1 },
        Position { x: -7.5, y: 3.25, z: 21.0 },
        Position { x: 1.0e10, y: -1.0e-10, z: 0.0 },
        Position { x: 12.9, y: -27.9, z: 45.0 },
    ];
    for start in starts {
        let mut first = start;
        let mut second = start;
        step(&mut first, &params);
        step(&mut second, &params);
        assert_eq!(first.x.to_bits(), second.x.to_bits());
        assert_eq!(first.y.to_bits(), second.y.to_bits());
        assert_eq!(first.z.to_bits(), second.z.to_bits());
    }
}

#[test]
fn step_moves_by_the_derivative_times_the_time_step() {
    let params: LorenzParams<f32> = LorenzParams::classic();
    let start = Position { x: -7.5f32, y: 3.25, z: 21.0 };
    let v = derivative(&start, &params);
    let mut p = start;
    step(&mut p, &params);
    assert_eq!(p.x, start.x + v.dx * params.dt);
    assert_eq!(p.y, start.y + v.dy * params.dt);
    assert_eq!(p.z, start.z + v.dz * params.dt);
}
