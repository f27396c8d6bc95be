use nbody::body::BodyStore;
use nbody::config::SimulationConfig;
use nbody::integrator::integrate_step;
use nbody::vec3::Vec3;

fn two_body_store() -> BodyStore {
    // A: mass 100 at the origin, at rest.
    // B: mass 1 at (10, 0, 0), moving (0, 0, 100).
    let mut store = BodyStore::empty();
    store
        .add_body(0, 100_000_000, Vec3::zero(), Vec3::zero())
        .unwrap();
    store
        .add_body(
            1,
            1_000_000,
            Vec3::new(10_000_000, 0, 0),
            Vec3::new(0, 0, 100_000_000),
        )
        .unwrap();
    store
}

#[test]
fn two_body_attraction_matches_the_formula() {
    // G = 0.05, dt = 1/34 in fixed point.
    let config = SimulationConfig::default();
    let g = config.gravitational_constant;
    let dt = config.nominal_dt();
    assert_eq!(g, 50_000);
    assert_eq!(dt, 29_411);

    let mut store = two_body_store();
    integrate_step(&mut store, g, dt);

    // A gains G * m_B / d^2 * dt = 0.05 * 1 / 100 / 34 toward +x,
    // which is 14 raw units (~1.47e-5 world units, truncated).
    let a = store.get(0);
    assert_eq!(a.vel, Vec3::new(14, 0, 0));
    assert!(a.vel.x > 0);
    // 14 * dt / SCALE truncates to zero displacement.
    assert_eq!(a.pos, Vec3::zero());

    // B gains G * m_A / d^2 * dt = 0.05 * 100 / 100 / 34 toward -x,
    // which is 1470 raw units (~1.47e-3), on top of its (0, 0, 100).
    let b = store.get(1);
    assert_eq!(b.vel, Vec3::new(-1470, 0, 100_000_000));
    assert!(b.vel.x < 0);
    assert_eq!(b.pos, Vec3::new(9_999_957, 0, 2_941_100));
}

#[test]
fn integration_is_deterministic() {
    let config = SimulationConfig::default();
    let g = config.gravitational_constant;
    let dt = config.nominal_dt();

    let mut first = two_body_store();
    let mut second = two_body_store();
    integrate_step(&mut first, g, dt);
    integrate_step(&mut second, g, dt);
    assert_eq!(first, second);

    integrate_step(&mut first, g, dt);
    integrate_step(&mut second, g, dt);
    assert_eq!(first, second);
}

#[test]
fn single_resting_body_is_unchanged() {
    let config = SimulationConfig::default();
    let mut store = BodyStore::empty();
    store
        .add_body(7, 5_000_000, Vec3::new(123, -456, 789), Vec3::zero())
        .unwrap();
    let before = store.clone();
    integrate_step(&mut store, config.gravitational_constant, config.nominal_dt());
    assert_eq!(store, before);
}

#[test]
fn single_moving_body_keeps_its_velocity() {
    let config = SimulationConfig::default();
    let mut store = BodyStore::empty();
    store
        .add_body(
            7,
            5_000_000,
            Vec3::zero(),
            Vec3::new(1_000_000, 0, -2_000_000),
        )
        .unwrap();
    integrate_step(&mut store, config.gravitational_constant, config.nominal_dt());
    let b = store.get(0);
    // No other body, so no force: the velocity is untouched and the
    // position drifts by v * dt (1 * 1/34 and -2 * 1/34 world units).
    assert_eq!(b.vel, Vec3::new(1_000_000, 0, -2_000_000));
    assert_eq!(b.pos, Vec3::new(29_411, 0, -58_822));
}

#[test]
fn coincident_bodies_exert_no_force() {
    let config = SimulationConfig::default();
    let mut store = BodyStore::empty();
    store
        .add_body(0, 1_000_000, Vec3::new(5, 5, 5), Vec3::zero())
        .unwrap();
    store
        .add_body(1, 9_000_000, Vec3::new(5, 5, 5), Vec3::zero())
        .unwrap();
    let before = store.clone();
    integrate_step(&mut store, config.gravitational_constant, config.nominal_dt());
    // The degenerate pair is skipped; both bodies are at rest, so the
    // whole store is unchanged.
    assert_eq!(store, before);
}

#[test]
fn empty_store_ticks_to_empty() {
    let config = SimulationConfig::default();
    let mut store = BodyStore::empty();
    integrate_step(&mut store, config.gravitational_constant, config.nominal_dt());
    assert_eq!(store.len(), 0);
}
