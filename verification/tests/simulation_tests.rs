use nbody::body::BodyStore;
use nbody::config::SimulationConfig;
use nbody::integrator::integrate_step;
use nbody::simulation::Simulation;

#[test]
fn new_simulation_holds_the_startup_set() {
    let sim = Simulation::new(SimulationConfig::default());
    let bodies = sim.bodies();
    assert_eq!(bodies.len(), 3);
    assert_eq!(bodies[0].id, 0);
    assert_eq!(bodies[0].mass, 100_000_000);
    assert_eq!(bodies[1].id, 1);
    assert_eq!(bodies[1].pos.x, 10_000_000);
    assert_eq!(bodies[1].vel.z, 100_000_000);
    assert_eq!(bodies[2].id, 2);
    assert_eq!(bodies[2].pos.z, -10_000_000);
    assert_eq!(bodies[2].vel.x, 100_000_000);
}

#[test]
fn scheduled_tick_is_gated_while_paused() {
    // active defaults to false: a scheduled tick fires but changes nothing.
    let mut sim = Simulation::new(SimulationConfig::default());
    let before = sim.bodies().clone();
    let fired = sim.advance_time(34_000);
    assert!(fired);
    assert_eq!(sim.bodies(), &before);
}

#[test]
fn forced_tick_steps_a_paused_simulation_exactly_once() {
    let mut sim = Simulation::new(SimulationConfig::default());
    assert!(!sim.config.active);
    let before = sim.store.clone();

    // One forced tick equals exactly one integrator step.
    let mut expected: BodyStore = before.clone();
    integrate_step(
        &mut expected,
        sim.config.gravitational_constant,
        sim.config.nominal_dt(),
    );
    sim.force_tick();
    assert_ne!(sim.store, before);
    assert_eq!(sim.store, expected);

    // A second call steps exactly once more.
    integrate_step(
        &mut expected,
        sim.config.gravitational_constant,
        sim.config.nominal_dt(),
    );
    sim.force_tick();
    assert_eq!(sim.store, expected);
}

#[test]
fn active_simulation_steps_on_a_scheduled_tick() {
    let mut sim = Simulation::new(SimulationConfig::default());
    sim.toggle_active();
    assert!(sim.config.active);

    let mut expected = sim.store.clone();
    integrate_step(
        &mut expected,
        sim.config.gravitational_constant,
        sim.config.nominal_dt(),
    );
    let fired = sim.advance_time(34_000);
    assert!(fired);
    assert_eq!(sim.store, expected);
}

#[test]
fn accumulator_gathers_time_and_resets_to_zero() {
    let mut sim = Simulation::new(SimulationConfig::default());
    assert!(!sim.advance_time(10_000));
    assert_eq!(sim.scheduler.accumulated, 10_000);
    assert!(!sim.advance_time(23_999));
    assert_eq!(sim.scheduler.accumulated, 33_999);
    assert!(sim.advance_time(1));
    // Reset to zero, not to the remainder.
    assert_eq!(sim.scheduler.accumulated, 0);
    // Overshoot beyond the interval is likewise discarded.
    assert!(sim.advance_time(1_000_000));
    assert_eq!(sim.scheduler.accumulated, 0);
}

#[test]
fn toggle_flips_only_the_running_flag() {
    let mut sim = Simulation::new(SimulationConfig::default());
    let bodies = sim.bodies().clone();
    sim.toggle_active();
    assert!(sim.config.active);
    assert_eq!(sim.bodies(), &bodies);
    sim.toggle_active();
    assert!(!sim.config.active);
}

#[test]
fn forecast_leaves_the_simulation_untouched() {
    let mut sim = Simulation::new(SimulationConfig::default());
    sim.toggle_active();
    sim.force_tick();
    let before = sim.clone();
    let _ = sim.request_forecast();
    assert_eq!(sim, before);
}

#[test]
fn forecast_has_one_trajectory_per_body_of_the_requested_length() {
    let config = SimulationConfig::new(50_000, 34, 17, false).unwrap();
    let mut sim = Simulation::new(config);
    let r = sim.request_forecast();
    assert_eq!(r.trajectories.len(), 3);
    for (i, t) in r.trajectories.iter().enumerate() {
        assert_eq!(t.id, i as u64);
        assert_eq!(t.positions.len(), 17);
    }
}

#[test]
fn forecast_positions_replay_the_integrator() {
    let mut sim = Simulation::new(SimulationConfig::default());
    let g = sim.config.gravitational_constant;
    let dt = sim.config.nominal_dt();
    sim.config = SimulationConfig::new(g, 34, 3, false).unwrap();

    let r = sim.request_forecast();
    let mut replay = sim.store.clone();
    for k in 0..3 {
        integrate_step(&mut replay, g, dt);
        for (i, t) in r.trajectories.iter().enumerate() {
            assert_eq!(t.positions[k], replay.bodies[i].pos);
        }
    }
}

#[test]
fn reset_restores_the_startup_set_and_is_idempotent() {
    let mut sim = Simulation::new(SimulationConfig::default());
    let pristine = sim.store.clone();
    sim.toggle_active();
    sim.force_tick();
    sim.force_tick();
    assert_ne!(sim.store, pristine);

    sim.reset();
    let once = sim.store.clone();
    sim.reset();
    let twice = sim.store.clone();
    assert_eq!(once, pristine);
    assert_eq!(twice, once);
    // The running flag is not altered by a reset.
    assert!(sim.config.active);
}
