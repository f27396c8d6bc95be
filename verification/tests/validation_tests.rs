use nbody::body::{BodyError, BodyStore};
use nbody::config::{ConfigError, SimulationConfig};
use nbody::vec3::Vec3;

#[test]
fn default_config_matches_the_startup_values() {
    let c = SimulationConfig::default();
    assert_eq!(c.gravitational_constant, 50_000); // 0.05 in fixed point
    assert_eq!(c.update_frequency_ms, 34);
    assert_eq!(c.forecast_steps, 1000);
    assert!(!c.active);
    assert_eq!(c.nominal_dt(), 29_411); // 1/34 second in fixed point
}

#[test]
fn config_rejects_zero_gravity() {
    let r = SimulationConfig::new(0, 34, 10, false);
    assert_eq!(r, Err(ConfigError::NonPositiveGravity));
}

#[test]
fn config_rejects_oversized_gravity() {
    let r = SimulationConfig::new(2_000_000_000_000, 34, 10, false);
    assert_eq!(r, Err(ConfigError::GravityOutOfRange));
}

#[test]
fn config_rejects_zero_frequency() {
    let r = SimulationConfig::new(50_000, 0, 10, false);
    assert_eq!(r, Err(ConfigError::NonPositiveFrequency));
}

#[test]
fn config_rejects_oversized_frequency() {
    let r = SimulationConfig::new(50_000, 2_000_000, 10, false);
    assert_eq!(r, Err(ConfigError::FrequencyOutOfRange));
}

#[test]
fn config_accepts_valid_values() {
    let c = SimulationConfig::new(50_000, 100, 25, true).unwrap();
    assert_eq!(c.gravitational_constant, 50_000);
    assert_eq!(c.update_frequency_ms, 100);
    assert_eq!(c.forecast_steps, 25);
    assert!(c.active);
    assert_eq!(c.nominal_dt(), 10_000);
}

#[test]
fn store_rejects_zero_mass() {
    let mut s = BodyStore::empty();
    let r = s.add_body(0, 0, Vec3::zero(), Vec3::zero());
    assert_eq!(r, Err(BodyError::NonPositiveMass));
    assert_eq!(s.len(), 0);
}

#[test]
fn store_rejects_oversized_mass() {
    let mut s = BodyStore::empty();
    let r = s.add_body(0, 1_000_000_000_001, Vec3::zero(), Vec3::zero());
    assert_eq!(r, Err(BodyError::MassOutOfRange));
}

#[test]
fn store_rejects_out_of_range_position() {
    let mut s = BodyStore::empty();
    let r = s.add_body(0, 1, Vec3::new(1_000_000_000_001, 0, 0), Vec3::zero());
    assert_eq!(r, Err(BodyError::PositionOutOfRange));
}

#[test]
fn store_rejects_out_of_range_velocity() {
    let mut s = BodyStore::empty();
    let r = s.add_body(0, 1, Vec3::zero(), Vec3::new(0, -1_000_000_000_001, 0));
    assert_eq!(r, Err(BodyError::VelocityOutOfRange));
}

#[test]
fn store_rejects_duplicate_identifiers() {
    let mut s = BodyStore::empty();
    s.add_body(3, 1, Vec3::zero(), Vec3::zero()).unwrap();
    let r = s.add_body(3, 1, Vec3::new(1, 1, 1), Vec3::zero());
    assert_eq!(r, Err(BodyError::DuplicateId));
    assert_eq!(s.len(), 1);
}

#[test]
fn store_accepts_and_keeps_a_valid_body() {
    let mut s = BodyStore::empty();
    s.add_body(9, 42, Vec3::new(1, 2, 3), Vec3::new(-4, -5, -6)).unwrap();
    assert_eq!(s.len(), 1);
    let b = s.get(0);
    assert_eq!(b.id, 9);
    assert_eq!(b.mass, 42);
    assert_eq!(b.pos, Vec3::new(1, 2, 3));
    assert_eq!(b.vel, Vec3::new(-4, -5, -6));
    assert!(s.contains_id(9));
    assert!(!s.contains_id(8));
}

#[test]
fn clear_empties_the_store() {
    let mut s = BodyStore::startup();
    assert_eq!(s.len(), 3);
    s.clear();
    assert_eq!(s.len(), 0);
}
