//! The particle integrator: exact motion, the immovable case, accumulator
//! clearing, and damping never adding energy.

use cyclone::fixed::SCALE;
use cyclone::particle::{Particle, DEFAULT_DAMPING};
use cyclone::vector::Vec3;
use cyclone::SimError;

#[test]
fn integration_moves_position_by_velocity_and_clears_accumulator() {
    let mut p = Particle::new();
    p.set_damping(SCALE);
    p.set_position(Vec3::from_values(10 * SCALE, 0, 0));
    p.set_velocity(Vec3::from_values(2 * SCALE, -SCALE, 0));
    p.add_force(Vec3::from_values(0, 4 * SCALE, 0));
    // one second: position += v * 1; velocity += (f / m) * 1 with m == 1
    assert!(p.integrate(SCALE).is_ok());
    assert_eq!(p.get_position(), Vec3 { x: 12 * SCALE, y: -SCALE, z: 0 });
    assert_eq!(p.get_velocity(), Vec3 { x: 2 * SCALE, y: 3 * SCALE, z: 0 });
    assert_eq!(p.get_force_accum(), Vec3 { x: 0, y: 0, z: 0 });
}

#[test]
fn infinite_mass_particle_never_moves() {
    let mut p = Particle::new();
    assert!(p.set_inverse_mass(0).is_ok());
    p.set_position(Vec3::from_values(SCALE, SCALE, SCALE));
    p.set_velocity(Vec3::from_values(5 * SCALE, 0, 0));
    p.add_force(Vec3::from_values(100 * SCALE, 0, 0));
    let before = p;
    assert!(p.integrate(SCALE).is_ok());
    assert_eq!(p, before);
    assert!(p.integrate(7 * SCALE).is_ok());
    assert_eq!(p, before);
}

#[test]
fn zero_duration_is_a_no_op() {
    let mut p = Particle::new();
    p.set_velocity(Vec3::from_values(SCALE, 0, 0));
    p.add_force(Vec3::from_values(0, SCALE, 0));
    let before = p;
    assert!(p.integrate(0).is_ok());
    assert_eq!(p, before);
}

#[test]
fn negative_duration_is_rejected_untouched() {
    let mut p = Particle::new();
    p.set_velocity(Vec3::from_values(SCALE, 0, 0));
    let before = p;
    assert_eq!(p.integrate(-1), Err(SimError::InvalidMassOrTimestep));
    assert_eq!(p, before);
}

#[test]
fn clearing_accumulator_twice_equals_once() {
    let mut p = Particle::new();
    p.add_force(Vec3::from_values(3 * SCALE, 2 * SCALE, SCALE));
    let mut q = p;
    p.clear_accumulator();
    let once = p;
    q.clear_accumulator();
    q.clear_accumulator();
    assert_eq!(q, once);
}

#[test]
fn damping_alone_never_speeds_up_over_one_second() {
    // fixed small steps of 0.1 s for one second of simulated time
    let mut p = Particle::new();
    p.set_damping(SCALE / 2);
    p.set_velocity(Vec3::from_values(3 * SCALE, 4 * SCALE, 0));
    let initial_speed = p.get_velocity_magnitude();
    let dt = SCALE / 10;
    for _ in 0..10 {
        assert!(p.integrate(dt).is_ok());
        assert!(p.get_velocity_magnitude() <= initial_speed);
    }
    assert!(p.get_velocity_magnitude() <= initial_speed);
}

#[test]
fn mass_setters_validate_their_input() {
    let mut p = Particle::new();
    assert_eq!(p.set_mass(0), Err(SimError::InvalidMassOrTimestep));
    assert_eq!(p.set_mass(-SCALE), Err(SimError::InvalidMassOrTimestep));
    assert!(p.set_mass(2 * SCALE).is_ok());
    assert_eq!(p.get_inverse_mass(), SCALE / 2);
    assert_eq!(p.get_mass(), 2 * SCALE);
    assert_eq!(p.set_inverse_mass(-1), Err(SimError::InvalidMassOrTimestep));
    assert!(p.set_inverse_mass(0).is_ok());
    assert!(p.is_infinite_mass());
}

#[test]
fn kinetic_energy_and_defaults() {
    let p = Particle::new();
    assert_eq!(p.get_damping(), DEFAULT_DAMPING);
    assert_eq!(p.get_inverse_mass(), SCALE);
    let mut q = Particle::new();
    q.set_velocity(Vec3::from_values(SCALE, 0, 0));
    // m v^2 / 2 with m == 1 and |v| == 1: one half
    assert_eq!(q.get_kinetic_energy(), SCALE / 2);
    q.set_acceleration(Vec3::from_values(0, SCALE, 0));
    assert_eq!(q.get_acceleration(), Vec3 { x: 0, y: SCALE, z: 0 });
    q.add_acceleration(Vec3::from_values(0, SCALE, 0));
    assert_eq!(q.get_acceleration(), Vec3 { x: 0, y: 2 * SCALE, z: 0 });
    let mut inf = Particle::new();
    assert!(inf.set_inverse_mass(0).is_ok());
    inf.set_velocity(Vec3::from_values(SCALE, 0, 0));
    assert_eq!(inf.get_kinetic_energy(), 0);
}
