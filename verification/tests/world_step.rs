//! The full step loop: forces, integration, link contacts and resolution.

use cyclone::fixed::SCALE;
use cyclone::forcegen::Gravity;
use cyclone::links::{Cable, Rod};
use cyclone::particle::Particle;
use cyclone::registry::{ForceGenerator, ForceRegistry};
use cyclone::resolver::ContactResolver;
use cyclone::vector::Vec3;
use cyclone::world::{Link, World};
use cyclone::SimError;

fn empty_world(particles: Vec<Particle>, links: Vec<Link>) -> World {
    World {
        particles,
        force_registry: ForceRegistry::new(),
        contact_resolver: ContactResolver::new(4),
        links,
        max_contacts: 16,
        calculate_iterations: true,
    }
}

#[test]
fn a_fresh_world_steps_without_error() {
    let mut w = empty_world(vec![Particle::new()], Vec::new());
    assert!(w.run_physics(SCALE / 10).is_ok());
    assert_eq!(w.particles[0].get_position(), Vec3 { x: 0, y: 0, z: 0 });
}

#[test]
fn negative_duration_stops_the_step() {
    let mut w = empty_world(vec![Particle::new()], Vec::new());
    assert_eq!(w.run_physics(-1), Err(SimError::InvalidMassOrTimestep));
}

#[test]
fn gravity_accelerates_a_falling_particle() {
    let mut w = empty_world(vec![Particle::new()], Vec::new());
    w.force_registry.add(
        0,
        ForceGenerator::Gravity(Gravity::new(Vec3::from_values(0, -10 * SCALE, 0))),
    );
    assert!(w.run_physics(SCALE / 10).is_ok());
    // the particle picked up downward velocity and its accumulator is clear
    assert!(w.particles[0].get_velocity().y < 0);
    assert_eq!(w.particles[0].get_force_accum(), Vec3 { x: 0, y: 0, z: 0 });
    // position moved by the old (zero) velocity only
    assert_eq!(w.particles[0].get_position(), Vec3 { x: 0, y: 0, z: 0 });
    let v1 = w.particles[0].get_velocity().y;
    assert!(w.run_physics(SCALE / 10).is_ok());
    // now the position follows the velocity and the velocity keeps falling
    assert!(w.particles[0].get_position().y < 0);
    assert!(w.particles[0].get_velocity().y < v1);
}

#[test]
fn a_taut_cable_draws_the_pair_back_together() {
    let mut a = Particle::new();
    a.set_position(Vec3::from_values(0, 0, 0));
    let mut b = Particle::new();
    b.set_position(Vec3::from_values(6 * SCALE, 0, 0));
    let cable = Link::Cable(Cable::new((0, 1), 5 * SCALE, SCALE / 2));
    let mut w = empty_world(vec![a, b], vec![cable]);
    assert!(w.run_physics(SCALE / 10).is_ok());
    let ax = w.particles[0].get_position().x;
    let bx = w.particles[1].get_position().x;
    // each of the two budgeted iterations resolves the contact's stored
    // penetration of one unit, splitting the correction equally
    assert_eq!(ax, SCALE);
    assert_eq!(bx, 5 * SCALE);
}

#[test]
fn a_rod_between_immovable_bodies_stops_the_step() {
    let mut a = Particle::new();
    assert!(a.set_inverse_mass(0).is_ok());
    let mut b = Particle::new();
    assert!(b.set_inverse_mass(0).is_ok());
    b.set_position(Vec3::from_values(6 * SCALE, 0, 0));
    let rod = Link::Rod(Rod::new((0, 1), 5 * SCALE));
    let mut w = empty_world(vec![a, b], vec![rod]);
    assert_eq!(w.run_physics(SCALE / 10), Err(SimError::UnresolvableContact));
}

#[test]
fn the_iteration_budget_follows_the_contact_count() {
    let mut a = Particle::new();
    a.set_position(Vec3::from_values(0, 0, 0));
    let mut b = Particle::new();
    b.set_position(Vec3::from_values(6 * SCALE, 0, 0));
    let cable = Link::Cable(Cable::new((0, 1), 5 * SCALE, SCALE / 2));
    let mut w = empty_world(vec![a, b], vec![cable]);
    assert!(w.run_physics(SCALE / 10).is_ok());
    // one contact this step, twice that as budget
    assert_eq!(w.contact_resolver.iterations, 2);
    // with a fixed budget the world leaves the resolver alone
    let mut fixed_budget = empty_world(vec![Particle::new()], Vec::new());
    fixed_budget.calculate_iterations = false;
    assert!(fixed_budget.run_physics(SCALE / 10).is_ok());
    assert_eq!(fixed_budget.contact_resolver.iterations, 4);
}

#[test]
fn max_contacts_caps_the_gathered_batch() {
    // three overstretched cables but room for only one contact
    let mut ps = Vec::new();
    for k in 0..4 {
        let mut p = Particle::new();
        p.set_position(Vec3::from_values(6 * SCALE * k, 0, 0));
        ps.push(p);
    }
    let links = vec![
        Link::Cable(Cable::new((0, 1), 5 * SCALE, 0)),
        Link::Cable(Cable::new((1, 2), 5 * SCALE, 0)),
        Link::Cable(Cable::new((2, 3), 5 * SCALE, 0)),
    ];
    let mut w = empty_world(ps, links);
    w.max_contacts = 1;
    assert!(w.run_physics(SCALE / 10).is_ok());
    // only the first cable's contact was gathered and resolved
    assert_eq!(w.contact_resolver.iterations, 2);
    assert!(w.particles[0].get_position().x > 0);
    assert_eq!(w.particles[2].get_position().x, 12 * SCALE);
}
