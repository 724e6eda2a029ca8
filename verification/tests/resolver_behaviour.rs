//! The iterative resolver: batches, budgets, the empty batch, and failure on
//! immovable pairs.

use cyclone::contact::Contact;
use cyclone::fixed::SCALE;
use cyclone::particle::Particle;
use cyclone::resolver::ContactResolver;
use cyclone::vector::Vec3;
use cyclone::SimError;

fn moving_pair() -> Vec<Particle> {
    let mut a = Particle::new();
    a.set_velocity(Vec3::from_values(-SCALE, 0, 0));
    let mut b = Particle::new();
    b.set_position(Vec3::from_values(3 * SCALE, 0, 0));
    b.set_velocity(Vec3::from_values(SCALE, 0, 0));
    vec![a, b]
}

fn closing_contact() -> Contact {
    Contact {
        a: 0,
        b: Some(1),
        restitution: SCALE / 2,
        contact_normal: Vec3::from_values(SCALE, 0, 0),
        penetration: 0,
    }
}

#[test]
fn resolver_with_zero_contacts_is_a_no_op() {
    let mut particles = moving_pair();
    let before = (particles[0], particles[1]);
    let resolver = ContactResolver::new(8);
    let contacts: Vec<Contact> = Vec::new();
    assert!(resolver.resolve_contacts(&mut particles, &contacts, SCALE / 10).is_ok());
    assert_eq!((particles[0], particles[1]), before);
}

#[test]
fn resolver_with_zero_iterations_is_a_no_op() {
    let mut particles = moving_pair();
    let before = (particles[0], particles[1]);
    let resolver = ContactResolver::new(0);
    let contacts = vec![closing_contact()];
    assert!(resolver.resolve_contacts(&mut particles, &contacts, SCALE / 10).is_ok());
    assert_eq!((particles[0], particles[1]), before);
}

#[test]
fn resolver_resolves_the_single_closing_contact() {
    let mut particles = moving_pair();
    let resolver = ContactResolver::new(1);
    let contacts = vec![closing_contact()];
    assert!(resolver.resolve_contacts(&mut particles, &contacts, SCALE / 10).is_ok());
    assert_eq!(contacts[0].calculate_separating_velocity(&particles), SCALE);
}

#[test]
fn resolver_picks_the_worst_contact_first() {
    // two scenery contacts; the second one is closing faster and must be
    // the one resolved by a single-iteration budget
    let mut a = Particle::new();
    a.set_velocity(Vec3::from_values(0, -SCALE, 0));
    let mut b = Particle::new();
    b.set_velocity(Vec3::from_values(0, -3 * SCALE, 0));
    let mut particles = vec![a, b];
    let up = Vec3::from_values(0, SCALE, 0);
    let c0 = Contact { a: 0, b: None, restitution: 0, contact_normal: up, penetration: 0 };
    let c1 = Contact { a: 1, b: None, restitution: 0, contact_normal: up, penetration: 0 };
    let contacts = vec![c0, c1];
    let resolver = ContactResolver::new(1);
    assert!(resolver.resolve_contacts(&mut particles, &contacts, SCALE / 10).is_ok());
    // the faster-closing body was stopped; the slower one was left alone
    assert_eq!(particles[1].get_velocity(), Vec3 { x: 0, y: 0, z: 0 });
    assert_eq!(particles[0].get_velocity(), Vec3 { x: 0, y: -SCALE, z: 0 });
}

#[test]
fn resolver_surfaces_unresolvable_contacts() {
    let mut a = Particle::new();
    assert!(a.set_inverse_mass(0).is_ok());
    a.set_velocity(Vec3::from_values(-SCALE, 0, 0));
    let mut b = Particle::new();
    assert!(b.set_inverse_mass(0).is_ok());
    b.set_position(Vec3::from_values(3 * SCALE, 0, 0));
    b.set_velocity(Vec3::from_values(SCALE, 0, 0));
    let mut particles = vec![a, b];
    let contacts = vec![closing_contact()];
    let resolver = ContactResolver::new(4);
    assert_eq!(
        resolver.resolve_contacts(&mut particles, &contacts, SCALE / 10),
        Err(SimError::UnresolvableContact)
    );
}

#[test]
fn set_iterations_sets_every_budget() {
    let mut resolver = ContactResolver::new(1);
    resolver.set_iterations(12);
    assert_eq!(resolver.iterations, 12);
    assert_eq!(resolver.velocity_iterations, 12);
    assert_eq!(resolver.position_iterations, 12);
}
