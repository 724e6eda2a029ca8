//! Cables, rods and single-contact resolution on exact scenarios.

use cyclone::contact::Contact;
use cyclone::fixed::SCALE;
use cyclone::links::{Cable, Rod};
use cyclone::particle::Particle;
use cyclone::vector::Vec3;
use cyclone::SimError;

fn two_particles_apart(distance: i64) -> Vec<Particle> {
    let mut a = Particle::new();
    a.set_position(Vec3::from_values(0, 0, 0));
    let mut b = Particle::new();
    b.set_position(Vec3::from_values(distance, 0, 0));
    vec![a, b]
}

#[test]
fn cable_within_length_yields_nothing() {
    let particles = two_particles_apart(4 * SCALE);
    let cable = Cable::new((0, 1), 5 * SCALE, SCALE / 2);
    assert_eq!(cable.current_length(&particles), 4 * SCALE);
    assert!(cable.add_contact(&particles).is_none());
}

#[test]
fn taut_cable_pulls_the_particles_together() {
    // two particles 6 units apart, a cable of maximum length 5
    let particles = two_particles_apart(6 * SCALE);
    let cable = Cable::new((0, 1), 5 * SCALE, SCALE / 2);
    let c = cable.add_contact(&particles).unwrap();
    assert_eq!(c.a, 0);
    assert_eq!(c.b, Some(1));
    assert_eq!(c.restitution, SCALE / 2);
    // penetration exactly one unit
    assert_eq!(c.penetration, SCALE);
    // a unit normal pointing from the first particle toward the second
    assert_eq!(c.contact_normal, Vec3 { x: SCALE, y: 0, z: 0 });
}

#[test]
fn rod_at_its_exact_length_yields_nothing() {
    let particles = two_particles_apart(5 * SCALE);
    let rod = Rod::new((0, 1), 5 * SCALE);
    assert!(rod.add_contact(&particles).is_none());
}

#[test]
fn rod_pushes_toward_the_correct_separation() {
    let rod = Rod::new((0, 1), 5 * SCALE);
    // too close: 4 apart with a rod of length 5; resolution must increase
    // the distance, so the normal flips away from the second particle
    let close = two_particles_apart(4 * SCALE);
    let c = rod.add_contact(&close).unwrap();
    assert_eq!(c.penetration, SCALE);
    assert_eq!(c.restitution, 0);
    assert_eq!(c.contact_normal, Vec3 { x: -SCALE, y: 0, z: 0 });
    // too far: 6 apart with the same rod; resolution must decrease the
    // distance, with the normal toward the second particle
    let far = two_particles_apart(6 * SCALE);
    let c = rod.add_contact(&far).unwrap();
    assert_eq!(c.penetration, SCALE);
    assert_eq!(c.restitution, 0);
    assert_eq!(c.contact_normal, Vec3 { x: SCALE, y: 0, z: 0 });
}

#[test]
fn rod_resolution_actually_restores_the_length() {
    let rod = Rod::new((0, 1), 5 * SCALE);
    let mut close = two_particles_apart(4 * SCALE);
    let c = rod.add_contact(&close).unwrap();
    assert!(c.resolve(&mut close, SCALE / 10).is_ok());
    assert_eq!(rod.current_length(&close), 5 * SCALE);
    let mut far = two_particles_apart(6 * SCALE);
    let c = rod.add_contact(&far).unwrap();
    assert!(c.resolve(&mut far, SCALE / 10).is_ok());
    assert_eq!(rod.current_length(&far), 5 * SCALE);
}

#[test]
fn closing_contact_bounces_with_restitution() {
    // separating velocity -2.0, restitution 0.5, equal unit masses
    let mut particles = two_particles_apart(3 * SCALE);
    particles[0].set_velocity(Vec3::from_values(-SCALE, 0, 0));
    particles[1].set_velocity(Vec3::from_values(SCALE, 0, 0));
    let contact = Contact {
        a: 0,
        b: Some(1),
        restitution: SCALE / 2,
        contact_normal: Vec3::from_values(SCALE, 0, 0),
        penetration: 0,
    };
    assert_eq!(contact.calculate_separating_velocity(&particles), -2 * SCALE);
    assert!(contact.resolve(&mut particles, SCALE / 10).is_ok());
    // the resulting separating velocity is +1.0, exactly in fixed point
    assert_eq!(contact.calculate_separating_velocity(&particles), SCALE);
    // the impulse moved each body equally and oppositely along the normal
    assert_eq!(particles[0].get_velocity(), Vec3 { x: SCALE / 2, y: 0, z: 0 });
    assert_eq!(particles[1].get_velocity(), Vec3 { x: -SCALE / 2, y: 0, z: 0 });
}

#[test]
fn separating_contact_needs_no_impulse() {
    let mut particles = two_particles_apart(3 * SCALE);
    particles[0].set_velocity(Vec3::from_values(SCALE, 0, 0));
    let contact = Contact {
        a: 0,
        b: Some(1),
        restitution: SCALE / 2,
        contact_normal: Vec3::from_values(SCALE, 0, 0),
        penetration: 0,
    };
    let before = (particles[0], particles[1]);
    assert!(contact.resolve(&mut particles, SCALE / 10).is_ok());
    assert_eq!((particles[0], particles[1]), before);
}

#[test]
fn contact_between_immovable_bodies_is_unresolvable() {
    let mut particles = two_particles_apart(3 * SCALE);
    assert!(particles[0].set_inverse_mass(0).is_ok());
    assert!(particles[1].set_inverse_mass(0).is_ok());
    let contact = Contact {
        a: 0,
        b: Some(1),
        restitution: SCALE / 2,
        contact_normal: Vec3::from_values(SCALE, 0, 0),
        penetration: SCALE,
    };
    assert_eq!(
        contact.resolve(&mut particles, SCALE / 10),
        Err(SimError::UnresolvableContact)
    );
}

#[test]
fn interpenetration_moves_bodies_by_inverse_mass_share() {
    // a penetrating, non-closing contact against scenery: only the first
    // body moves, by the whole penetration
    let mut particles = two_particles_apart(3 * SCALE);
    let contact = Contact {
        a: 0,
        b: None,
        restitution: 0,
        contact_normal: Vec3::from_values(0, SCALE, 0),
        penetration: SCALE / 4,
    };
    assert!(contact.resolve(&mut particles, SCALE / 10).is_ok());
    assert_eq!(particles[0].get_position(), Vec3 { x: 0, y: SCALE / 4, z: 0 });
    assert_eq!(particles[1].get_position(), Vec3 { x: 3 * SCALE, y: 0, z: 0 });
}
