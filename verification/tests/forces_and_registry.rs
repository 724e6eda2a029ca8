//! The force generators' laws on exact values, and the registry's bookkeeping.

use cyclone::fixed::SCALE;
use cyclone::forcegen::{
    AirBuoyancy, AnchoredSpring, Bangee, Buoyancy, DeformableSpring, Drag, Gravity, Spring,
};
use cyclone::particle::Particle;
use cyclone::registry::{ForceGenerator, ForceRegistry};
use cyclone::vector::Vec3;

#[test]
fn gravity_scales_with_mass_and_skips_immovable_bodies() {
    let g = Gravity::new(Vec3::from_values(0, -10 * SCALE, 0));
    let mut p = Particle::new();
    assert!(p.set_mass(2 * SCALE).is_ok());
    g.update_force(&mut p, SCALE / 60);
    assert_eq!(p.get_force_accum(), Vec3 { x: 0, y: -20 * SCALE, z: 0 });
    let mut wall = Particle::new();
    assert!(wall.set_inverse_mass(0).is_ok());
    g.update_force(&mut wall, SCALE / 60);
    assert_eq!(wall.get_force_accum(), Vec3 { x: 0, y: 0, z: 0 });
}

#[test]
fn drag_opposes_velocity() {
    // k1 = 0.5, k2 = 0, |v| = 2: the force is -v/|v| * 1.0
    let d = Drag::new(SCALE / 2, 0);
    let mut p = Particle::new();
    p.set_velocity(Vec3::from_values(2 * SCALE, 0, 0));
    d.update_force(&mut p, SCALE / 60);
    assert_eq!(p.get_force_accum(), Vec3 { x: -SCALE, y: 0, z: 0 });
    // the quadratic term: k1 = 0, k2 = 1, |v| = 2: magnitude 4
    let d2 = Drag::new(0, SCALE);
    let mut q = Particle::new();
    q.set_velocity(Vec3::from_values(0, 2 * SCALE, 0));
    d2.update_force(&mut q, SCALE / 60);
    assert_eq!(q.get_force_accum(), Vec3 { x: 0, y: -4 * SCALE, z: 0 });
}

#[test]
fn anchored_spring_restores_toward_rest_length() {
    // anchored at the origin, rest length 1, stiffness 1, particle at x == 3:
    // the force pulls back with magnitude 2
    let s = AnchoredSpring::new(Vec3::new(), SCALE, SCALE);
    let mut p = Particle::new();
    p.set_position(Vec3::from_values(3 * SCALE, 0, 0));
    s.update_force(&mut p, SCALE / 60);
    assert_eq!(p.get_force_accum(), Vec3 { x: -2 * SCALE, y: 0, z: 0 });
    // compressed below rest length, the spring pushes away
    let mut q = Particle::new();
    q.set_position(Vec3::from_values(SCALE / 2, 0, 0));
    s.update_force(&mut q, SCALE / 60);
    assert_eq!(q.get_force_accum(), Vec3 { x: SCALE / 2, y: 0, z: 0 });
}

#[test]
fn spring_between_particles_pulls_the_stretched_end() {
    let s = Spring::new(1, SCALE, SCALE);
    let mut a = Particle::new();
    a.set_position(Vec3::from_values(4 * SCALE, 0, 0));
    let b = Particle::new();
    let mut particles = vec![a, b];
    s.update_force(&mut particles, 0, SCALE / 60);
    assert_eq!(particles[0].get_force_accum(), Vec3 { x: -3 * SCALE, y: 0, z: 0 });
    // the other end is only read, never written
    assert_eq!(particles[1].get_force_accum(), Vec3 { x: 0, y: 0, z: 0 });
}

#[test]
fn bungee_goes_slack_when_short() {
    let s = Bangee::new(1, SCALE, 2 * SCALE);
    let mut a = Particle::new();
    a.set_position(Vec3::from_values(SCALE, 0, 0));
    let b = Particle::new();
    let mut particles = vec![a, b];
    s.update_force(&mut particles, 0, SCALE / 60);
    assert_eq!(particles[0].get_force_accum(), Vec3 { x: 0, y: 0, z: 0 });
    // stretched past rest length it pulls like a spring
    particles[0].set_position(Vec3::from_values(3 * SCALE, 0, 0));
    s.update_force(&mut particles, 0, SCALE / 60);
    assert_eq!(particles[0].get_force_accum(), Vec3 { x: -SCALE, y: 0, z: 0 });
}

#[test]
fn deformable_spring_weakens_past_its_limit() {
    // stiffness 1, rest 1, elastic limit 2, loss coefficient 0.25
    let mut s = DeformableSpring::new(1, SCALE, SCALE, 2 * SCALE, SCALE / 4);
    let b = Particle::new();
    let mut a = Particle::new();
    a.set_position(Vec3::from_values(4 * SCALE, 0, 0));
    let mut particles = vec![a, b];
    s.update_force(&mut particles, 0, SCALE / 60);
    // stretched to 4, two units past the limit: the constant drops by
    // 0.25 * 2 to 0.5 and the limit ratchets out to 4
    assert_eq!(s.spring_constant, SCALE / 2);
    assert_eq!(s.limit_of_elasticity, 4 * SCALE);
    // the force already uses the weakened constant: 0.5 * (4 - 1) == 1.5
    assert_eq!(
        particles[0].get_force_accum(),
        Vec3 { x: -(3 * SCALE / 2), y: 0, z: 0 }
    );
    // within the new limit nothing deforms further
    let before = (s.spring_constant, s.limit_of_elasticity);
    s.update_force(&mut particles, 0, SCALE / 60);
    assert_eq!((s.spring_constant, s.limit_of_elasticity), before);
}

#[test]
fn buoyancy_clamps_between_dry_and_fully_submerged() {
    // water plane at 0, object depth 1, density 2, volume 1
    let b = Buoyancy::new(SCALE, SCALE, 0, 2 * SCALE);
    // far above the water: no force
    let mut dry = Particle::new();
    dry.set_position(Vec3::from_values(0, 5 * SCALE, 0));
    b.update_force(&mut dry, SCALE / 60);
    assert_eq!(dry.get_force_accum(), Vec3 { x: 0, y: 0, z: 0 });
    // half submerged at y == 0.5: force = density * volume * 0.5
    let mut half = Particle::new();
    half.set_position(Vec3::from_values(0, SCALE / 2, 0));
    b.update_force(&mut half, SCALE / 60);
    assert_eq!(half.get_force_accum(), Vec3 { x: 0, y: SCALE, z: 0 });
    // deep under water the force saturates at density * volume * max depth
    let mut deep = Particle::new();
    deep.set_position(Vec3::from_values(0, -10 * SCALE, 0));
    b.update_force(&mut deep, SCALE / 60);
    assert_eq!(deep.get_force_accum(), Vec3 { x: 0, y: 2 * SCALE, z: 0 });
}

#[test]
fn air_buoyancy_fades_with_height() {
    // sea level 0, volume 1, density 1, losing 0.25 per unit of height
    let b = AirBuoyancy::new(0, SCALE, SCALE, SCALE / 4);
    let mut low = Particle::new();
    b.update_force(&mut low, SCALE / 60);
    assert_eq!(low.get_force_accum(), Vec3 { x: 0, y: SCALE, z: 0 });
    let mut mid = Particle::new();
    mid.set_position(Vec3::from_values(0, 2 * SCALE, 0));
    b.update_force(&mut mid, SCALE / 60);
    assert_eq!(mid.get_force_accum(), Vec3 { x: 0, y: SCALE / 2, z: 0 });
    // high above, the density bottoms out at zero
    let mut high = Particle::new();
    high.set_position(Vec3::from_values(0, 100 * SCALE, 0));
    b.update_force(&mut high, SCALE / 60);
    assert_eq!(high.get_force_accum(), Vec3 { x: 0, y: 0, z: 0 });
}

#[test]
fn registry_applies_every_registration_in_order() {
    let mut registry = ForceRegistry::new();
    let g = ForceGenerator::Gravity(Gravity::new(Vec3::from_values(0, -SCALE, 0)));
    registry.add(0, g);
    registry.add(0, g);
    registry.add(1, g);
    let mut particles = vec![Particle::new(), Particle::new()];
    registry.update_forces(&mut particles, SCALE / 60);
    assert_eq!(particles[0].get_force_accum(), Vec3 { x: 0, y: -2 * SCALE, z: 0 });
    assert_eq!(particles[1].get_force_accum(), Vec3 { x: 0, y: -SCALE, z: 0 });
}

#[test]
fn registry_remove_and_clear() {
    let mut registry = ForceRegistry::new();
    let g = ForceGenerator::Gravity(Gravity::new(Vec3::from_values(0, -SCALE, 0)));
    let d = ForceGenerator::Drag(Drag::new(SCALE / 2, 0));
    registry.add(0, g);
    registry.add(1, g);
    registry.add(0, d);
    assert_eq!(registry.get_registry().len(), 3);
    // removes every matching association, and only those
    registry.remove(0, g);
    assert_eq!(registry.get_registry().len(), 2);
    assert_eq!(registry.get_registry()[0].particle, 1);
    // removing an association that is not present changes nothing
    registry.remove(7, g);
    assert_eq!(registry.get_registry().len(), 2);
    registry.clear();
    assert_eq!(registry.get_registry().len(), 0);
}
