//! Timing bookkeeping, random draws, and the fireworks rules.

use cyclone::firework::{gravity, Firework, FireworkRule, FireworksDemo, Payload};
use cyclone::fixed::SCALE;
use cyclone::random::{random_in_range, random_vector};
use cyclone::timing::TimingData;
use cyclone::vector::Vec3;

#[test]
fn timing_tracks_frame_durations_exactly() {
    let mut t = TimingData::new(1000);
    assert_eq!(t.get_last_frame_duration(), 0);
    t.update(1016);
    assert_eq!(t.get_last_frame_duration(), 16);
    t.update(1049);
    assert_eq!(t.get_last_frame_duration(), 33);
    assert_eq!(t.get_from_start(1100), 100);
}

#[test]
fn random_draws_stay_in_their_ranges() {
    for _ in 0..50 {
        let x = random_in_range(-3, 7);
        assert!(-3 <= x && x < 7);
    }
    let min = Vec3::from_values(-SCALE, 0, 5);
    let max = Vec3::from_values(SCALE, 1, 6);
    for _ in 0..20 {
        let v = random_vector(min, max);
        assert!(min.x <= v.x && v.x < max.x);
        assert!(min.y <= v.y && v.y < max.y);
        assert!(min.z <= v.z && v.z < max.z);
    }
}

#[test]
fn payloads_and_rules_hold_their_parameters() {
    let p = Payload::new(3, 5);
    assert_eq!(p.firework_type, 3);
    assert_eq!(p.count, 5);
    let rule = FireworkRule::new(
        2,
        SCALE / 2,
        SCALE,
        Vec3::from_values(-SCALE, 0, 0),
        Vec3::from_values(SCALE, SCALE, SCALE),
        SCALE / 2,
        1,
        vec![Payload::new(4, 2)],
    );
    assert_eq!(rule.firework_type, 2);
    assert_eq!(rule.payloads.len(), 1);
}

#[test]
fn firework_update_burns_age_and_integrates() {
    let mut f = Firework::new();
    f.age = SCALE;
    f.particle.set_velocity(Vec3::from_values(SCALE, 0, 0));
    f.particle.set_damping(SCALE);
    assert!(f.update(SCALE / 2).is_ok());
    assert_eq!(f.age, SCALE / 2);
    assert_eq!(f.particle.get_position(), Vec3 { x: SCALE / 2, y: 0, z: 0 });
    assert!(f.is_alive());
    assert!(f.update(SCALE / 2).is_ok());
    assert_eq!(f.age, 0);
    assert!(!f.is_alive());
}

#[test]
fn a_rule_arms_a_firework_within_its_ranges() {
    let rule = FireworkRule::new(
        3,
        SCALE / 2,
        2 * SCALE,
        Vec3::from_values(-SCALE, 2 * SCALE, -SCALE),
        Vec3::from_values(SCALE, 4 * SCALE, SCALE),
        SCALE / 2,
        0,
        Vec::new(),
    );
    let mut f = Firework::new();
    rule.create(&mut f, None);
    assert_eq!(f.firework_type, 3);
    assert!(rule.min_age <= f.age && f.age < rule.max_age);
    assert!(-5 * SCALE <= f.particle.get_position().x);
    assert!(f.particle.get_position().x <= 15 * SCALE);
    assert_eq!(f.particle.get_position().y, 0);
    let v = f.particle.get_velocity();
    assert!(rule.min_velocity.x <= v.x && v.x < rule.max_velocity.x);
    assert!(rule.min_velocity.y <= v.y && v.y < rule.max_velocity.y);
    assert!(rule.min_velocity.z <= v.z && v.z < rule.max_velocity.z);
    assert_eq!(f.particle.get_inverse_mass(), SCALE);
    assert_eq!(f.particle.get_damping(), SCALE / 2);
    assert_eq!(f.particle.get_force_accum(), Vec3 { x: 0, y: 0, z: 0 });
    assert_eq!(f.particle.get_acceleration(), gravity());

    // a child inherits its parent's position and velocity base
    let mut parent = Firework::new();
    parent.particle.set_position(Vec3::from_values(7 * SCALE, 8 * SCALE, 0));
    parent.particle.set_velocity(Vec3::from_values(SCALE, 0, 0));
    let mut child = Firework::new();
    rule.create(&mut child, Some(&parent));
    assert_eq!(child.particle.get_position(), Vec3 { x: 7 * SCALE, y: 8 * SCALE, z: 0 });
    let cv = child.particle.get_velocity();
    assert!(SCALE + rule.min_velocity.x <= cv.x && cv.x < SCALE + rule.max_velocity.x);
}

#[test]
fn the_demo_fills_its_rule_table() {
    let mut demo = FireworksDemo::new();
    assert_eq!(demo.get_title(), "Cyclone > Fireworks demo");
    assert_eq!(demo.max_fireworks, 1024);
    assert_eq!(demo.rule_count, 9);
    demo.init_rules();
    assert_eq!(demo.rules.len(), 9);
    assert_eq!(demo.rules[0].firework_type, 1);
    assert_eq!(demo.rules[0].min_age, SCALE / 2);
    assert_eq!(demo.rules[0].max_age, 1468006);
    assert_eq!(demo.rules[0].min_velocity, Vec3 { x: -5 * SCALE, y: 25 * SCALE, z: -5 * SCALE });
    assert_eq!(demo.rules[0].max_velocity, Vec3 { x: 5 * SCALE, y: 28 * SCALE, z: 5 * SCALE });
    assert_eq!(demo.rules[0].damping, 104857);
    assert_eq!(demo.rules[0].payload_count, 2);
    assert_eq!(demo.rules[0].payloads, vec![Payload::new(3, 5), Payload::new(5, 5)]);
    assert_eq!(demo.rules[4].firework_type, 5);
    assert_eq!(demo.rules[4].damping, 10485);
    assert_eq!(demo.rules[4].payloads, vec![Payload::new(3, 5)]);
    assert_eq!(demo.rules[8].firework_type, 9);
    assert_eq!(demo.rules[8].min_age, 3 * SCALE);
    assert_eq!(demo.rules[8].max_age, 5 * SCALE);
    assert_eq!(demo.rules[8].payload_count, 0);
    assert_eq!(demo.rules[8].payloads, Vec::<Payload>::new());
}
