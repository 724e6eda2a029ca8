//! Fireworks: short-lived particles spawned by rules, each rule giving age
//! and velocity ranges, a damping, and the payloads to spawn when it dies.

use vstd::prelude::*;

use crate::fixed::{fits64, fmul, fx_mul, SCALE};
use crate::particle::Particle;
use crate::random::{random_in_range, random_vector};
use crate::vector::{bounded_vec, Vec3};
use crate::SimError;

verus! {

/// Standard gravity as a fixed-point acceleration: 9.81 units per second
/// squared, straight down.
pub fn gravity() -> (g: Vec3)
    ensures
        g == (Vec3 { x: 0, y: -10286530i64, z: 0 }),
{
    Vec3 { x: 0, y: -10286530, z: 0 }
}

/// What a dying firework spawns: a count of fireworks of another type.
#[derive(Clone, Copy, Debug, PartialEq, Eq, Structural)]
pub struct Payload {
    pub firework_type: i32,
    pub count: u32,
}

impl Payload {
    pub fn new(firework_type: i32, count: u32) -> (r: Payload)
        ensures
            r.firework_type == firework_type,
            r.count == count,
    {
        Payload { firework_type, count }
    }
}

/// One live firework: a particle with a type and a remaining age.
#[derive(Clone, Copy, Debug, PartialEq, Eq, Structural)]
pub struct Firework {
    pub particle: Particle,
    pub firework_type: i32,
    pub age: i64,
}

impl Firework {
    /// A fresh, dead firework of no type, ready for a rule to arm it.
    pub fn new() -> (f: Firework)
        ensures
            f.firework_type == 0,
            f.age == 0,
            f.particle.position == (Vec3 { x: 0, y: 0, z: 0 }),
            f.particle.velocity == (Vec3 { x: 0, y: 0, z: 0 }),
            f.particle.acceleration == (Vec3 { x: 0, y: 0, z: 0 }),
            f.particle.force_accum == (Vec3 { x: 0, y: 0, z: 0 }),
            f.particle.damping == crate::particle::DEFAULT_DAMPING,
            f.particle.inverse_mass == SCALE,
            f.particle.valid(),
    {
        Firework { particle: Particle::new(), firework_type: 0, age: 0 }
    }

    /// Advances the firework by one step and burns `duration` off its age.
    pub fn update(&mut self, duration: i64) -> (r: Result<(), SimError>)
        requires
            old(self).particle.valid(),
            old(self).particle.integrate_fits(duration as int),
            fits64(old(self).age - duration),
        ensures
            r is Err <==> duration < 0,
            duration < 0 ==> *final(self) == *old(self) && r == Err::<(), SimError>(
                SimError::InvalidMassOrTimestep,
            ),
            duration >= 0 ==> final(self).particle == old(self).particle.spec_integrated(
                duration as int,
            ) && final(self).age == old(self).age - duration && final(self).firework_type == old(self).firework_type,
    {
        match self.particle.integrate(duration) {
            Ok(()) => {},
            Err(e) => {
                return Err(e);
            },
        }
        self.age = self.age - duration;
        Ok(())
    }

    /// Whether the firework still burns: it has age left, or is still above
    /// the ground.
    pub fn is_alive(&self) -> (r: bool)
        ensures
            r <==> self.age > 0 || self.particle.position.y > 0,
    {
        self.age > 0 || self.particle.position.y > 0
    }
}

/// A firework type's behaviour: age and initial-velocity ranges, damping, and
/// what it spawns when it dies.
pub struct FireworkRule {
    pub firework_type: i32,
    pub min_age: i64,
    pub max_age: i64,
    pub min_velocity: Vec3,
    pub max_velocity: Vec3,
    pub damping: i64,
    pub payload_count: u32,
    pub payloads: Vec<Payload>,
}

impl FireworkRule {
    pub fn new(
        firework_type: i32,
        min_age: i64,
        max_age: i64,
        min_velocity: Vec3,
        max_velocity: Vec3,
        damping: i64,
        payload_count: u32,
        payloads: Vec<Payload>,
    ) -> (r: FireworkRule)
        ensures
            r.firework_type == firework_type,
            r.min_age == min_age,
            r.max_age == max_age,
            r.min_velocity == min_velocity,
            r.max_velocity == max_velocity,
            r.damping == damping,
            r.payload_count == payload_count,
            r.payloads == payloads,
    {
        FireworkRule {
            firework_type,
            min_age,
            max_age,
            min_velocity,
            max_velocity,
            damping,
            payload_count,
            payloads,
        }
    }

    /// A random age drawn from the rule's range.
    fn generate_age(&self) -> (r: i64)
        requires
            self.min_age < self.max_age,
        ensures
            self.min_age <= r < self.max_age,
    {
        random_in_range(self.min_age, self.max_age)
    }

    /// Arms a firework according to the rule: its type and a random age from
    /// the rule's range; the parent's position and velocity when it has a
    /// parent, else a random launch spot on the x axis; a random velocity
    /// from the rule's box on top; unit mass, the rule's damping, gravity
    /// added to its acceleration, and an empty accumulator. What randomness
    /// decides is pinned down only to its range.
    pub fn create(&self, firework: &mut Firework, parent: Option<&Firework>)
        requires
            self.min_age < self.max_age,
            0 < self.damping <= SCALE,
            self.min_velocity.x < self.max_velocity.x,
            self.min_velocity.y < self.max_velocity.y,
            self.min_velocity.z < self.max_velocity.z,
            bounded_vec(self.min_velocity),
            bounded_vec(self.max_velocity),
            fits64(old(firework).particle.acceleration.x as int),
            fits64(old(firework).particle.acceleration.y as int - 10286530),
            fits64(old(firework).particle.acceleration.z as int),
            match parent {
                Some(p) => bounded_vec(p.particle.velocity),
                None => true,
            },
        ensures
            final(firework).firework_type == self.firework_type,
            self.min_age <= final(firework).age < self.max_age,
            final(firework).particle.inverse_mass == SCALE,
            final(firework).particle.damping == self.damping,
            final(firework).particle.force_accum == (Vec3 { x: 0i64, y: 0i64, z: 0i64 }),
            final(firework).particle.acceleration.x == old(firework).particle.acceleration.x,
            final(firework).particle.acceleration.y == old(firework).particle.acceleration.y
                - 10286530,
            final(firework).particle.acceleration.z == old(firework).particle.acceleration.z,
            final(firework).particle.valid(),
            match parent {
                Some(p) => {
                    &&& final(firework).particle.position == p.particle.position
                    &&& p.particle.velocity.x + self.min_velocity.x <= final(firework).particle.velocity.x < p.particle.velocity.x + self.max_velocity.x
                    &&& p.particle.velocity.y + self.min_velocity.y <= final(firework).particle.velocity.y < p.particle.velocity.y + self.max_velocity.y
                    &&& p.particle.velocity.z + self.min_velocity.z <= final(firework).particle.velocity.z < p.particle.velocity.z + self.max_velocity.z
                },
                None => {
                    &&& -5 * SCALE <= final(firework).particle.position.x <= 15 * SCALE
                    &&& final(firework).particle.position.y == 0
                    &&& final(firework).particle.position.z == 0
                    &&& self.min_velocity.x <= final(firework).particle.velocity.x
                        < self.max_velocity.x
                    &&& self.min_velocity.y <= final(firework).particle.velocity.y
                        < self.max_velocity.y
                    &&& self.min_velocity.z <= final(firework).particle.velocity.z
                        < self.max_velocity.z
                },
            },
    {
        firework.firework_type = self.firework_type;
        firework.age = self.generate_age();
        let mut velocity = Vec3::new();
        match parent {
            Some(p) => {
                firework.particle.set_position(p.particle.get_position());
                velocity = p.particle.get_velocity();
            },
            None => {
                let x = random_in_range(-SCALE, 3 * SCALE);
                proof {
                    crate::fixed::lemma_fmul_le2(5 * SCALE as int, x as int, 5 * SCALE as int,
                        3 * SCALE as int);
                    lemma_five_scale_range(x as int);
                }
                let start = Vec3::from_values(fx_mul(5 * SCALE, x), 0, 0);
                firework.particle.set_position(start);
            },
        }
        let rv = random_vector(self.min_velocity, self.max_velocity);
        velocity = velocity.add(rv);
        firework.particle.set_velocity(velocity);
        let set_mass_result = firework.particle.set_mass(SCALE);
        proof {
            vstd::arithmetic::div_mod::lemma_div_by_multiple(SCALE as int, SCALE as int);
            assert(set_mass_result is Ok);
        }
        firework.particle.set_damping(self.damping);
        firework.particle.add_acceleration(gravity());
        firework.particle.clear_accumulator();
    }
}

/// Five units scaled by a launch factor within one to three units stays
/// within five to fifteen units.
proof fn lemma_five_scale_range(x: int)
    requires
        -SCALE <= x < 3 * SCALE,
    ensures
        -5 * SCALE <= fmul(5 * (SCALE as int), x) <= 15 * SCALE,
{
    assert(5 * (SCALE as int) * x >= 5 * (SCALE as int) * -(SCALE as int) && 5 * (SCALE as int) * x
        <= 5 * (SCALE as int) * (3 * (SCALE as int))) by (nonlinear_arith)
        requires
            -SCALE <= x < 3 * SCALE,
            SCALE == 1048576,
    ;
    crate::fixed::lemma_descale_monotone(5 * (SCALE as int) * -(SCALE as int),
        5 * (SCALE as int) * x);
    crate::fixed::lemma_descale_monotone(5 * (SCALE as int) * x,
        5 * (SCALE as int) * (3 * (SCALE as int)));
    crate::fixed::lemma_descale_scale(-5 * (SCALE as int));
    crate::fixed::lemma_descale_scale(15 * (SCALE as int));
    assert(5 * (SCALE as int) * -(SCALE as int) == (-5 * (SCALE as int)) * (SCALE as int))
        by (nonlinear_arith);
    assert(5 * (SCALE as int) * (3 * (SCALE as int)) == (15 * (SCALE as int)) * (SCALE as int))
        by (nonlinear_arith);
}

/// The demo's rule table and bookkeeping for spawning fireworks.
pub struct FireworksDemo {
    pub title: &'static str,
    pub max_fireworks: u32,
    pub next_firework: u32,
    pub rule_count: u32,
    pub rules: Vec<FireworkRule>,
}

impl FireworksDemo {
    /// A fresh demo with an empty rule table.
    pub fn new() -> (d: FireworksDemo)
        ensures
            d.max_fireworks == 1024,
            d.next_firework == 0,
            d.rule_count == 9,
            d.rules@.len() == 0,
    {
        FireworksDemo {
            title: "Cyclone > Fireworks demo",
            max_fireworks: 1024,
            next_firework: 0,
            rule_count: 9,
            rules: Vec::new(),
        }
    }

    pub fn get_title(&self) -> (r: &'static str)
        ensures
            r == self.title,
    {
        self.title
    }

    /// Fills the rule table with the nine firework types.
    pub fn init_rules(&mut self)
        ensures
            final(self).rules@.len() == 9,
            final(self).rules@[0].firework_type == 1,
            final(self).rules@[0].min_age == 524288,
            final(self).rules@[0].max_age == 1468006,
            final(self).rules@[0].min_velocity == (Vec3 { x: -5242880i64, y: 26214400i64, z: -5242880i64 }),
            final(self).rules@[0].max_velocity == (Vec3 { x: 5242880i64, y: 29360128i64, z: 5242880i64 }),
            final(self).rules@[0].damping == 104857,
            final(self).rules@[0].payload_count == 2,
            final(self).rules@[0].payloads@ == seq![Payload { firework_type: 3, count: 5 }, Payload { firework_type: 5, count: 5 }],
            final(self).rules@[1].firework_type == 2,
            final(self).rules@[1].min_age == 524288,
            final(self).rules@[1].max_age == 1048576,
            final(self).rules@[1].min_velocity == (Vec3 { x: -5242880i64, y: 10485760i64, z: -5242880i64 }),
            final(self).rules@[1].max_velocity == (Vec3 { x: 5242880i64, y: 20971520i64, z: 5242880i64 }),
            final(self).rules@[1].damping == 838860,
            final(self).rules@[1].payload_count == 1,
            final(self).rules@[1].payloads@ == seq![Payload { firework_type: 4, count: 2 }],
            final(self).rules@[2].firework_type == 3,
            final(self).rules@[2].min_age == 524288,
            final(self).rules@[2].max_age == 1572864,
            final(self).rules@[2].min_velocity == (Vec3 { x: -5242880i64, y: -5242880i64, z: -5242880i64 }),
            final(self).rules@[2].max_velocity == (Vec3 { x: 5242880i64, y: 5242880i64, z: 5242880i64 }),
            final(self).rules@[2].damping == 838860,
            final(self).rules@[2].payload_count == 0,
            final(self).rules@[2].payloads@ == Seq::<Payload>::empty(),
            final(self).rules@[3].firework_type == 4,
            final(self).rules@[3].min_age == 262144,
            final(self).rules@[3].max_age == 524288,
            final(self).rules@[3].min_velocity == (Vec3 { x: -20971520i64, y: 5242880i64, z: -5242880i64 }),
            final(self).rules@[3].max_velocity == (Vec3 { x: 20971520i64, y: 5242880i64, z: 5242880i64 }),
            final(self).rules@[3].damping == 209715,
            final(self).rules@[3].payload_count == 0,
            final(self).rules@[3].payloads@ == Seq::<Payload>::empty(),
            final(self).rules@[4].firework_type == 5,
            final(self).rules@[4].min_age == 524288,
            final(self).rules@[4].max_age == 1048576,
            final(self).rules@[4].min_velocity == (Vec3 { x: -20971520i64, y: 2097152i64, z: -5242880i64 }),
            final(self).rules@[4].max_velocity == (Vec3 { x: 20971520i64, y: 18874368i64, z: 5242880i64 }),
            final(self).rules@[4].damping == 10485,
            final(self).rules@[4].payload_count == 1,
            final(self).rules@[4].payloads@ == seq![Payload { firework_type: 3, count: 5 }],
            final(self).rules@[5].firework_type == 6,
            final(self).rules@[5].min_age == 3145728,
            final(self).rules@[5].max_age == 5242880,
            final(self).rules@[5].min_velocity == (Vec3 { x: -5242880i64, y: 52428800i64, z: -5242880i64 }),
            final(self).rules@[5].max_velocity == (Vec3 { x: 5242880i64, y: 62914560i64, z: 5242880i64 }),
            final(self).rules@[5].damping == 996147,
            final(self).rules@[5].payload_count == 0,
            final(self).rules@[5].payloads@ == Seq::<Payload>::empty(),
            final(self).rules@[6].firework_type == 7,
            final(self).rules@[6].min_age == 4194304,
            final(self).rules@[6].max_age == 5242880,
            final(self).rules@[6].min_velocity == (Vec3 { x: -5242880i64, y: 52428800i64, z: -5242880i64 }),
            final(self).rules@[6].max_velocity == (Vec3 { x: 5242880i64, y: 62914560i64, z: 5242880i64 }),
            final(self).rules@[6].damping == 10485,
            final(self).rules@[6].payload_count == 1,
            final(self).rules@[6].payloads@ == seq![Payload { firework_type: 8, count: 10 }],
            final(self).rules@[7].firework_type == 8,
            final(self).rules@[7].min_age == 262144,
            final(self).rules@[7].max_age == 524288,
            final(self).rules@[7].min_velocity == (Vec3 { x: -1048576i64, y: -1048576i64, z: -1048576i64 }),
            final(self).rules@[7].max_velocity == (Vec3 { x: 1048576i64, y: 1048576i64, z: 1048576i64 }),
            final(self).rules@[7].damping == 10485,
            final(self).rules@[7].payload_count == 0,
            final(self).rules@[7].payloads@ == Seq::<Payload>::empty(),
            final(self).rules@[8].firework_type == 9,
            final(self).rules@[8].min_age == 3145728,
            final(self).rules@[8].max_age == 5242880,
            final(self).rules@[8].min_velocity == (Vec3 { x: -15728640i64, y: 10485760i64, z: -5242880i64 }),
            final(self).rules@[8].max_velocity == (Vec3 { x: 15728640i64, y: 15728640i64, z: 5242880i64 }),
            final(self).rules@[8].damping == 996147,
            final(self).rules@[8].payload_count == 0,
            final(self).rules@[8].payloads@ == Seq::<Payload>::empty(),
            *final(self) == (FireworksDemo { rules: final(self).rules, ..*old(self) }),
    {
        let mut rules: Vec<FireworkRule> = Vec::new();
        let payloads: Vec<Payload> = vec![Payload::new(3, 5), Payload::new(5, 5)];
        rules.push(
            FireworkRule::new(
                1,
                524288,
                1468006,
                Vec3::from_values(-5242880, 26214400, -5242880),
                Vec3::from_values(5242880, 29360128, 5242880),
                104857,
                2,
                payloads,
            ),
        );
        let payloads: Vec<Payload> = vec![Payload::new(4, 2)];
        rules.push(
            FireworkRule::new(
                2,
                524288,
                1048576,
                Vec3::from_values(-5242880, 10485760, -5242880),
                Vec3::from_values(5242880, 20971520, 5242880),
                838860,
                1,
                payloads,
            ),
        );
        let payloads: Vec<Payload> = Vec::new();
        rules.push(
            FireworkRule::new(
                3,
                524288,
                1572864,
                Vec3::from_values(-5242880, -5242880, -5242880),
                Vec3::from_values(5242880, 5242880, 5242880),
                838860,
                0,
                payloads,
            ),
        );
        let payloads: Vec<Payload> = Vec::new();
        rules.push(
            FireworkRule::new(
                4,
                262144,
                524288,
                Vec3::from_values(-20971520, 5242880, -5242880),
                Vec3::from_values(20971520, 5242880, 5242880),
                209715,
                0,
                payloads,
            ),
        );
        let payloads: Vec<Payload> = vec![Payload::new(3, 5)];
        rules.push(
            FireworkRule::new(
                5,
                524288,
                1048576,
                Vec3::from_values(-20971520, 2097152, -5242880),
                Vec3::from_values(20971520, 18874368, 5242880),
                10485,
                1,
                payloads,
            ),
        );
        let payloads: Vec<Payload> = Vec::new();
        rules.push(
            FireworkRule::new(
                6,
                3145728,
                5242880,
                Vec3::from_values(-5242880, 52428800, -5242880),
                Vec3::from_values(5242880, 62914560, 5242880),
                996147,
                0,
                payloads,
            ),
        );
        let payloads: Vec<Payload> = vec![Payload::new(8, 10)];
        rules.push(
            FireworkRule::new(
                7,
                4194304,
                5242880,
                Vec3::from_values(-5242880, 52428800, -5242880),
                Vec3::from_values(5242880, 62914560, 5242880),
                10485,
                1,
                payloads,
            ),
        );
        let payloads: Vec<Payload> = Vec::new();
        rules.push(
            FireworkRule::new(
                8,
                262144,
                524288,
                Vec3::from_values(-1048576, -1048576, -1048576),
                Vec3::from_values(1048576, 1048576, 1048576),
                10485,
                0,
                payloads,
            ),
        );
        let payloads: Vec<Payload> = Vec::new();
        rules.push(
            FireworkRule::new(
                9,
                3145728,
                5242880,
                Vec3::from_values(-15728640, 10485760, -5242880),
                Vec3::from_values(15728640, 15728640, 5242880),
                996147,
                0,
                payloads,
            ),
        );
        self.rules = rules;
    }
}

} // verus!
