//! Force generators: given a particle and an elapsed duration, each adds a
//! force into the particle's accumulator according to its own law.

use vstd::prelude::*;

use crate::fixed::{
    bounded, fdiv, fmul, fx_div, fx_mul, iabs, isqrt, lemma_fmul_bound, lemma_fmul_le,
    lemma_isqrt_props, LIM, SCALE,
};
use crate::particle::Particle;
use crate::vector::{
    bounded3, bounded_vec, fits3, lemma_fmul_self_nonneg, mag, mag3, sqm, sqm3, vadd, vnorm3,
    vscale, vsub, vv, Vec3, V3,
};

verus! {

/// A magnitude computed from a bounded squared length is small.
pub proof fn lemma_mag_small(v: Vec3)
    requires
        bounded(sqm(v)),
    ensures
        0 <= mag(v) <= 0x4000_0000,
        0 <= sqm(v),
{
    lemma_fmul_self_nonneg(v.x as int);
    lemma_fmul_self_nonneg(v.y as int);
    lemma_fmul_self_nonneg(v.z as int);
    let s = sqm(v);
    lemma_isqrt_props(s * SCALE);
    let r = isqrt(s * SCALE);
    if r > 0x4000_0000 {
        assert(false) by (nonlinear_arith)
            requires
                r > 0x4000_0000,
                r * r <= s * SCALE,
                s <= LIM,
                SCALE == 1048576,
                LIM == 0x100_0000_0000,
        ;
    }
}

/// The restoring force of a spring stretched along `d`: of magnitude
/// `k * |len - rest|`, directed along `d` back toward the rest length.
pub open spec fn stretch_force(d: V3, k: int, rest: int) -> V3 {
    vscale(vnorm3(d), -fmul(k, mag3(d) - rest))
}

/// A constant gravitational field: adds the field times the particle's mass,
/// and leaves immovable particles alone.
#[derive(Clone, Copy, Debug, PartialEq, Eq, Structural)]
pub struct Gravity {
    pub gravity: Vec3,
}

/// The gravitational force on a particle: the field times the mass.
pub open spec fn gravity_force(g: Vec3, p: Particle) -> V3 {
    vscale(vv(g), fdiv(SCALE as int, p.inverse_mass as int))
}

impl Gravity {
    pub fn new(gravity: Vec3) -> (r: Gravity)
        ensures
            r.gravity == gravity,
    {
        Gravity { gravity }
    }

    pub fn update_force(&self, particle: &mut Particle, _duration: i64)
        requires
            old(particle).valid(),
            bounded_vec(self.gravity),
            old(particle).inverse_mass != 0 ==> fits3(
                vadd(vv(old(particle).force_accum), gravity_force(self.gravity, *old(particle))),
            ),
        ensures
            old(particle).inverse_mass == 0 ==> *final(particle) == *old(particle),
            old(particle).inverse_mass != 0 ==> *final(particle) == (Particle {
                force_accum: final(particle).force_accum,
                ..*old(particle)
            }) && vv(final(particle).force_accum) == vadd(
                vv(old(particle).force_accum),
                gravity_force(self.gravity, *old(particle)),
            ),
    {
        if particle.is_infinite_mass() {
            return ;
        }
        proof {
            vstd::arithmetic::div_mod::lemma_div_pos_is_pos(
                SCALE as int * SCALE,
                old(particle).inverse_mass as int,
            );
            vstd::arithmetic::div_mod::lemma_div_nonincreasing(
                SCALE as int * SCALE,
                old(particle).inverse_mass as int,
            );
        }
        let mass = particle.get_mass();
        particle.add_force(self.gravity.mul(mass));
    }
}

/// Linear-plus-quadratic drag: a force opposing the velocity, of magnitude
/// `k1 * |v| + k2 * |v|^2`.
#[derive(Clone, Copy, Debug, PartialEq, Eq, Structural)]
pub struct Drag {
    pub k1: i64,
    pub k2: i64,
}

/// The drag coefficient at a given velocity.
pub open spec fn drag_coefficient(d: Drag, vel: Vec3) -> int {
    fmul(d.k1 as int, mag(vel)) + fmul(d.k2 as int, fmul(mag(vel), mag(vel)))
}

/// The drag force: the unit velocity scaled by the negated coefficient.
pub open spec fn drag_force(d: Drag, vel: Vec3) -> V3 {
    vscale(vnorm3(vv(vel)), -drag_coefficient(d, vel))
}

impl Drag {
    pub fn new(k1: i64, k2: i64) -> (r: Drag)
        ensures
            r.k1 == k1,
            r.k2 == k2,
    {
        Drag { k1, k2 }
    }

    pub fn update_force(&self, particle: &mut Particle, _duration: i64)
        requires
            bounded(self.k1 as int),
            bounded(self.k2 as int),
            bounded_vec(old(particle).velocity),
            bounded(sqm(old(particle).velocity)),
            bounded(drag_coefficient(*self, old(particle).velocity)),
            fits3(
                vadd(
                    vv(old(particle).force_accum),
                    drag_force(*self, old(particle).velocity),
                ),
            ),
        ensures
            *final(particle) == (Particle {
                force_accum: final(particle).force_accum,
                ..*old(particle)
            }),
            vv(final(particle).force_accum) == vadd(
                vv(old(particle).force_accum),
                drag_force(*self, old(particle).velocity),
            ),
    {
        let mut force = particle.get_velocity();
        proof {
            lemma_mag_small(force);
            lemma_fmul_le(mag(force), mag(force), 0x4000_0000);
            lemma_fmul_bound(self.k1 as int, mag(force));
            lemma_fmul_bound(self.k2 as int, fmul(mag(force), mag(force)));
        }
        let m = force.magnitude();
        let m2 = fx_mul(m, m);
        let coeff = fx_mul(self.k1, m) + fx_mul(self.k2, m2);
        force.normalize();
        particle.add_force(force.mul(-coeff));
    }
}

/// A spring with one end anchored at a fixed point in space.
#[derive(Clone, Copy, Debug, PartialEq, Eq, Structural)]
pub struct AnchoredSpring {
    pub anchor: Vec3,
    pub spring_constant: i64,
    pub rest_length: i64,
}

impl AnchoredSpring {
    pub fn new(anchor: Vec3, spring_constant: i64, rest_length: i64) -> (r: AnchoredSpring)
        ensures
            r.anchor == anchor,
            r.spring_constant == spring_constant,
            r.rest_length == rest_length,
    {
        AnchoredSpring { anchor, spring_constant, rest_length }
    }

    pub fn update_force(&self, particle: &mut Particle, _duration: i64)
        requires
            bounded_vec(old(particle).position),
            bounded_vec(self.anchor),
            bounded3(vsub(vv(old(particle).position), vv(self.anchor))),
            bounded(sqm3(vsub(vv(old(particle).position), vv(self.anchor)))),
            0 <= self.rest_length <= LIM,
            bounded(self.spring_constant as int),
            bounded(
                fmul(
                    self.spring_constant as int,
                    mag3(vsub(vv(old(particle).position), vv(self.anchor))) - self.rest_length,
                ),
            ),
            fits3(
                vadd(
                    vv(old(particle).force_accum),
                    stretch_force(
                        vsub(vv(old(particle).position), vv(self.anchor)),
                        self.spring_constant as int,
                        self.rest_length as int,
                    ),
                ),
            ),
        ensures
            *final(particle) == (Particle {
                force_accum: final(particle).force_accum,
                ..*old(particle)
            }),
            vv(final(particle).force_accum) == vadd(
                vv(old(particle).force_accum),
                stretch_force(
                    vsub(vv(old(particle).position), vv(self.anchor)),
                    self.spring_constant as int,
                    self.rest_length as int,
                ),
            ),
    {
        let mut force = particle.get_position().sub(self.anchor);
        proof {
            lemma_mag_small(force);
        }
        let length = force.magnitude();
        let fm = fx_mul(self.spring_constant, length - self.rest_length);
        force.normalize();
        particle.add_force(force.mul(-fm));
    }
}

/// A spring between the updated particle and another particle of the arena.
#[derive(Clone, Copy, Debug, PartialEq, Eq, Structural)]
pub struct Spring {
    pub other: usize,
    pub spring_constant: i64,
    pub rest_length: i64,
}

/// The separation read by a spring-like generator: from the other particle's
/// position to the updated particle's.
pub open spec fn spring_sep(ps: Seq<Particle>, i: int, other: int) -> V3 {
    vsub(vv(ps[i].position), vv(ps[other].position))
}

/// The machine limits a spring-like generator needs.
pub open spec fn spring_geometry_fits(ps: Seq<Particle>, i: int, other: int) -> bool {
    &&& 0 <= i < ps.len()
    &&& 0 <= other < ps.len()
    &&& i != other
    &&& bounded_vec(ps[i].position)
    &&& bounded_vec(ps[other].position)
    &&& bounded3(spring_sep(ps, i, other))
    &&& bounded(sqm3(spring_sep(ps, i, other)))
}

impl Spring {
    pub fn new(other: usize, spring_constant: i64, rest_length: i64) -> (r: Spring)
        ensures
            r.other == other,
            r.spring_constant == spring_constant,
            r.rest_length == rest_length,
    {
        Spring { other, spring_constant, rest_length }
    }

    pub fn update_force(&self, particles: &mut Vec<Particle>, i: usize, _duration: i64)
        requires
            spring_geometry_fits(old(particles)@, i as int, self.other as int),
            0 <= self.rest_length <= LIM,
            bounded(self.spring_constant as int),
            bounded(
                fmul(
                    self.spring_constant as int,
                    mag3(spring_sep(old(particles)@, i as int, self.other as int))
                        - self.rest_length,
                ),
            ),
            fits3(
                vadd(
                    vv(old(particles)@[i as int].force_accum),
                    stretch_force(
                        spring_sep(old(particles)@, i as int, self.other as int),
                        self.spring_constant as int,
                        self.rest_length as int,
                    ),
                ),
            ),
        ensures
            final(particles)@ == old(particles)@.update(
                i as int,
                Particle {
                    force_accum: final(particles)@[i as int].force_accum,
                    ..old(particles)@[i as int]
                },
            ),
            vv(final(particles)@[i as int].force_accum) == vadd(
                vv(old(particles)@[i as int].force_accum),
                stretch_force(
                    spring_sep(old(particles)@, i as int, self.other as int),
                    self.spring_constant as int,
                    self.rest_length as int,
                ),
            ),
    {
        let mut force = particles[i].get_position().sub(particles[self.other].get_position());
        proof {
            lemma_mag_small(force);
        }
        let length = force.magnitude();
        let fm = fx_mul(self.spring_constant, length - self.rest_length);
        force.normalize();
        let mut p = particles[i];
        p.add_force(force.mul(-fm));
        particles[i] = p;
    }
}

/// A bungee cord between the updated particle and another particle: pulls
/// like a spring when stretched past its rest length, and goes slack — no
/// force at all — when shorter.
#[derive(Clone, Copy, Debug, PartialEq, Eq, Structural)]
pub struct Bangee {
    pub other: usize,
    pub spring_constant: i64,
    pub rest_length: i64,
}

impl Bangee {
    pub fn new(other: usize, spring_constant: i64, rest_length: i64) -> (r: Bangee)
        ensures
            r.other == other,
            r.spring_constant == spring_constant,
            r.rest_length == rest_length,
    {
        Bangee { other, spring_constant, rest_length }
    }

    pub fn update_force(&self, particles: &mut Vec<Particle>, i: usize, _duration: i64)
        requires
            spring_geometry_fits(old(particles)@, i as int, self.other as int),
            0 <= self.rest_length <= LIM,
            bounded(self.spring_constant as int),
            bounded(
                fmul(
                    self.spring_constant as int,
                    mag3(spring_sep(old(particles)@, i as int, self.other as int))
                        - self.rest_length,
                ),
            ),
            fits3(
                vadd(
                    vv(old(particles)@[i as int].force_accum),
                    stretch_force(
                        spring_sep(old(particles)@, i as int, self.other as int),
                        self.spring_constant as int,
                        self.rest_length as int,
                    ),
                ),
            ),
        ensures
            mag3(spring_sep(old(particles)@, i as int, self.other as int)) <= self.rest_length
                ==> final(particles)@ == old(particles)@,
            mag3(spring_sep(old(particles)@, i as int, self.other as int)) > self.rest_length
                ==> final(particles)@ == old(particles)@.update(
                i as int,
                Particle {
                    force_accum: final(particles)@[i as int].force_accum,
                    ..old(particles)@[i as int]
                },
            ) && vv(final(particles)@[i as int].force_accum) == vadd(
                vv(old(particles)@[i as int].force_accum),
                stretch_force(
                    spring_sep(old(particles)@, i as int, self.other as int),
                    self.spring_constant as int,
                    self.rest_length as int,
                ),
            ),
    {
        let mut force = particles[i].get_position().sub(particles[self.other].get_position());
        proof {
            lemma_mag_small(force);
        }
        let length = force.magnitude();
        if length <= self.rest_length {
            return ;
        }
        let fm = fx_mul(self.spring_constant, length - self.rest_length);
        force.normalize();
        let mut p = particles[i];
        p.add_force(force.mul(-fm));
        particles[i] = p;
    }
}

/// A spring that deforms plastically: once stretched past its elastic limit,
/// its spring constant is permanently reduced in proportion to how far the
/// limit was exceeded, and the limit moves out to the new stretched length.
#[derive(Clone, Copy, Debug, PartialEq, Eq, Structural)]
pub struct DeformableSpring {
    pub other: usize,
    pub spring_constant: i64,
    pub rest_length: i64,
    pub limit_of_elasticity: i64,
    pub elasticity_loss_coefficient: i64,
}

/// The spring constant after one update at stretched length `len`: reduced
/// by the loss coefficient times the excess over the elastic limit, never
/// below zero.
pub open spec fn ds_new_constant(s: DeformableSpring, len: int) -> int {
    if len > s.limit_of_elasticity {
        let red = fmul(s.elasticity_loss_coefficient as int, len - s.limit_of_elasticity);
        if red >= s.spring_constant {
            0int
        } else {
            s.spring_constant - red
        }
    } else {
        s.spring_constant as int
    }
}

/// The elastic limit after one update at stretched length `len`.
pub open spec fn ds_new_limit(s: DeformableSpring, len: int) -> int {
    if len > s.limit_of_elasticity {
        len
    } else {
        s.limit_of_elasticity as int
    }
}

impl DeformableSpring {
    pub fn new(
        other: usize,
        spring_constant: i64,
        rest_length: i64,
        limit_of_elasticity: i64,
        max_elasticity_loss_coefficient: i64,
    ) -> (r: DeformableSpring)
        ensures
            r.other == other,
            r.spring_constant == spring_constant,
            r.rest_length == rest_length,
            r.limit_of_elasticity == limit_of_elasticity,
            r.elasticity_loss_coefficient == max_elasticity_loss_coefficient,
    {
        DeformableSpring {
            other,
            spring_constant,
            rest_length,
            limit_of_elasticity,
            elasticity_loss_coefficient: max_elasticity_loss_coefficient,
        }
    }

    pub fn update_force(&mut self, particles: &mut Vec<Particle>, i: usize, _duration: i64)
        requires
            spring_geometry_fits(old(particles)@, i as int, old(self).other as int),
            0 <= old(self).rest_length <= LIM,
            0 <= old(self).spring_constant <= LIM,
            0 <= old(self).limit_of_elasticity <= LIM,
            0 <= old(self).elasticity_loss_coefficient <= LIM,
            ({
                let len = mag3(
                    spring_sep(old(particles)@, i as int, old(self).other as int),
                );
                &&& bounded(fmul(ds_new_constant(*old(self), len), len - old(self).rest_length))
                &&& fits3(
                    vadd(
                        vv(old(particles)@[i as int].force_accum),
                        stretch_force(
                            spring_sep(old(particles)@, i as int, old(self).other as int),
                            ds_new_constant(*old(self), len),
                            old(self).rest_length as int,
                        ),
                    ),
                )
            }),
        ensures
            ({
                let len = mag3(
                    spring_sep(old(particles)@, i as int, old(self).other as int),
                );
                &&& final(self).spring_constant == ds_new_constant(*old(self), len)
                &&& final(self).limit_of_elasticity == ds_new_limit(*old(self), len)
                &&& final(self).other == old(self).other
                &&& final(self).rest_length == old(self).rest_length
                &&& final(self).elasticity_loss_coefficient
                    == old(self).elasticity_loss_coefficient
                &&& 0 <= final(self).spring_constant <= LIM
                &&& (0 <= final(self).limit_of_elasticity <= 0x4000_0000
                    || final(self).limit_of_elasticity == old(self).limit_of_elasticity)
                &&& final(particles)@ == old(particles)@.update(
                    i as int,
                    Particle {
                        force_accum: final(particles)@[i as int].force_accum,
                        ..old(particles)@[i as int]
                    },
                )
                &&& vv(final(particles)@[i as int].force_accum) == vadd(
                    vv(old(particles)@[i as int].force_accum),
                    stretch_force(
                        spring_sep(old(particles)@, i as int, old(self).other as int),
                        ds_new_constant(*old(self), len),
                        old(self).rest_length as int,
                    ),
                )
            }),
    {
        let mut force = particles[i].get_position().sub(particles[self.other].get_position());
        proof {
            lemma_mag_small(force);
        }
        let length = force.magnitude();
        if length > self.limit_of_elasticity {
            proof {
                crate::fixed::lemma_fmul_nonneg(
                    self.elasticity_loss_coefficient as int,
                    length - self.limit_of_elasticity,
                );
                lemma_fmul_bound(
                    self.elasticity_loss_coefficient as int,
                    length - self.limit_of_elasticity,
                );
            }
            let reduction = fx_mul(
                self.elasticity_loss_coefficient,
                length - self.limit_of_elasticity,
            );
            if reduction >= self.spring_constant {
                self.spring_constant = 0;
            } else {
                self.spring_constant = self.spring_constant - reduction;
            }
            self.limit_of_elasticity = length;
        }
        let fm = fx_mul(self.spring_constant, length - self.rest_length);
        force.normalize();
        let mut p = particles[i];
        p.add_force(force.mul(-fm));
        particles[i] = p;
    }
}

/// Buoyancy against a horizontal water plane: an upward force proportional to
/// liquid density, object volume and submersion depth, zero when fully above
/// the water and saturated at the object's maximum depth when fully under.
#[derive(Clone, Copy, Debug, PartialEq, Eq, Structural)]
pub struct Buoyancy {
    pub max_depth: i64,
    pub object_volume: i64,
    pub water_height: i64,
    pub liquid_density: i64,
}

/// How far the object is submerged, before clamping.
pub open spec fn submersion_depth(b: Buoyancy, y: int) -> int {
    b.water_height + b.max_depth - y
}

/// The upward buoyancy force at height `y`.
pub open spec fn buoyancy_force_y(b: Buoyancy, y: int) -> int {
    let depth = submersion_depth(b, y);
    if depth <= 0 {
        0int
    } else {
        let clamped = if depth > b.max_depth {
            b.max_depth as int
        } else {
            depth
        };
        fmul(fmul(b.liquid_density as int, b.object_volume as int), clamped)
    }
}

impl Buoyancy {
    pub fn new(max_depth: i64, object_volume: i64, water_height: i64, liquid_density: i64) -> (r:
        Buoyancy)
        ensures
            r.max_depth == max_depth,
            r.object_volume == object_volume,
            r.water_height == water_height,
            r.liquid_density == liquid_density,
    {
        Buoyancy { max_depth, object_volume, water_height, liquid_density }
    }

    pub fn update_force(&self, particle: &mut Particle, _duration: i64)
        requires
            0 <= self.max_depth <= LIM,
            bounded(self.object_volume as int),
            bounded(self.liquid_density as int),
            bounded(self.water_height as int),
            bounded(old(particle).position.y as int),
            bounded(fmul(self.liquid_density as int, self.object_volume as int)),
            fits3(
                vadd(
                    vv(old(particle).force_accum),
                    V3 {
                        x: 0,
                        y: buoyancy_force_y(*self, old(particle).position.y as int),
                        z: 0,
                    },
                ),
            ),
        ensures
            submersion_depth(*self, old(particle).position.y as int) <= 0 ==> *final(particle)
                == *old(particle),
            submersion_depth(*self, old(particle).position.y as int) > 0 ==> *final(particle)
                == (Particle { force_accum: final(particle).force_accum, ..*old(particle) }) && vv(
                final(particle).force_accum,
            ) == vadd(
                vv(old(particle).force_accum),
                V3 { x: 0, y: buoyancy_force_y(*self, old(particle).position.y as int), z: 0 },
            ),
    {
        let y = particle.get_position().y;
        let mut depth = self.water_height + self.max_depth - y;
        if depth <= 0 {
            return ;
        }
        if depth > self.max_depth {
            depth = self.max_depth;
        }
        proof {
            lemma_fmul_bound(fmul(self.liquid_density as int, self.object_volume as int),
                depth as int);
        }
        let dv = fx_mul(self.liquid_density, self.object_volume);
        let force = fx_mul(dv, depth);
        particle.add_force(Vec3 { x: 0, y: force, z: 0 });
    }
}

/// Buoyancy in air whose density falls off linearly with height above sea
/// level: an upward force of the local density times the object volume, with
/// the density clamped between zero and its sea-level value.
#[derive(Clone, Copy, Debug, PartialEq, Eq, Structural)]
pub struct AirBuoyancy {
    pub sea_level_height: i64,
    pub object_volume: i64,
    pub sea_level_air_density: i64,
    pub density_loss_coefficient: i64,
}

/// The air density at height `y`: the sea-level density reduced by the loss
/// coefficient times the height above sea level, clamped to `[0, sea-level
/// density]`.
pub open spec fn air_density(b: AirBuoyancy, y: int) -> int {
    let d = b.sea_level_air_density - fmul(
        b.density_loss_coefficient as int,
        y - b.sea_level_height,
    );
    if d < 0 {
        0int
    } else if d > b.sea_level_air_density {
        b.sea_level_air_density as int
    } else {
        d
    }
}

/// The upward air-buoyancy force at height `y`.
pub open spec fn air_buoyancy_force_y(b: AirBuoyancy, y: int) -> int {
    fmul(air_density(b, y), b.object_volume as int)
}

impl AirBuoyancy {
    pub fn new(
        sea_level_height: i64,
        object_volume: i64,
        sea_level_air_density: i64,
        density_loss_coefficient: i64,
    ) -> (r: AirBuoyancy)
        ensures
            r.sea_level_height == sea_level_height,
            r.object_volume == object_volume,
            r.sea_level_air_density == sea_level_air_density,
            r.density_loss_coefficient == density_loss_coefficient,
    {
        AirBuoyancy {
            sea_level_height,
            object_volume,
            sea_level_air_density,
            density_loss_coefficient,
        }
    }

    pub fn update_force(&self, particle: &mut Particle, _duration: i64)
        requires
            0 <= self.sea_level_air_density <= LIM,
            bounded(self.object_volume as int),
            bounded(self.density_loss_coefficient as int),
            bounded(old(particle).position.y as int - self.sea_level_height),
            fits3(
                vadd(
                    vv(old(particle).force_accum),
                    V3 {
                        x: 0,
                        y: air_buoyancy_force_y(*self, old(particle).position.y as int),
                        z: 0,
                    },
                ),
            ),
        ensures
            *final(particle) == (Particle {
                force_accum: final(particle).force_accum,
                ..*old(particle)
            }),
            vv(final(particle).force_accum) == vadd(
                vv(old(particle).force_accum),
                V3 { x: 0, y: air_buoyancy_force_y(*self, old(particle).position.y as int), z: 0 },
            ),
    {
        let y = particle.get_position().y;
        proof {
            lemma_fmul_bound(self.density_loss_coefficient as int,
                y as int - self.sea_level_height);
        }
        let falloff = fx_mul(self.density_loss_coefficient, y - self.sea_level_height);
        let mut density = self.sea_level_air_density - falloff;
        if density < 0 {
            density = 0;
        } else if density > self.sea_level_air_density {
            density = self.sea_level_air_density;
        }
        proof {
            lemma_fmul_bound(air_density(*self, y as int), self.object_volume as int);
        }
        let force = fx_mul(density, self.object_volume);
        particle.add_force(Vec3 { x: 0, y: force, z: 0 });
    }
}

} // verus!
