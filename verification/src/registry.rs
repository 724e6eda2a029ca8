//! The force registry: (particle, generator) associations, applied once per
//! step in registration order.

use vstd::prelude::*;

use crate::contact::all_valid;
use crate::forcegen::{
    air_buoyancy_force_y, buoyancy_force_y, drag_coefficient, drag_force, ds_new_constant,
    ds_new_limit, gravity_force, spring_geometry_fits, spring_sep, stretch_force,
    submersion_depth, AirBuoyancy, AnchoredSpring, Bangee, Buoyancy, DeformableSpring, Drag,
    Gravity, Spring,
};
use crate::fixed::{bounded, fmul, LIM};
use crate::particle::Particle;
use crate::vector::{bounded3, bounded_vec, fits3, mag3, sqm, sqm3, vadd, vsub, vv, Vec3, V3};

verus! {

/// Any of the force generators, so that one registry can hold them all.
#[derive(Clone, Copy, Debug, PartialEq, Eq, Structural)]
pub enum ForceGenerator {
    Gravity(Gravity),
    Drag(Drag),
    AnchoredSpring(AnchoredSpring),
    Spring(Spring),
    Bangee(Bangee),
    DeformableSpring(DeformableSpring),
    Buoyancy(Buoyancy),
    AirBuoyancy(AirBuoyancy),
}

/// The particle with its force accumulator replaced by the given value.
pub open spec fn with_accum(p: Particle, a: V3) -> Particle {
    Particle { force_accum: Vec3 { x: a.x as i64, y: a.y as i64, z: a.z as i64 }, ..p }
}

/// What one generator application leaves behind: the (possibly deformed)
/// generator and the arena with the force added to the target particle.
pub open spec fn gen_applied(g: ForceGenerator, ps: Seq<Particle>, i: int, dt: int) -> (
    ForceGenerator,
    Seq<Particle>,
) {
    let p = ps[i];
    match g {
        ForceGenerator::Gravity(gr) => {
            if p.inverse_mass == 0 {
                (g, ps)
            } else {
                (
                    g,
                    ps.update(
                        i,
                        with_accum(p, vadd(vv(p.force_accum), gravity_force(gr.gravity, p))),
                    ),
                )
            }
        },
        ForceGenerator::Drag(d) => (
            g,
            ps.update(i, with_accum(p, vadd(vv(p.force_accum), drag_force(d, p.velocity)))),
        ),
        ForceGenerator::AnchoredSpring(s) => (
            g,
            ps.update(
                i,
                with_accum(
                    p,
                    vadd(
                        vv(p.force_accum),
                        stretch_force(
                            vsub(vv(p.position), vv(s.anchor)),
                            s.spring_constant as int,
                            s.rest_length as int,
                        ),
                    ),
                ),
            ),
        ),
        ForceGenerator::Spring(s) => (
            g,
            ps.update(
                i,
                with_accum(
                    p,
                    vadd(
                        vv(p.force_accum),
                        stretch_force(
                            spring_sep(ps, i, s.other as int),
                            s.spring_constant as int,
                            s.rest_length as int,
                        ),
                    ),
                ),
            ),
        ),
        ForceGenerator::Bangee(s) => {
            if mag3(spring_sep(ps, i, s.other as int)) <= s.rest_length {
                (g, ps)
            } else {
                (
                    g,
                    ps.update(
                        i,
                        with_accum(
                            p,
                            vadd(
                                vv(p.force_accum),
                                stretch_force(
                                    spring_sep(ps, i, s.other as int),
                                    s.spring_constant as int,
                                    s.rest_length as int,
                                ),
                            ),
                        ),
                    ),
                )
            }
        },
        ForceGenerator::DeformableSpring(s) => {
            let len = mag3(spring_sep(ps, i, s.other as int));
            (
                ForceGenerator::DeformableSpring(
                    DeformableSpring {
                        spring_constant: ds_new_constant(s, len) as i64,
                        limit_of_elasticity: ds_new_limit(s, len) as i64,
                        ..s
                    },
                ),
                ps.update(
                    i,
                    with_accum(
                        p,
                        vadd(
                            vv(p.force_accum),
                            stretch_force(
                                spring_sep(ps, i, s.other as int),
                                ds_new_constant(s, len),
                                s.rest_length as int,
                            ),
                        ),
                    ),
                ),
            )
        },
        ForceGenerator::Buoyancy(b) => {
            if submersion_depth(b, p.position.y as int) <= 0 {
                (g, ps)
            } else {
                (
                    g,
                    ps.update(
                        i,
                        with_accum(
                            p,
                            vadd(
                                vv(p.force_accum),
                                V3 { x: 0, y: buoyancy_force_y(b, p.position.y as int), z: 0 },
                            ),
                        ),
                    ),
                )
            }
        },
        ForceGenerator::AirBuoyancy(b) => (
            g,
            ps.update(
                i,
                with_accum(
                    p,
                    vadd(
                        vv(p.force_accum),
                        V3 { x: 0, y: air_buoyancy_force_y(b, p.position.y as int), z: 0 },
                    ),
                ),
            ),
        ),
    }
}

/// The machine limits one generator application needs.
pub open spec fn gen_fits(g: ForceGenerator, ps: Seq<Particle>, i: int, dt: int) -> bool {
    &&& 0 <= i < ps.len()
    &&& match g {
        ForceGenerator::Gravity(gr) => {
            let p = ps[i];
            &&& p.valid()
            &&& bounded_vec(gr.gravity)
            &&& (p.inverse_mass != 0 ==> fits3(
                vadd(vv(p.force_accum), gravity_force(gr.gravity, p)),
            ))
        },
        ForceGenerator::Drag(d) => {
            let p = ps[i];
            &&& bounded(d.k1 as int)
            &&& bounded(d.k2 as int)
            &&& bounded_vec(p.velocity)
            &&& bounded(sqm(p.velocity))
            &&& bounded(drag_coefficient(d, p.velocity))
            &&& fits3(vadd(vv(p.force_accum), drag_force(d, p.velocity)))
        },
        ForceGenerator::AnchoredSpring(s) => {
            let p = ps[i];
            let d = vsub(vv(p.position), vv(s.anchor));
            &&& bounded_vec(p.position)
            &&& bounded_vec(s.anchor)
            &&& bounded3(d)
            &&& bounded(sqm3(d))
            &&& 0 <= s.rest_length <= LIM
            &&& bounded(s.spring_constant as int)
            &&& bounded(fmul(s.spring_constant as int, mag3(d) - s.rest_length))
            &&& fits3(
                vadd(
                    vv(p.force_accum),
                    stretch_force(d, s.spring_constant as int, s.rest_length as int),
                ),
            )
        },
        ForceGenerator::Spring(s) => {
            let d = spring_sep(ps, i, s.other as int);
            &&& spring_geometry_fits(ps, i, s.other as int)
            &&& 0 <= s.rest_length <= LIM
            &&& bounded(s.spring_constant as int)
            &&& bounded(fmul(s.spring_constant as int, mag3(d) - s.rest_length))
            &&& fits3(
                vadd(
                    vv(ps[i].force_accum),
                    stretch_force(d, s.spring_constant as int, s.rest_length as int),
                ),
            )
        },
        ForceGenerator::Bangee(s) => {
            let d = spring_sep(ps, i, s.other as int);
            &&& spring_geometry_fits(ps, i, s.other as int)
            &&& 0 <= s.rest_length <= LIM
            &&& bounded(s.spring_constant as int)
            &&& bounded(fmul(s.spring_constant as int, mag3(d) - s.rest_length))
            &&& fits3(
                vadd(
                    vv(ps[i].force_accum),
                    stretch_force(d, s.spring_constant as int, s.rest_length as int),
                ),
            )
        },
        ForceGenerator::DeformableSpring(s) => {
            let len = mag3(spring_sep(ps, i, s.other as int));
            &&& spring_geometry_fits(ps, i, s.other as int)
            &&& 0 <= s.rest_length <= LIM
            &&& 0 <= s.spring_constant <= LIM
            &&& 0 <= s.limit_of_elasticity <= LIM
            &&& 0 <= s.elasticity_loss_coefficient <= LIM
            &&& bounded(fmul(ds_new_constant(s, len), len - s.rest_length))
            &&& fits3(
                vadd(
                    vv(ps[i].force_accum),
                    stretch_force(
                        spring_sep(ps, i, s.other as int),
                        ds_new_constant(s, len),
                        s.rest_length as int,
                    ),
                ),
            )
        },
        ForceGenerator::Buoyancy(b) => {
            let p = ps[i];
            &&& 0 <= b.max_depth <= LIM
            &&& bounded(b.object_volume as int)
            &&& bounded(b.liquid_density as int)
            &&& bounded(b.water_height as int)
            &&& bounded(p.position.y as int)
            &&& bounded(fmul(b.liquid_density as int, b.object_volume as int))
            &&& fits3(
                vadd(
                    vv(p.force_accum),
                    V3 { x: 0, y: buoyancy_force_y(b, p.position.y as int), z: 0 },
                ),
            )
        },
        ForceGenerator::AirBuoyancy(b) => {
            let p = ps[i];
            &&& 0 <= b.sea_level_air_density <= LIM
            &&& bounded(b.object_volume as int)
            &&& bounded(b.density_loss_coefficient as int)
            &&& bounded(p.position.y as int - b.sea_level_height)
            &&& fits3(
                vadd(
                    vv(p.force_accum),
                    V3 { x: 0, y: air_buoyancy_force_y(b, p.position.y as int), z: 0 },
                ),
            )
        },
    }
}

impl ForceGenerator {
    /// Applies the generator to particle `i` of the arena: adds its force
    /// into the accumulator, deforming the generator itself where its law
    /// says so.
    pub fn update_force(&mut self, particles: &mut Vec<Particle>, i: usize, duration: i64)
        requires
            gen_fits(*old(self), old(particles)@, i as int, duration as int),
        ensures
            (*final(self), final(particles)@) == gen_applied(
                *old(self),
                old(particles)@,
                i as int,
                duration as int,
            ),
            final(particles)@.len() == old(particles)@.len(),
            forall|j: int|
                0 <= j < old(particles)@.len() ==> (#[trigger] final(particles)@[j]).damping
                    == old(particles)@[j].damping && final(particles)@[j].inverse_mass == old(
                    particles,
                )@[j].inverse_mass,
    {
        match *self {
            ForceGenerator::Gravity(g) => {
                let mut p = particles[i];
                g.update_force(&mut p, duration);
                particles[i] = p;
                proof {
                    if old(particles)@[i as int].inverse_mass == 0 {
                        assert(final(particles)@ =~= old(particles)@);
                    }
                }
            },
            ForceGenerator::Drag(d) => {
                let mut p = particles[i];
                d.update_force(&mut p, duration);
                particles[i] = p;
            },
            ForceGenerator::AnchoredSpring(s) => {
                let mut p = particles[i];
                s.update_force(&mut p, duration);
                particles[i] = p;
            },
            ForceGenerator::Spring(s) => {
                s.update_force(particles, i, duration);
            },
            ForceGenerator::Bangee(s) => {
                s.update_force(particles, i, duration);
            },
            ForceGenerator::DeformableSpring(s) => {
                let mut ds = s;
                ds.update_force(particles, i, duration);
                *self = ForceGenerator::DeformableSpring(ds);
            },
            ForceGenerator::Buoyancy(b) => {
                let mut p = particles[i];
                b.update_force(&mut p, duration);
                particles[i] = p;
                proof {
                    if submersion_depth(b, old(particles)@[i as int].position.y as int) <= 0 {
                        assert(final(particles)@ =~= old(particles)@);
                    }
                }
            },
            ForceGenerator::AirBuoyancy(b) => {
                let mut p = particles[i];
                b.update_force(&mut p, duration);
                particles[i] = p;
            },
        }
    }
}

/// One association of a particle with a force generator.
#[derive(Clone, Copy, Debug, PartialEq, Eq, Structural)]
pub struct ForceRegistration {
    pub particle: usize,
    pub force_generator: ForceGenerator,
}

/// The registrations and arena after the first `k` registrations have been
/// applied, in registration order.
pub open spec fn regs_applied(
    regs: Seq<ForceRegistration>,
    ps: Seq<Particle>,
    dt: int,
    k: nat,
) -> (Seq<ForceRegistration>, Seq<Particle>)
    decreases k,
{
    if k == 0 {
        (regs, ps)
    } else {
        let prev = regs_applied(regs, ps, dt, (k - 1) as nat);
        let r = prev.0[k - 1];
        let applied = gen_applied(r.force_generator, prev.1, r.particle as int, dt);
        (
            prev.0.update(
                k - 1,
                ForceRegistration { particle: r.particle, force_generator: applied.0 },
            ),
            applied.1,
        )
    }
}

/// The machine limits applying the registrations from index `j` on needs.
pub open spec fn regs_fits(
    regs: Seq<ForceRegistration>,
    ps: Seq<Particle>,
    dt: int,
    j: nat,
) -> bool
    decreases regs.len() - j,
{
    j >= regs.len() || {
        let r = regs[j as int];
        &&& gen_fits(r.force_generator, ps, r.particle as int, dt)
        &&& regs_fits(
            regs,
            gen_applied(r.force_generator, ps, r.particle as int, dt).1,
            dt,
            (j + 1) as nat,
        )
    }
}

/// The set of (particle, generator) associations that drives the force phase
/// of each step.
pub struct ForceRegistry {
    pub registrations: Vec<ForceRegistration>,
}

impl ForceRegistry {
    /// An empty registry.
    pub fn new() -> (r: ForceRegistry)
        ensures
            r.registrations@ == Seq::<ForceRegistration>::empty(),
    {
        ForceRegistry { registrations: Vec::new() }
    }

    /// The current registrations, in registration order.
    pub fn get_registry(&self) -> (r: &Vec<ForceRegistration>)
        ensures
            r == &self.registrations,
    {
        &self.registrations
    }

    /// Registers a generator against a particle.
    pub fn add(&mut self, particle: usize, force_generator: ForceGenerator)
        ensures
            final(self).registrations@ == old(self).registrations@.push(
                ForceRegistration { particle, force_generator },
            ),
    {
        self.registrations.push(ForceRegistration { particle, force_generator });
    }

    /// Unregisters every association of exactly this particle with exactly
    /// this generator; removing an association that is not present changes
    /// nothing.
    pub fn remove(&mut self, particle: usize, force_generator: ForceGenerator)
        ensures
            final(self).registrations@ == old(self).registrations@.filter(
                (|r: ForceRegistration|
                    !(r.particle == particle && r.force_generator == force_generator)),
            ),
    {
        let ghost pred = (|r: ForceRegistration|
            !(r.particle == particle && r.force_generator == force_generator));
        let mut kept: Vec<ForceRegistration> = Vec::new();
        let mut k: usize = 0;
        proof {
            assert(self.registrations@.take(0) =~= Seq::<ForceRegistration>::empty());
            assert(Seq::<ForceRegistration>::empty().filter(pred) =~= Seq::<
                ForceRegistration,
            >::empty()) by {
                reveal(Seq::filter);
            }
        }
        while k < self.registrations.len()
            invariant
                k <= self.registrations@.len(),
                pred == (|r: ForceRegistration|
                    !(r.particle == particle && r.force_generator == force_generator)),
                kept@ == self.registrations@.take(k as int).filter(pred),
            decreases self.registrations@.len() - k,
        {
            let r = self.registrations[k];
            proof {
                let pre = self.registrations@.take(k as int);
                let now = self.registrations@.take(k + 1 as int);
                assert(now.drop_last() =~= pre);
                assert(now.last() == r);
                reveal(Seq::filter);
                assert(now.filter(pred) == if pred(r) {
                    pre.filter(pred).push(r)
                } else {
                    pre.filter(pred)
                });
            }
            if !(r.particle == particle && r.force_generator == force_generator) {
                kept.push(r);
            }
            k = k + 1;
        }
        proof {
            assert(self.registrations@.take(self.registrations@.len() as int)
                =~= self.registrations@);
        }
        self.registrations = kept;
    }

    /// Empties the registry.
    pub fn clear(&mut self)
        ensures
            final(self).registrations@ == Seq::<ForceRegistration>::empty(),
    {
        self.registrations = Vec::new();
    }

    /// Applies every registered generator to its particle exactly once, in
    /// registration order.
    pub fn update_forces(&mut self, particles: &mut Vec<Particle>, duration: i64)
        requires
            regs_fits(old(self).registrations@, old(particles)@, duration as int, 0nat),
        ensures
            (final(self).registrations@, final(particles)@) == regs_applied(
                old(self).registrations@,
                old(particles)@,
                duration as int,
                old(self).registrations@.len(),
            ),
            final(particles)@.len() == old(particles)@.len(),
            final(self).registrations@.len() == old(self).registrations@.len(),
            forall|j: int|
                0 <= j < old(particles)@.len() ==> (#[trigger] final(particles)@[j]).damping
                    == old(particles)@[j].damping && final(particles)@[j].inverse_mass == old(
                    particles,
                )@[j].inverse_mass,
    {
        let ghost regs0 = self.registrations@;
        let ghost ps0 = particles@;
        let ghost dt = duration as int;
        let mut k: usize = 0;
        while k < self.registrations.len()
            invariant
                k <= self.registrations@.len(),
                regs0 == old(self).registrations@,
                ps0 == old(particles)@,
                dt == duration as int,
                (self.registrations@, particles@) == regs_applied(regs0, ps0, dt, k as nat),
                self.registrations@.len() == regs0.len(),
                particles@.len() == ps0.len(),
                regs_fits(regs0, particles@, dt, k as nat),
                forall|j: int|
                    0 <= j < ps0.len() ==> (#[trigger] particles@[j]).damping == ps0[j].damping
                        && particles@[j].inverse_mass == ps0[j].inverse_mass,
            decreases self.registrations@.len() - k,
        {
            let reg = self.registrations[k];
            let mut g = reg.force_generator;
            proof {
                lemma_regs_applied_keeps_tail(regs0, ps0, dt, k as nat);
            }
            g.update_force(particles, reg.particle, duration);
            self.registrations.set(
                k,
                ForceRegistration { particle: reg.particle, force_generator: g },
            );
            k = k + 1;
        }
    }
}

/// Applying a prefix of the registrations leaves the registrations from the
/// prefix's end onward untouched.
pub proof fn lemma_regs_applied_keeps_tail(
    regs: Seq<ForceRegistration>,
    ps: Seq<Particle>,
    dt: int,
    k: nat,
)
    requires
        k <= regs.len(),
    ensures
        regs_applied(regs, ps, dt, k).0.len() == regs.len(),
        forall|j: int|
            k <= j < regs.len() ==> regs_applied(regs, ps, dt, k).0[j] == regs[j],
    decreases k,
{
    if k > 0 {
        lemma_regs_applied_keeps_tail(regs, ps, dt, (k - 1) as nat);
    }
}

} // verus!
