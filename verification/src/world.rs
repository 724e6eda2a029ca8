//! The world: one owned arena of particles together with its force registry,
//! link constraints and contact resolver, advanced one fixed step at a time:
//! apply forces, integrate, gather contacts from the links, resolve.

use vstd::prelude::*;

use crate::contact::{all_valid, Contact};
use crate::fixed::{LIM, SCALE};
use crate::links::{cable_contact, link_wf, rod_contact, Cable, Rod};
use crate::particle::Particle;
use crate::registry::{regs_applied, regs_fits, ForceRegistry};
use crate::resolver::{resolver_fits, resolver_iter, ContactResolver};
use crate::SimError;

verus! {

/// A link constraint of the world: a cable or a rod.
#[derive(Clone, Copy, Debug)]
pub enum Link {
    Cable(Cable),
    Rod(Rod),
}

/// The contact a link yields at the current geometry, if any.
pub open spec fn link_contact(l: Link, ps: Seq<Particle>) -> Option<Contact> {
    match l {
        Link::Cable(c) => cable_contact(c, ps),
        Link::Rod(r) => rod_contact(r, ps),
    }
}

/// The machine limits one link's contact generation needs.
pub open spec fn link_fits(l: Link, ps: Seq<Particle>) -> bool {
    match l {
        Link::Cable(c) => link_wf(ps, c.particles.0 as int, c.particles.1 as int) && 0
            <= c.max_length <= LIM && 0 <= c.restitution <= SCALE,
        Link::Rod(r) => link_wf(ps, r.particles.0 as int, r.particles.1 as int) && 0 <= r.length
            <= LIM,
    }
}

impl Link {
    /// The contact that restores the link's constraint, if it is violated.
    pub fn add_contact(&self, particles: &Vec<Particle>) -> (r: Option<Contact>)
        requires
            link_fits(*self, particles@),
        ensures
            r == link_contact(*self, particles@),
            match r {
                None => true,
                Some(c) => crate::contact::contact_wf(c, particles@.len()),
            },
    {
        match self {
            Link::Cable(c) => c.add_contact(particles),
            Link::Rod(r) => r.add_contact(particles),
        }
    }
}

/// Every particle of the arena advanced by one integration step.
pub open spec fn all_integrated(ps: Seq<Particle>, dt: int) -> Seq<Particle> {
    ps.map_values(|p: Particle| p.spec_integrated(dt))
}

/// The contacts the links from index `j` on yield, with `count` contacts
/// already gathered: gathering stops as soon as the batch reaches
/// `max` contacts.
pub open spec fn gathered(
    links: Seq<Link>,
    ps: Seq<Particle>,
    j: int,
    count: nat,
    max: nat,
) -> Seq<Contact>
    decreases links.len() - j,
{
    if j < 0 || j >= links.len() {
        Seq::empty()
    } else {
        match link_contact(links[j], ps) {
            None => gathered(links, ps, j + 1, count, max),
            Some(c) => {
                if count + 1 == max {
                    seq![c]
                } else {
                    seq![c] + gathered(links, ps, j + 1, count + 1, max)
                }
            },
        }
    }
}

/// The simulated world.
pub struct World {
    pub particles: Vec<Particle>,
    pub force_registry: ForceRegistry,
    pub contact_resolver: ContactResolver,
    pub links: Vec<Link>,
    pub max_contacts: usize,
    pub calculate_iterations: bool,
}

impl World {
    /// The arena after the force phase of a step.
    pub open spec fn after_forces(self, dt: int) -> Seq<Particle> {
        regs_applied(
            self.force_registry.registrations@,
            self.particles@,
            dt,
            self.force_registry.registrations@.len(),
        ).1
    }

    /// The registrations after the force phase of a step.
    pub open spec fn regs_after_forces(self, dt: int) -> Seq<crate::registry::ForceRegistration> {
        regs_applied(
            self.force_registry.registrations@,
            self.particles@,
            dt,
            self.force_registry.registrations@.len(),
        ).0
    }

    /// The arena after the integration phase of a step.
    pub open spec fn after_integration(self, dt: int) -> Seq<Particle> {
        all_integrated(self.after_forces(dt), dt)
    }

    /// The contacts this step's links yield.
    pub open spec fn step_contacts(self, dt: int) -> Seq<Contact> {
        gathered(self.links@, self.after_integration(dt), 0, 0, self.max_contacts as nat)
    }

    /// The resolver budget this step runs with: twice the contact count when
    /// the world computes its budgets, else the resolver's configured count.
    pub open spec fn step_iterations(self, dt: int) -> nat {
        if self.calculate_iterations {
            (2 * self.step_contacts(dt).len()) as nat
        } else {
            self.contact_resolver.iterations as nat
        }
    }

    /// The machine limits one whole step needs, phase by phase.
    pub open spec fn world_fits(self, dt: int) -> bool {
        let ps1 = self.after_forces(dt);
        let ps2 = self.after_integration(dt);
        let cs = self.step_contacts(dt);
        &&& regs_fits(self.force_registry.registrations@, self.particles@, dt, 0nat)
        &&& forall|j: int| 0 <= j < ps1.len() ==> (#[trigger] ps1[j]).integrate_fits(dt)
        &&& forall|j: int| 0 <= j < self.links@.len() ==> link_fits(#[trigger] self.links@[j], ps2)
        &&& 2 * cs.len() <= u32::MAX
        &&& resolver_fits(ps2, cs, dt, self.step_iterations(dt))
    }

    /// Advances the world by one step: apply every registered force, integrate
    /// every particle, gather the contacts the links yield (up to
    /// `max_contacts`), size the resolver budget when asked to, and resolve.
    /// A negative duration is rejected untouched; an unresolvable contact
    /// stops the step after the work already done.
    #[verifier::rlimit(100)]
    pub fn run_physics(&mut self, duration: i64) -> (r: Result<(), SimError>)
        requires
            old(self).world_fits(duration as int),
            all_valid(old(self).particles@),
        ensures
            r is Err <==> duration < 0 || resolver_iter(
                old(self).after_integration(duration as int),
                old(self).step_contacts(duration as int),
                duration as int,
                old(self).step_iterations(duration as int),
            ) is Err,
            duration < 0 ==> *final(self) == *old(self) && r == Err::<(), SimError>(
                SimError::InvalidMassOrTimestep,
            ),
            duration >= 0 ==> {
                &&& final(self).force_registry.registrations@ == old(self).regs_after_forces(
                    duration as int,
                )
                &&& final(self).links@ == old(self).links@
                &&& final(self).max_contacts == old(self).max_contacts
                &&& final(self).calculate_iterations == old(self).calculate_iterations
                &&& final(self).contact_resolver.iterations as nat == old(self).step_iterations(
                    duration as int,
                )
                &&& (r is Ok ==> Ok::<Seq<Particle>, ()>(final(self).particles@) == resolver_iter(
                    old(self).after_integration(duration as int),
                    old(self).step_contacts(duration as int),
                    duration as int,
                    old(self).step_iterations(duration as int),
                ))
                &&& (r is Err ==> r == Err::<(), SimError>(SimError::UnresolvableContact))
                &&& all_valid(final(self).particles@)
            },
    {
        if duration < 0 {
            return Err(SimError::InvalidMassOrTimestep);
        }
        let ghost dt = duration as int;
        let ghost w0 = *self;
        self.force_registry.update_forces(&mut self.particles, duration);
        let ghost ps1 = self.particles@;
        proof {
            assert(ps1 == w0.after_forces(dt));
            assert forall|j: int| 0 <= j < ps1.len() implies (#[trigger] ps1[j]).valid() by {
                assert(w0.particles@[j].valid());
            }
        }
        let mut idx: usize = 0;
        while idx < self.particles.len()
            invariant
                idx <= self.particles@.len(),
                self.particles@.len() == ps1.len(),
                duration as int == dt,
                duration >= 0,
                w0 == *old(self),
                ps1 == w0.after_forces(dt),
                self.links@ == w0.links@,
                self.max_contacts == w0.max_contacts,
                self.calculate_iterations == w0.calculate_iterations,
                self.contact_resolver == w0.contact_resolver,
                self.force_registry.registrations@ == w0.regs_after_forces(dt),
                forall|j: int|
                    0 <= j < idx ==> self.particles@[j] == (#[trigger] ps1[j]).spec_integrated(dt),
                forall|j: int| idx <= j < ps1.len() ==> self.particles@[j] == ps1[j],
                forall|j: int| 0 <= j < ps1.len() ==> (#[trigger] ps1[j]).valid(),
                forall|j: int| 0 <= j < ps1.len() ==> (#[trigger] ps1[j]).integrate_fits(dt),
                forall|j: int| 0 <= j < idx ==> (#[trigger] self.particles@[j]).valid(),
            decreases self.particles@.len() - idx,
        {
            let mut p = self.particles[idx];
            proof {
                assert(self.particles@[idx as int] == ps1[idx as int]);
                assert(ps1[idx as int].valid());
                assert(ps1[idx as int].integrate_fits(dt));
            }
            match p.integrate(duration) {
                Ok(()) => {},
                Err(e) => {
                    proof {
                        assert(false);
                    }
                    return Err(e);
                },
            }
            self.particles[idx] = p;
            idx = idx + 1;
        }
        proof {
            assert(self.particles@ =~= all_integrated(ps1, dt));
            assert(all_valid(self.particles@));
        }
        let ghost ps2 = self.particles@;
        let ghost cs_all = gathered(self.links@, ps2, 0, 0nat, self.max_contacts as nat);
        proof {
            assert(ps2 == w0.after_integration(dt));
            assert(self.links@ == w0.links@);
            assert(cs_all == w0.step_contacts(dt));
            assert forall|k: int|
                0 <= k < self.links@.len() implies link_fits(#[trigger] self.links@[k], ps2) by {
                assert(link_fits(w0.links@[k], w0.after_integration(dt)));
            }
        }
        let mut contacts: Vec<Contact> = Vec::new();
        let mut full = false;
        let mut j: usize = 0;
        proof {
            assert(contacts@ + gathered(self.links@, ps2, 0, contacts@.len() as nat,
                self.max_contacts as nat) =~= cs_all);
        }
        while j < self.links.len() && !full
            invariant
                j <= self.links@.len(),
                self.particles@ == ps2,
                contacts@.len() <= j,
                duration as int == dt,
                duration >= 0,
                w0 == *old(self),
                self.links@ == w0.links@,
                self.max_contacts == w0.max_contacts,
                self.calculate_iterations == w0.calculate_iterations,
                self.contact_resolver == w0.contact_resolver,
                self.force_registry.registrations@ == w0.regs_after_forces(dt),
                ps2 == w0.after_integration(dt),
                cs_all == w0.step_contacts(dt),
                all_valid(ps2),
                cs_all == gathered(self.links@, ps2, 0, 0nat, self.max_contacts as nat),
                forall|k: int|
                    0 <= k < self.links@.len() ==> link_fits(#[trigger] self.links@[k], ps2),
                !full ==> contacts@ + gathered(
                    self.links@,
                    ps2,
                    j as int,
                    contacts@.len() as nat,
                    self.max_contacts as nat,
                ) == cs_all,
                !full && self.max_contacts > 0 ==> contacts@.len() < self.max_contacts,
                full ==> contacts@ == cs_all,
            decreases self.links@.len() - j,
        {
            let c_opt = self.links[j].add_contact(&self.particles);
            let ghost pre = contacts@;
            match c_opt {
                Some(c) => {
                    contacts.push(c);
                    if contacts.len() == self.max_contacts {
                        full = true;
                    }
                    proof {
                        if pre.len() + 1 == self.max_contacts as nat {
                            assert(gathered(self.links@, ps2, j as int, pre.len() as nat,
                                self.max_contacts as nat) =~= seq![c]);
                            assert(contacts@ =~= pre + seq![c]);
                            assert(contacts@ =~= cs_all);
                        } else {
                            assert(gathered(self.links@, ps2, j as int, pre.len() as nat,
                                self.max_contacts as nat) == seq![c] + gathered(self.links@, ps2,
                                j + 1, (pre.len() + 1) as nat, self.max_contacts as nat));
                            assert(contacts@ + gathered(self.links@, ps2, j + 1,
                                contacts@.len() as nat, self.max_contacts as nat) =~= cs_all);
                        }
                    }
                },
                None => {
                    proof {
                        assert(gathered(self.links@, ps2, j as int, pre.len() as nat,
                            self.max_contacts as nat) == gathered(self.links@, ps2, j + 1,
                            pre.len() as nat, self.max_contacts as nat));
                    }
                },
            }
            j = j + 1;
        }
        proof {
            if !full {
                assert(gathered(self.links@, ps2, j as int, contacts@.len() as nat,
                    self.max_contacts as nat) =~= Seq::<Contact>::empty());
                assert(contacts@ =~= cs_all);
            }
            assert(contacts@ == w0.step_contacts(dt));
        }
        if self.calculate_iterations {
            let n = 2 * contacts.len();
            self.contact_resolver.set_iterations(n as u32);
        }
        proof {
            assert(self.contact_resolver.iterations as nat == w0.step_iterations(dt));
        }
        self.contact_resolver.resolve_contacts(&mut self.particles, &contacts, duration)
    }
}

} // verus!
