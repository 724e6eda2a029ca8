//! The contact resolver: a greedy, priority-ordered impulse solver. Each
//! iteration picks the worst contact — the one with the lowest separating
//! velocity — resolves exactly that one, and repeats with fresh velocities.

use vstd::prelude::*;

use crate::contact::{
    all_valid, contact_resolved, contact_wf, resolve_fits, sep_fits, sep_velocity,
    total_inverse_mass, Contact,
};
use crate::particle::Particle;
use crate::SimError;

verus! {

/// The index of the worst contact among the first `i` (the lowest separating
/// velocity in the given arena; the earliest wins a tie).
pub open spec fn argmin_upto(ps: Seq<Particle>, cs: Seq<Contact>, i: int) -> int
    decreases i,
{
    if i <= 1 {
        0
    } else {
        let p = argmin_upto(ps, cs, i - 1);
        if sep_velocity(ps, cs[i - 1]) < sep_velocity(ps, cs[p]) {
            i - 1
        } else {
            p
        }
    }
}

/// The worst contact is an index into the batch.
pub proof fn lemma_argmin_in_range(ps: Seq<Particle>, cs: Seq<Contact>, i: int)
    requires
        1 <= i <= cs.len(),
    ensures
        0 <= argmin_upto(ps, cs, i) < i,
    decreases i,
{
    if i > 1 {
        lemma_argmin_in_range(ps, cs, i - 1);
    }
}

/// One resolver iteration: resolve the worst contact of the batch, or report
/// failure if that contact joins two immovable particles. An empty batch
/// leaves the arena as it is.
pub open spec fn resolver_step(ps: Seq<Particle>, cs: Seq<Contact>, dt: int) -> Result<
    Seq<Particle>,
    (),
> {
    if cs.len() == 0 {
        Ok(ps)
    } else {
        let c = cs[argmin_upto(ps, cs, cs.len() as int)];
        if total_inverse_mass(ps, c) == 0 {
            Err(())
        } else {
            Ok(contact_resolved(ps, c, dt))
        }
    }
}

/// `n` resolver iterations from the given arena.
pub open spec fn resolver_iter(ps: Seq<Particle>, cs: Seq<Contact>, dt: int, n: nat) -> Result<
    Seq<Particle>,
    (),
>
    decreases n,
{
    if n == 0 {
        Ok(ps)
    } else {
        match resolver_step(ps, cs, dt) {
            Ok(ps2) => resolver_iter(ps2, cs, dt, (n - 1) as nat),
            Err(e) => Err(e),
        }
    }
}

/// Running one more iteration appends a step to the end of the run.
pub proof fn lemma_resolver_iter_snoc(ps: Seq<Particle>, cs: Seq<Contact>, dt: int, n: nat)
    ensures
        resolver_iter(ps, cs, dt, (n + 1) as nat) == match resolver_iter(ps, cs, dt, n) {
            Ok(q) => resolver_step(q, cs, dt),
            Err(e) => Err(e),
        },
    decreases n,
{
    if n == 0 {
        match resolver_step(ps, cs, dt) {
            Ok(q) => {
                assert(resolver_iter(ps, cs, dt, 1) == Ok::<Seq<Particle>, ()>(q));
            },
            Err(e) => {
                assert(resolver_iter(ps, cs, dt, 1) == Err::<Seq<Particle>, ()>(e));
            },
        }
    } else {
        match resolver_step(ps, cs, dt) {
            Ok(q) => {
                lemma_resolver_iter_snoc(q, cs, dt, (n - 1) as nat);
                assert(resolver_iter(ps, cs, dt, (n + 1) as nat) == resolver_iter(q, cs, dt, n));
            },
            Err(e) => {
                assert(resolver_iter(ps, cs, dt, (n + 1) as nat) == Err::<Seq<Particle>, ()>(e));
            },
        }
    }
}

/// Once a run fails it stays failed however many iterations follow.
pub proof fn lemma_resolver_iter_err_persists(
    ps: Seq<Particle>,
    cs: Seq<Contact>,
    dt: int,
    m: nat,
    n: nat,
)
    requires
        m <= n,
        resolver_iter(ps, cs, dt, m) is Err,
    ensures
        resolver_iter(ps, cs, dt, n) is Err,
    decreases n - m,
{
    if m < n {
        lemma_resolver_iter_snoc(ps, cs, dt, (n - 1) as nat);
        lemma_resolver_iter_err_persists(ps, cs, dt, m, (n - 1) as nat);
    }
}

/// A resolver run over an empty batch changes nothing and cannot fail,
/// whatever its iteration budget.
pub proof fn lemma_resolver_no_contacts(ps: Seq<Particle>, dt: int, n: nat)
    ensures
        resolver_iter(ps, Seq::<Contact>::empty(), dt, n) == Ok::<Seq<Particle>, ()>(ps),
    decreases n,
{
    if n > 0 {
        lemma_resolver_no_contacts(ps, dt, (n - 1) as nat);
    }
}

/// A resolver run whose worst contact joins two immovable particles fails,
/// for any positive iteration budget: it is never silently skipped.
pub proof fn lemma_resolver_infinite_mass_err(
    ps: Seq<Particle>,
    cs: Seq<Contact>,
    dt: int,
    n: nat,
)
    requires
        n >= 1,
        cs.len() > 0,
        total_inverse_mass(ps, cs[argmin_upto(ps, cs, cs.len() as int)]) == 0,
    ensures
        resolver_iter(ps, cs, dt, n) is Err,
{
    assert(resolver_iter(ps, cs, dt, 1) is Err);
    lemma_resolver_iter_err_persists(ps, cs, dt, 1, n);
}

/// The machine limits one scan of the batch needs: every contact refers into
/// the arena and its separating velocity is computable.
pub open spec fn scan_fits(ps: Seq<Particle>, cs: Seq<Contact>) -> bool {
    forall|k: int|
        0 <= k < cs.len() ==> contact_wf(#[trigger] cs[k], ps.len()) && sep_fits(ps, cs[k])
}

/// The machine limits `n` resolver iterations need: at every reachable
/// intermediate arena the batch can be scanned and the worst contact
/// resolved within the fixed-point range.
pub open spec fn resolver_fits(ps: Seq<Particle>, cs: Seq<Contact>, dt: int, n: nat) -> bool
    decreases n,
{
    n == 0 || {
        &&& scan_fits(ps, cs)
        &&& cs.len() > 0 ==> {
            let c = cs[argmin_upto(ps, cs, cs.len() as int)];
            &&& resolve_fits(ps, c, dt)
            &&& (total_inverse_mass(ps, c) != 0 ==> resolver_fits(
                contact_resolved(ps, c, dt),
                cs,
                dt,
                (n - 1) as nat,
            ))
        }
        &&& cs.len() == 0 ==> resolver_fits(ps, cs, dt, (n - 1) as nat)
    }
}

/// The iterative contact resolver, with its iteration budgets.
pub struct ContactResolver {
    /// How many single-contact resolutions one call performs.
    pub iterations: u32,
    /// Budget for the velocity phase; kept with `iterations`.
    pub velocity_iterations: u32,
    /// Budget for the position phase; kept with `iterations`.
    pub position_iterations: u32,
}

impl ContactResolver {
    pub fn new(iterations: u32) -> (r: ContactResolver)
        ensures
            r.iterations == iterations,
            r.velocity_iterations == iterations,
            r.position_iterations == iterations,
    {
        ContactResolver { iterations, velocity_iterations: iterations, position_iterations: iterations }
    }

    /// Sets every iteration budget to the given count.
    pub fn set_iterations(&mut self, iterations: u32)
        ensures
            final(self).iterations == iterations,
            final(self).velocity_iterations == iterations,
            final(self).position_iterations == iterations,
    {
        self.iterations = iterations;
        self.velocity_iterations = iterations;
        self.position_iterations = iterations;
    }

    /// Resolves the batch: `iterations` times, pick the contact with the
    /// lowest separating velocity and resolve it, recomputing after each
    /// resolution. An empty batch is a no-op. A pick of a contact between two
    /// immovable particles stops the run with an error; the work already done
    /// stays applied, so the step can be retried with corrected input.
    pub fn resolve_contacts(
        &self,
        particles: &mut Vec<Particle>,
        contacts: &Vec<Contact>,
        duration: i64,
    ) -> (r: Result<(), SimError>)
        requires
            all_valid(old(particles)@),
            resolver_fits(old(particles)@, contacts@, duration as int, self.iterations as nat),
        ensures
            r is Ok ==> resolver_iter(
                old(particles)@,
                contacts@,
                duration as int,
                self.iterations as nat,
            ) == Ok::<Seq<Particle>, ()>(final(particles)@),
            r is Err ==> resolver_iter(
                old(particles)@,
                contacts@,
                duration as int,
                self.iterations as nat,
            ) is Err && r == Err::<(), SimError>(SimError::UnresolvableContact),
            r is Err ==> exists|k: nat|
                k < self.iterations as nat && resolver_iter(
                    old(particles)@,
                    contacts@,
                    duration as int,
                    k,
                ) == Ok::<Seq<Particle>, ()>(final(particles)@),
            final(particles)@.len() == old(particles)@.len(),
            all_valid(final(particles)@),
    {
        let ghost ps0 = particles@;
        let ghost dt = duration as int;
        let mut it: u32 = 0;
        while it < self.iterations
            invariant
                it <= self.iterations,
                ps0 == old(particles)@,
                resolver_iter(ps0, contacts@, dt, it as nat) == Ok::<Seq<Particle>, ()>(
                    particles@,
                ),
                resolver_fits(particles@, contacts@, dt, (self.iterations - it) as nat),
                all_valid(particles@),
                particles@.len() == ps0.len(),
                duration as int == dt,
            decreases self.iterations - it,
        {
            proof {
                lemma_resolver_iter_snoc(ps0, contacts@, dt, it as nat);
            }
            if contacts.len() > 0 {
                let ghost cur = particles@;
                let mut best: usize = 0;
                let mut best_sep = contacts[0].calculate_separating_velocity(particles);
                let mut k: usize = 1;
                while k < contacts.len()
                    invariant
                        1 <= k <= contacts@.len(),
                        best < k,
                        scan_fits(particles@, contacts@),
                        best == argmin_upto(particles@, contacts@, k as int),
                        best_sep == sep_velocity(particles@, contacts@[best as int]),
                        particles@ == cur,
                    decreases contacts@.len() - k,
                {
                    let sk = contacts[k].calculate_separating_velocity(particles);
                    if sk < best_sep {
                        best = k;
                        best_sep = sk;
                    }
                    k = k + 1;
                }
                proof {
                    lemma_argmin_in_range(particles@, contacts@, contacts@.len() as int);
                }
                let c = contacts[best];
                let res = c.resolve(particles, duration);
                match res {
                    Ok(()) => {
                        proof {
                            assert(resolver_step(cur, contacts@, dt) == Ok::<Seq<Particle>, ()>(
                                particles@,
                            ));
                        }
                    },
                    Err(e) => {
                        proof {
                            assert(particles@ == cur);
                            assert(resolver_step(cur, contacts@, dt) == Err::<Seq<Particle>, ()>(
                                (),
                            ));
                            assert(resolver_iter(ps0, contacts@, dt, (it + 1) as nat) is Err);
                            lemma_resolver_iter_err_persists(
                                ps0,
                                contacts@,
                                dt,
                                (it + 1) as nat,
                                self.iterations as nat,
                            );
                            assert(resolver_iter(ps0, contacts@, dt, it as nat)
                                == Ok::<Seq<Particle>, ()>(particles@) && (it as nat)
                                < self.iterations as nat);
                        }
                        return Err(e);
                    },
                }
            }
            it = it + 1;
        }
        Ok(())
    }
}

} // verus!
