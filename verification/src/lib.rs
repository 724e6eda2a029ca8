//! An impulse-based particle and rigid-body physics core.
//!
//! All simulation quantities are fixed-point numbers: an `i64` holding the
//! real value scaled by `fixed::SCALE`. Fixed-point arithmetic keeps every
//! operation exact integer mathematics, so each contract states the result
//! of a step precisely.

use vstd::prelude::*;

pub mod contact;
pub mod firework;
pub mod fixed;
pub mod forcegen;
pub mod links;
pub mod matrix;
pub mod particle;
pub mod quaternion;
pub mod random;
pub mod registry;
pub mod resolver;
pub mod rigid;
pub mod timing;
pub mod vector;
pub mod world;

verus! {

/// The fatal simulation errors: contract violations that must stop the
/// current step rather than produce silently wrong physics.
#[derive(Clone, Copy, Debug, PartialEq, Eq, Structural)]
pub enum SimError {
    /// A non-positive mass was supplied to a mass setter, or a negative
    /// duration to integration.
    InvalidMassOrTimestep,
    /// A contact between two immovable bodies reached the resolver.
    UnresolvableContact,
}

} // verus!
