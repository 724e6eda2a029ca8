//! Random fixed-point values, drawn from the system's random number
//! generator.

use vstd::prelude::*;

use crate::vector::Vec3;

verus! {

/// Relies on rand::random_range over the thread-local generator: a value
/// uniformly drawn from the given half-open range, which must not be empty.
/// Nothing more can be promised of a random draw than its range.
#[verifier::external_body]
pub fn random_in_range(low: i64, high: i64) -> (r: i64)
    requires
        low < high,
    ensures
        low <= r < high,
{
    rand::random_range(low..high)
}

/// A vector drawn componentwise from the box `[min, max)`.
pub fn random_vector(min: Vec3, max: Vec3) -> (r: Vec3)
    requires
        min.x < max.x,
        min.y < max.y,
        min.z < max.z,
    ensures
        min.x <= r.x < max.x,
        min.y <= r.y < max.y,
        min.z <= r.z < max.z,
{
    Vec3::from_values(
        random_in_range(min.x, max.x),
        random_in_range(min.y, max.y),
        random_in_range(min.z, max.z),
    )
}

} // verus!
