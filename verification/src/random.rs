//! The source of secrets.

use vstd::prelude::*;
use rand::Rng;

verus! {

/// Draws a number from `low..=high` with `rand::Rng::gen_range`, on the
/// generator that `rand::thread_rng` hands out.
///
/// Trusted: the number lies within the range. `gen_range` panics on an empty
/// range, so `low <= high` is required. That the draw is uniform is what the
/// outside crate documents; no contract here can say it. The thread's
/// generator is seeded from the system on first use and panics if the system
/// gives no seed.
#[verifier::external_body]
fn uniform_inclusive(low: u32, high: u32) -> (drawn: u32)
    requires
        low <= high,
    ensures
        low <= drawn <= high,
{
    rand::thread_rng().gen_range(low..=high)
}

/// Draws a secret for a game with upper bound `max`.
pub fn generate_secret(max: u32) -> (secret: u32)
    requires
        max >= 1,
    ensures
        1 <= secret <= max,
{
    uniform_inclusive(1, max)
}

} // verus!
