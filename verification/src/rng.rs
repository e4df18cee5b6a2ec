//! The one place where the simulation draws randomness from the outside.

use vstd::prelude::*;

verus! {

/// Relies on rand::Rng::gen_range over a thread-local generator: it returns
/// a value within the given inclusive range, and panics only when the range
/// is empty, which the precondition rules out.
#[verifier::external_body]
pub(crate) fn random_int_inclusive(low: i32, high: i32) -> (r: i32)
    requires
        low <= high,
    ensures
        low <= r <= high,
{
    let mut rng = rand::thread_rng();
    rand::Rng::gen_range(&mut rng, low..=high)
}

} // verus!
