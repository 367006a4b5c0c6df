//! The random source that selection and delay-picking draw from.

use rand::rngs::StdRng;
use rand::Rng;
use vstd::prelude::*;

verus! {

#[verifier::external_type_specification]
#[verifier::external_body]
pub struct ExStdRng(rand::rngs::StdRng);

/// Calls `rand::Rng::gen_range` on `rng` with the inclusive range
/// `low..=high`. The contract claims what the method documents of every
/// draw: the value lies in the range. Which value comes depends on the
/// state of `rng`, of which nothing is said. `gen_range` panics on an empty
/// range, so the bounds must be in order.
#[verifier::external_body]
pub(crate) fn draw_in_range(rng: &mut StdRng, low: u64, high: u64) -> (drawn: u64)
    requires
        low <= high,
    ensures
        low <= drawn <= high,
{
    rng.gen_range(low..=high)
}

} // verus!
