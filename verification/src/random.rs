//! The random source of a session.
use vstd::prelude::*;
use rand::rngs::StdRng;
use rand::{Rng, SeedableRng};

verus! {

/// `rand::rngs::StdRng`, the generator a session draws from. Nothing is
/// known of its state.
#[verifier::external_type_specification]
#[verifier::external_body]
pub struct ExStdRng(StdRng);

/// Calls `SeedableRng::seed_from_u64` for `StdRng`, which builds a generator
/// from any seed. Nothing is claimed of the generator.
#[verifier::external_body]
pub(crate) fn seeded(seed: u64) -> (rng: StdRng) {
    StdRng::seed_from_u64(seed)
}

/// Calls `Rng::gen_range` for `i128`. The call panics unless `low < high`;
/// otherwise it returns a value that is at least `low` and less than `high`.
/// Which value comes is not said: two calls need not agree.
#[verifier::external_body]
pub(crate) fn draw_below(rng: &mut StdRng, low: i128, high: i128) -> (value: i128)
    requires
        low < high,
    ensures
        low <= value < high,
{
    rng.gen_range(low, high)
}

} // verus!
