use rand::rngs::SmallRng;
use rand::Rng;
use rand::SeedableRng;
use vstd::prelude::*;

verus! {

/// `rand::rngs::SmallRng`, the generator behind a run. Its state is opaque.
#[verifier::external_type_specification]
#[verifier::external_body]
pub struct ExSmallRng(SmallRng);

/// `SmallRng::seed_from_u64`: a generator started from `seed`. Nothing is
/// claimed about the stream it will produce.
#[verifier::external_body]
pub(crate) fn seeded_rng(seed: u64) -> SmallRng {
    SmallRng::seed_from_u64(seed)
}

/// `Rng::random_range` on `0..n`: some index below `n`. The call panics on an
/// empty range, hence the precondition.
#[verifier::external_body]
pub(crate) fn uniform_index(rng: &mut SmallRng, n: usize) -> (index: usize)
    requires
        n > 0,
    ensures
        index < n,
{
    rng.random_range(0..n)
}

} // verus!
