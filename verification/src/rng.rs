use vstd::prelude::*;

verus! {

/// The library's pseudo-random source: rand's standard generator. It is seedable,
/// so one seed reproduces one animation run.
#[verifier::external_type_specification]
#[verifier::external_body]
pub struct ExStdRng(rand::rngs::StdRng);

/// Relies on rand::SeedableRng::seed_from_u64: builds a generator from a seed.
#[verifier::external_body]
pub(crate) fn rng_from_seed(seed: u64) -> rand::rngs::StdRng {
    <rand::rngs::StdRng as rand::SeedableRng>::seed_from_u64(seed)
}

/// Relies on rand::RngExt::random_range over `0..bound`: the result lies in that
/// range. The draw is random: nothing more holds of a single result.
#[verifier::external_body]
pub(crate) fn rand_below(rng: &mut rand::rngs::StdRng, bound: u32) -> (r: u32)
    requires
        bound > 0,
    ensures
        r < bound,
{
    rand::RngExt::random_range(rng, 0..bound)
}

/// Relies on rand::RngExt::random_range over `0..bound`: the result lies in that
/// range. The draw is random: nothing more holds of a single result.
#[verifier::external_body]
pub(crate) fn rand_below_usize(rng: &mut rand::rngs::StdRng, bound: usize) -> (r: usize)
    requires
        bound > 0,
    ensures
        r < bound,
{
    rand::RngExt::random_range(rng, 0..bound)
}

/// Relies on rand::RngExt::random_ratio: true with probability `num` in `den`.
/// The draw is random: nothing holds of a single result.
#[verifier::external_body]
pub(crate) fn rand_ratio(rng: &mut rand::rngs::StdRng, num: u32, den: u32) -> (r: bool)
    requires
        0 < den,
        num <= den,
{
    rand::RngExt::random_ratio(rng, num, den)
}

} // verus!
