use rand::rngs::StdRng;
use rand::seq::SliceRandom;
use rand::{Rng, SeedableRng};
use vstd::prelude::*;

verus! {

/// The seeded pseudo-random generator that a run owns.
#[verifier::external_type_specification]
#[verifier::external_body]
pub struct ExStdRng(StdRng);

/// Relies on the `Clone` that `StdRng` derives: the copy holds the same generator state.
pub assume_specification[ <StdRng as Clone>::clone ](r: &StdRng) -> (res: StdRng)
    ensures
        res == *r,
;

/// Relies on `rand::SeedableRng::seed_from_u64` for `StdRng`: a generator built from a seed.
#[verifier::external_body]
pub(crate) fn rng_from_seed(seed: u64) -> StdRng {
    StdRng::seed_from_u64(seed)
}

/// Relies on `rand::random`: a `u64` drawn from the thread-local generator.
#[verifier::external_body]
pub(crate) fn entropy_seed() -> u64 {
    rand::random::<u64>()
}

/// Relies on `rand::Rng::gen_range` over `0..n`: a value below `n` (the range must not be
/// empty, which `gen_range` asserts).
#[verifier::external_body]
pub(crate) fn below(rng: &mut StdRng, n: usize) -> (r: usize)
    requires
        n > 0,
    ensures
        r < n,
{
    rng.gen_range(0..n)
}

/// Relies on `rand::seq::SliceRandom::shuffle`: the elements are permuted in place.
#[verifier::external_body]
pub(crate) fn shuffle_vec<T>(v: &mut Vec<T>, rng: &mut StdRng)
    ensures
        final(v)@.to_multiset() == old(v)@.to_multiset(),
        final(v)@.len() == old(v)@.len(),
{
    v.as_mut_slice().shuffle(rng)
}

} // verus!
