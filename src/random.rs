use vstd::prelude::*;
use rand::distributions::Uniform;
use rand::rngs::StdRng;
use rand::{Rng, RngCore, SeedableRng};

verus! {

/// rand's standard seeded generator, opaque to Verus.
#[verifier::external_type_specification]
#[verifier::external_body]
pub struct ExStdRng(StdRng);

/// A uniform distribution over an interval of indices, kept opaque: Verus
/// knows it only through the bounds it was made with.
#[verifier::external_body]
pub struct IndexRange {
    dist: Uniform<usize>,
}

/// The lower bound (included) that an `IndexRange` was made with.
pub uninterp spec fn range_low(r: IndexRange) -> usize;

/// The upper bound (excluded) that an `IndexRange` was made with.
pub uninterp spec fn range_high(r: IndexRange) -> usize;

/// Relies on `rand::thread_rng` and `RngCore::fill_bytes`: 32 bytes from the
/// thread-local generator, which the operating system's entropy seeds.
/// Nothing is known of the bytes.
#[verifier::external_body]
pub(crate) fn entropy_seed() -> (seed: [u8; 32]) {
    let mut seed = [0u8; 32];
    rand::thread_rng().fill_bytes(&mut seed);
    seed
}

/// Relies on `StdRng::from_seed`: a generator seeded with `seed`.
#[verifier::external_body]
pub(crate) fn seeded_rng(seed: [u8; 32]) -> (rng: StdRng) {
    StdRng::from_seed(seed)
}

/// Relies on `Uniform::new`: a distribution over `[low, high)`, which panics
/// unless `low < high`.
#[verifier::external_body]
pub(crate) fn uniform_range(low: usize, high: usize) -> (r: IndexRange)
    requires
        low < high,
    ensures
        range_low(r) == low,
        range_high(r) == high,
{
    IndexRange { dist: Uniform::new(low, high) }
}

/// Relies on `Rng::sample` with `Uniform<usize>`: a value in `[low, high)` of
/// the distribution; the generator's state advances.
#[verifier::external_body]
pub(crate) fn sample_index(rng: &mut StdRng, range: &IndexRange) -> (i: usize)
    ensures
        range_low(*range) <= i < range_high(*range),
{
    rng.sample(range.dist)
}

/// Relies on `String::push`: appends `c` at the end of `s`.
#[verifier::external_body]
pub(crate) fn push_char(s: &mut String, c: char)
    ensures
        final(s)@ == old(s)@.push(c),
{
    s.push(c)
}

} // verus!
