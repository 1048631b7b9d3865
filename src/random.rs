//! Random sources of the harness.
use rand::Rng;
use rand::SeedableRng;
use vstd::prelude::*;

verus! {

#[verifier::external_type_specification]
#[verifier::external_body]
pub struct ExStdRng(rand::rngs::StdRng);

#[verifier::external_type_specification]
#[verifier::external_body]
pub struct ExSmallRng(rand::rngs::SmallRng);

/// Relies on `SeedableRng::seed_from_u64` for `StdRng`: a generator whose
/// whole output stream is fixed by `seed`.
#[verifier::external_body]
pub(crate) fn seeded_rng(seed: u64) -> rand::rngs::StdRng {
    rand::rngs::StdRng::seed_from_u64(seed)
}

/// Relies on `Rng::random_ratio`: `true` with probability
/// `numerator / denominator`; always `false` for a zero numerator and always
/// `true` when numerator and denominator are equal. It panics on a zero
/// denominator or a numerator above the denominator.
#[verifier::external_body]
pub(crate) fn draw_ratio(rng: &mut rand::rngs::StdRng, numerator: u32, denominator: u32) -> (r: bool)
    requires
        0 < denominator,
        numerator <= denominator,
    ensures
        numerator == 0 ==> !r,
        numerator == denominator ==> r,
{
    rng.random_ratio(numerator, denominator)
}

/// Relies on `Rng::random::<u32>`: a uniformly drawn `u32`.
#[verifier::external_body]
pub(crate) fn draw_u32(rng: &mut rand::rngs::StdRng) -> u32 {
    rng.random::<u32>()
}

/// Relies on `rand::random` and `SeedableRng::from_seed` for `SmallRng`: a
/// fast generator seeded from the operating system's entropy.
#[verifier::external_body]
pub(crate) fn entropy_rng() -> rand::rngs::SmallRng {
    rand::rngs::SmallRng::from_seed(rand::random())
}

/// Relies on `Rng::random_range` over `low..=high`: a uniform draw from the
/// closed range. It panics on an empty range.
#[verifier::external_body]
pub(crate) fn draw_inclusive(rng: &mut rand::rngs::SmallRng, low: u64, high: u64) -> (r: u64)
    requires
        low <= high,
    ensures
        low <= r <= high,
{
    rng.random_range(low..=high)
}

} // verus!
