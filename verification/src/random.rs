//! Seeded pseudo-random draws.
//!
//! The generator is the `rand` crate's standard one. It is seeded from a
//! number and used at once, so what is drawn depends on the seed and the
//! bounds alone and carries no state from call to call.

use vstd::prelude::*;
use rand::Rng;
use rand::SeedableRng;
use rand::rngs::StdRng;

verus! {

/// The first three draws between `low` and `high` of a generator seeded with
/// `seed`, in the order drawn.
pub uninterp spec fn seeded_channels(seed: u64, low: u8, high: u8) -> (u8, u8, u8);

/// The first draw between `low` and `high` of a generator seeded with `seed`.
pub uninterp spec fn seeded_level(seed: u64, low: i32, high: i32) -> i32;

/// Seeds a `rand::rngs::StdRng` with `SeedableRng::seed_from_u64` and takes
/// three values from it with `Rng::gen_range` on the inclusive range from
/// `low` to `high`. Trusted: the draws are a function of the seed and the
/// bounds, and each lies within the bounds. `gen_range` panics on an empty
/// range, which `low <= high` rules out.
#[verifier::external_body]
pub(crate) fn draw_channels(seed: u64, low: u8, high: u8) -> (drawn: (u8, u8, u8))
    requires
        low <= high,
    ensures
        drawn == seeded_channels(seed, low, high),
        low <= drawn.0 <= high,
        low <= drawn.1 <= high,
        low <= drawn.2 <= high,
{
    let mut rng = StdRng::seed_from_u64(seed);
    let first = rng.gen_range(low..=high);
    let second = rng.gen_range(low..=high);
    let third = rng.gen_range(low..=high);
    (first, second, third)
}

/// Seeds a `rand::rngs::StdRng` with `SeedableRng::seed_from_u64` and takes
/// one value from it with `Rng::gen_range` on the inclusive range from `low`
/// to `high`. Trusted: the draw is a function of the seed and the bounds, and
/// lies within the bounds. `gen_range` panics on an empty range, which
/// `low <= high` rules out; that its rejection sampling comes to an end for
/// every seed is taken on trust as well.
#[verifier::external_body]
pub(crate) fn draw_level(seed: u64, low: i32, high: i32) -> (drawn: i32)
    requires
        low <= high,
    ensures
        drawn == seeded_level(seed, low, high),
        low <= drawn <= high,
{
    let mut rng = StdRng::seed_from_u64(seed);
    rng.gen_range(low..=high)
}

} // verus!
