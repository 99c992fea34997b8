use vstd::prelude::*;

verus! {

/// Declares `rand::rngs::StdRng` so signatures can carry the random source
/// that a host injects. The value is opaque here; only the trusted wrappers
/// below draw from it.
#[verifier::external_type_specification]
#[verifier::external_body]
pub struct ExStdRng(rand::rngs::StdRng);

/// Relies on `rand::SeedableRng::seed_from_u64`: builds a deterministic
/// generator from the seed, so equal seeds give equal draw sequences.
#[verifier::external_body]
pub fn rng_from_seed(seed: u64) -> (rng: rand::rngs::StdRng) {
    <rand::rngs::StdRng as rand::SeedableRng>::seed_from_u64(seed)
}

/// Relies on `rand::Rng::gen_range` over `1..=2`: the draw is uniform and lies
/// within the given inclusive range.
#[verifier::external_body]
pub(crate) fn draw_one_or_two(rng: &mut rand::rngs::StdRng) -> (r: i32)
    ensures
        1 <= r <= 2,
{
    rand::Rng::gen_range(rng, 1i32..=2i32)
}

/// Relies on `rand::Rng::gen_range` over `1..n`: the draw is uniform and lies
/// within the given half-open range, which must not be empty.
#[verifier::external_body]
pub(crate) fn draw_index(rng: &mut rand::rngs::StdRng, n: usize) -> (r: usize)
    requires
        2 <= n,
    ensures
        1 <= r < n,
{
    rand::Rng::gen_range(rng, 1usize..n)
}

} // verus!
