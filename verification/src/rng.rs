//! Trusted boundary to the random-number generator.
//!
//! The harness draws all of its randomness from a `ChaCha20Rng`, one per
//! thread, seeded from the operating system.  Nothing is assumed about the
//! values drawn beyond the range that the generator's documentation
//! promises, so every decision built on them is verified for every value
//! that could come back.

use vstd::prelude::*;

verus! {

/// The generator type of the rand_chacha crate, carried opaquely through
/// the library's planning functions.
#[verifier::external_type_specification]
#[verifier::external_body]
pub struct ExChaCha20Rng(rand_chacha::ChaCha20Rng);

/// Relies on rand's `Rng::gen` with the `Standard` distribution: some
/// 64-bit value; nothing is assumed about which.
#[verifier::external_body]
pub(crate) fn rng_u64(rng: &mut rand_chacha::ChaCha20Rng) -> u64 {
    rand::Rng::gen(rng)
}

/// Relies on rand's `Rng::gen` with the `Standard` distribution: some
/// byte; nothing is assumed about which.
#[verifier::external_body]
pub(crate) fn rng_byte(rng: &mut rand_chacha::ChaCha20Rng) -> u8 {
    rand::Rng::gen(rng)
}

/// Relies on rand's `Rng::gen_range`: a value drawn from the half-open
/// range `[lo, hi)`, which must not be empty (the call panics on an empty
/// range).
#[verifier::external_body]
pub(crate) fn rng_range_u64(rng: &mut rand_chacha::ChaCha20Rng, lo: u64, hi: u64) -> (r: u64)
    requires
        lo < hi,
    ensures
        lo <= r < hi,
{
    rand::Rng::gen_range(rng, lo..hi)
}

/// Relies on rand's `Rng::gen_range`: a value drawn from the half-open
/// range `[lo, hi)`, which must not be empty (the call panics on an empty
/// range).
#[verifier::external_body]
pub(crate) fn rng_range_usize(rng: &mut rand_chacha::ChaCha20Rng, lo: usize, hi: usize) -> (r: usize)
    requires
        lo < hi,
    ensures
        lo <= r < hi,
{
    rand::Rng::gen_range(rng, lo..hi)
}

/// Relies on rand's `Rng::gen_ratio`: a coin that comes up true with
/// probability `num / den`.  The call panics when `den` is zero or
/// `num > den`; nothing is assumed about the value returned.
#[verifier::external_body]
pub(crate) fn rng_ratio(rng: &mut rand_chacha::ChaCha20Rng, num: u32, den: u32) -> bool
    requires
        0 < den,
        num <= den,
{
    rand::Rng::gen_ratio(rng, num, den)
}

} // verus!
