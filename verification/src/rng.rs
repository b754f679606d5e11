//! Randomness for the protocol: per-frame mask keys drawn from rand's small
//! PRNG. Nothing is promised of the drawn values.
use vstd::prelude::*;

verus! {

#[verifier::external_type_specification]
#[verifier::external_body]
pub struct ExSmallRng(rand::rngs::SmallRng);

/// Relies on rand's `RngCore::next_u32` for `SmallRng`: draws a fresh mask
/// key. The value is random; nothing is promised of it.
#[verifier::external_body]
pub(crate) fn next_mask_key(rng: &mut rand::rngs::SmallRng) -> u32 {
    rand::RngCore::next_u32(rng)
}

} // verus!
