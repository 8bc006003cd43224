//! The deterministic random source.
//!
//! The engine draws from a seeded ChaCha stream cipher with eight rounds, a
//! portable counter-based generator: one seed fixes the whole stream of
//! draws, which is what makes a run reproducible.  The generator's state is
//! opaque here; the one fact the engine's logic needs about a draw is its
//! range, stated on the trusted wrapper below.  The uniform real draws in
//! [0, 1) that the proposer and the acceptance rule consume are made by the
//! caller from the same generator value, since they are floating-point work.

use rand_chacha::ChaCha8Rng;
use vstd::prelude::*;

verus! {

#[verifier::external_type_specification]
#[verifier::external_body]
pub struct ExChaCha8Rng(ChaCha8Rng);

/// Relies on `rand::Rng::gen_range` over the range `0..bound`: it panics
/// only on an empty range, and otherwise returns a value of the range.
#[verifier::external_body]
pub(crate) fn rng_range_u32(rng: &mut ChaCha8Rng, bound: u32) -> (r: u32)
    requires
        bound >= 1,
    ensures
        r < bound,
{
    rand::Rng::gen_range(rng, 0..bound)
}

} // verus!
