//! Random draws for scenario construction, behind trusted declarations.
//!
//! Randomness is confined to scenario construction; nothing in the tick
//! algorithm draws a number. Nothing is assumed of a draw beyond its range.

use rand::Rng;
use rand::rngs::ThreadRng;
use vstd::prelude::*;

verus! {

/// Declares rand's thread-local generator handle so that it can cross
/// verified signatures; its value is opaque here.
#[verifier::external_type_specification]
#[verifier::external_body]
pub struct ExThreadRng(ThreadRng);

/// Relies on `rand::thread_rng` for a handle to the thread-local
/// generator; nothing is assumed of the handle.
#[verifier::external_body]
pub(crate) fn fresh_rng() -> ThreadRng {
    rand::thread_rng()
}

/// Relies on `Rng::gen_range` on a half-open `u32` range: the draw lies in
/// `[lo, hi)`. The call panics on an empty range, which the precondition
/// rules out.
#[verifier::external_body]
pub(crate) fn gen_range_u32(gen: &mut ThreadRng, lo: u32, hi: u32) -> (r: u32)
    requires
        lo < hi,
    ensures
        lo <= r < hi,
{
    gen.gen_range(lo..hi)
}

} // verus!
