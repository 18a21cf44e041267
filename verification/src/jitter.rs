//! The random phase jitter of the event camera.

use rand::Rng;
use vstd::prelude::*;

verus! {

/// Smallest jitter, in whole seconds.
pub const JITTER_MIN_S: i32 = -2;

/// Bound that the jitter stays below, in whole seconds.
pub const JITTER_END_S: i32 = 2;

/// Whether `jitter_s` is a value that a jitter sample can take.
pub open spec fn is_jitter(jitter_s: int) -> bool {
    JITTER_MIN_S <= jitter_s < JITTER_END_S
}

/// One sample of `rand::Rng::gen_range(-2..2)` on `rand::thread_rng()`.
///
/// Trusted, not proved: the sample lies in the half-open range that was asked
/// for. Which value it takes is left open, and two calls may differ.
#[verifier::external_body]
pub(crate) fn sample_jitter() -> (jitter_s: i32)
    ensures
        is_jitter(jitter_s as int),
{
    rand::thread_rng().gen_range(-2..2)
}

} // verus!
