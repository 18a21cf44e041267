//! The wall clock, as far as the power model reads it.
//!
//! The items that name a function of the standard library are not proved:
//! each states what the library documents of that function, which here is
//! nothing about the value that comes back.

use std::time::{Duration, Instant};
use vstd::prelude::*;

verus! {

/// `std::time::Instant`, an opaque point on the monotonic clock.
#[verifier::external_type_specification]
#[verifier::external_body]
pub struct ExInstant(Instant);

/// `Instant::now`: the current reading of the monotonic clock. Nothing is
/// claimed of the value.
pub assume_specification[ Instant::now ]() -> (now: Instant);

/// `Instant::saturating_duration_since`: the time from `earlier` to `later`,
/// or zero when `earlier` is the later of the two. Nothing is claimed of the
/// value.
pub assume_specification[ Instant::saturating_duration_since ](
    later: &Instant,
    earlier: Instant,
) -> (elapsed: Duration);

/// `Duration::as_micros`: the whole microseconds in `span`. Nothing is claimed
/// of the value.
pub assume_specification[ Duration::as_micros ](span: &Duration) -> (micros: u128);

/// Whole microseconds that have passed on the monotonic clock since
/// `reference`, brought into 64 bits by `saturate_micros`.
pub(crate) fn micros_since(reference: &Instant) -> (elapsed_us: u64) {
    let now = Instant::now();
    let span = now.saturating_duration_since(*reference);
    let micros: u128 = span.as_micros();
    saturate_micros(micros)
}

/// A count of microseconds as it fits in 64 bits: the count itself, or
/// `u64::MAX` where the count is larger.
pub open spec fn saturated_micros(micros: int) -> int {
    if micros > u64::MAX {
        u64::MAX as int
    } else {
        micros
    }
}

/// Brings a count of microseconds into 64 bits: a count too large for them
/// reads as `u64::MAX`, every other count is kept.
pub fn saturate_micros(micros: u128) -> (elapsed_us: u64)
    ensures
        elapsed_us == saturated_micros(micros as int),
{
    if micros > u64::MAX as u128 {
        u64::MAX
    } else {
        micros as u64
    }
}

} // verus!
