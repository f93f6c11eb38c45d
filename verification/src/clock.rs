//! The monotonic clock, read through the `instant` crate.
//!
//! Nothing in this file is proved, and nothing is promised of what the clock
//! returns: two readings may differ by any amount.

use vstd::prelude::*;

verus! {

/// `instant::Instant`, a point in monotonic time. Opaque to the verifier.
#[verifier::external_type_specification]
#[verifier::external_body]
pub struct ExInstant(instant::Instant);

/// `Instant::now()`: the present moment.
#[verifier::external_body]
pub(crate) fn now() -> (t: instant::Instant) {
    instant::Instant::now()
}

/// `later.duration_since(earlier)`: the time from `earlier` to `later`,
/// which is zero when `earlier` is the later of the two.
#[verifier::external_body]
pub(crate) fn duration_since(later: &instant::Instant, earlier: &instant::Instant) -> (d:
    std::time::Duration) {
    later.duration_since(*earlier)
}

/// `Duration::as_millis()`: the whole milliseconds in the duration.
#[verifier::external_body]
pub(crate) fn as_millis(d: &std::time::Duration) -> (ms: u128) {
    d.as_millis()
}

} // verus!
