//! Lengths of time, and the clock.

use std::time::Duration;

use vstd::prelude::*;

verus! {

/// Nanoseconds in one second.
pub const NANOS_PER_SEC: u32 = 1_000_000_000;

/// The whole seconds that [`Duration::as_secs`] gives of a length of time.
pub uninterp spec fn duration_secs(duration: std::time::Duration) -> u64;

/// The nanoseconds beyond the whole seconds that [`Duration::subsec_nanos`] gives of a
/// length of time.
pub uninterp spec fn duration_nanos(duration: std::time::Duration) -> u32;

/// `std::time::Duration::from_secs`: a length of time of whole seconds.
pub assume_specification[ std::time::Duration::from_secs ](secs: u64) -> (duration: Duration)
    ensures
        duration_secs(duration) == secs,
        duration_nanos(duration) == 0,
;

/// `std::time::Duration::as_secs`: the whole seconds of a length of time.
pub assume_specification[ std::time::Duration::as_secs ](duration: &Duration) -> (secs: u64)
    ensures
        secs == duration_secs(*duration),
;

/// `std::time::Duration::subsec_nanos`: the nanoseconds of a length of time beyond its whole
/// seconds, which are fewer than one second has.
pub assume_specification[ std::time::Duration::subsec_nanos ](duration: &Duration) -> (nanos: u32)
    ensures
        nanos == duration_nanos(*duration),
        nanos < NANOS_PER_SEC,
;

/// `jsonwebtoken::get_current_timestamp`: the Unix time in seconds, whatever the clock of
/// the machine says.
#[verifier::external_body]
pub(crate) fn unix_time() -> (now: u64) {
    jsonwebtoken::get_current_timestamp()
}

} // verus!
