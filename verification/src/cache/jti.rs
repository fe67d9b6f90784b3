//! Proof `jti` replay prevention.

use std::time::Duration;

use vstd::prelude::*;

pub use crate::cache::JtiCache;
use crate::cache::{
    cache_capacity, cache_ttl, is_cache_ttl, jti_cache_with, nanoseconds, CACHE_CAPACITY,
    MAX_TTL_SECS,
};
use crate::time::{duration_nanos, duration_secs};

verus! {

/// Seconds that a `jti` is remembered beyond the lifetime of its proof.
pub const JTI_BUFFER_SECS: u64 = 5;

/// The time in seconds for which a `jti` is remembered under a clock skew: twice the
/// skew and the buffer, as far as a cache can keep an entry.
pub open spec fn jti_ttl_secs(clock_skew_secs: nat) -> nat {
    let needed = 2 * clock_skew_secs + JTI_BUFFER_SECS as nat;
    if needed <= MAX_TTL_SECS {
        needed
    } else {
        MAX_TTL_SECS as nat
    }
}

/// The time-to-live of `jti` entries under a clock skew.
pub fn jti_ttl(clock_skew: Duration) -> (ttl: Duration)
    ensures
        duration_secs(ttl) == jti_ttl_secs(duration_secs(clock_skew) as nat),
        duration_nanos(ttl) == 0,
        is_cache_ttl(ttl),
{
    let skew: u64 = clock_skew.as_secs();
    if skew <= (MAX_TTL_SECS - JTI_BUFFER_SECS) / 2 {
        Duration::from_secs(2 * skew + JTI_BUFFER_SECS)
    } else {
        Duration::from_secs(MAX_TTL_SECS)
    }
}

/// Create a [`JtiCache`] with a dynamic TTL based on clock skew.
///
/// # Security Note
///
/// The TTL must strictly cover the maximum valid lifetime of a DPoP proof.
/// Since a proof is accepted if its `iat` is within `now +- clock_skew`,
/// the theoretical maximum lifetime of a proof is `clock_skew * 2`.
/// A small 5-second safety buffer is added to account for CPU or network latency
/// (see [`jti_ttl`]).
pub fn create_jti_cache(ttl: Duration) -> (cache: JtiCache)
    requires
        is_cache_ttl(ttl),
    ensures
        cache_ttl(cache) == nanoseconds(duration_secs(ttl) as nat, duration_nanos(ttl) as nat),
        cache_capacity(cache) == CACHE_CAPACITY,
{
    jti_cache_with(ttl)
}

} // verus!
