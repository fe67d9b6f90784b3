//! Shared application state for the middleware and extractors.

use vstd::prelude::*;

use crate::cache::jti::{create_jti_cache, jti_ttl, jti_ttl_secs};
use crate::cache::{
    cache_capacity, cache_ttl, create_nonce_cache, nanoseconds, share, JtiCache, NonceCache,
    CACHE_CAPACITY, NONCE_TTL_SECS,
};
use crate::config::DpopConfig;
use crate::time::duration_secs;

verus! {

/// Shared state held by the DPoP layer and available to handlers.
pub struct DpopState {
    /// Library configuration (public URL, signer, TTLs, policies).
    pub config: DpopConfig,
    /// Cache of seen proof `jti` values.
    pub jti_cache: JtiCache,
    /// Cache of nonces issued by this server.
    pub nonce_cache: NonceCache,
}

impl DpopState {
    /// Create the state and its caches from a configuration.
    ///
    /// A `jti` is remembered for longer than a proof can be fresh under the configured
    /// clock skew.
    pub fn new(config: DpopConfig) -> (state: DpopState)
        ensures
            state.config == config,
            cache_ttl(state.jti_cache) == nanoseconds(
                jti_ttl_secs(duration_secs(config.clock_skew) as nat),
                0,
            ),
            cache_capacity(state.jti_cache) == CACHE_CAPACITY,
            cache_ttl(state.nonce_cache) == nanoseconds(NONCE_TTL_SECS as nat, 0),
            cache_capacity(state.nonce_cache) == CACHE_CAPACITY,
    {
        let jti_cache = create_jti_cache(jti_ttl(config.clock_skew));
        DpopState { config, jti_cache, nonce_cache: create_nonce_cache() }
    }
}

impl Clone for DpopState {
    /// Another handle to the same caches, with a copy of the configuration.
    fn clone(&self) -> (copy: DpopState)
        ensures
            copy.config@ == self.config@,
            cache_ttl(copy.jti_cache) == cache_ttl(self.jti_cache),
            cache_capacity(copy.jti_cache) == cache_capacity(self.jti_cache),
            cache_ttl(copy.nonce_cache) == cache_ttl(self.nonce_cache),
            cache_capacity(copy.nonce_cache) == cache_capacity(self.nonce_cache),
    {
        DpopState {
            config: self.config.clone(),
            jti_cache: share(&self.jti_cache),
            nonce_cache: share(&self.nonce_cache),
        }
    }
}

/// For how long the caches of a state remember: a `jti` for twice the clock skew and five
/// seconds, as far as a cache can keep it, and a nonce for five minutes.
pub proof fn law_state_remembers_long_enough(config: DpopConfig, state: DpopState)
    requires
        call_ensures(DpopState::new, (config,), state),
    ensures
        state.config == config,
        2 * duration_secs(config.clock_skew) + 5 <= 31_536_000_000 ==> cache_ttl(state.jti_cache)
            == (2 * duration_secs(config.clock_skew) + 5) * 1_000_000_000,
        2 * duration_secs(config.clock_skew) + 5 > 31_536_000_000 ==> cache_ttl(state.jti_cache)
            == 31_536_000_000 * 1_000_000_000,
        cache_ttl(state.nonce_cache) == 300 * 1_000_000_000,
        cache_capacity(state.jti_cache) == 100_000,
        cache_capacity(state.nonce_cache) == 100_000,
{
}

} // verus!
