//! The cache of replacements in their grace period.

use vstd::prelude::*;

use crate::cache::{nanoseconds, MAX_TTL_SECS};

verus! {

/// Replacement pair cached during the rotation grace window.
#[derive(Debug)]
pub struct ReplacementTokens {
    /// The access token.
    pub access_token: String,
    /// The refresh secret.
    pub refresh_token: String,
    /// The access-token lifetime in seconds.
    pub expires_in: u64,
}

impl Clone for ReplacementTokens {
    fn clone(&self) -> (copy: ReplacementTokens)
        ensures
            copy == *self,
    {
        ReplacementTokens {
            access_token: self.access_token.clone(),
            refresh_token: self.refresh_token.clone(),
            expires_in: self.expires_in,
        }
    }
}

/// Grace cache: `(fam, old_token_hash)` -> replacement pair.
pub type GraceCache = moka::sync::Cache<(u128, String), ReplacementTokens>;

/// The time in nanoseconds for which a grace cache keeps an entry.
pub uninterp spec fn grace_cache_ttl(
    cache: moka::sync::Cache<(u128, String), ReplacementTokens>,
) -> nat;

/// What a lookup in the grace cache found. It comes from a lookup alone.
pub struct GraceLookup {
    cache: Ghost<GraceCache>,
    fam: u128,
    token_hash: String,
    tokens: Option<ReplacementTokens>,
}

impl GraceLookup {
    /// The lookup of a rotated token.
    pub closed spec fn made(
        cache: GraceCache,
        fam: u128,
        token_hash: String,
        tokens: Option<ReplacementTokens>,
    ) -> GraceLookup {
        GraceLookup { cache: Ghost(cache), fam, token_hash, tokens }
    }

    /// The cache that was asked.
    pub closed spec fn cache(&self) -> GraceCache {
        self.cache@
    }

    /// The family of the token that was looked up.
    pub closed spec fn fam(&self) -> u128 {
        self.fam
    }

    /// The hash of the token that was looked up.
    pub closed spec fn token_hash(&self) -> Seq<char> {
        self.token_hash@
    }

    /// The replacement that was found.
    pub closed spec fn tokens(&self) -> Option<ReplacementTokens> {
        self.tokens
    }

    /// The replacement that was found.
    pub fn into_tokens(self) -> (tokens: Option<ReplacementTokens>)
        ensures
            tokens == self.tokens(),
    {
        self.tokens
    }

    /// A lookup is of the token that it was made of.
    pub proof fn lemma_made(
        cache: GraceCache,
        fam: u128,
        token_hash: String,
        tokens: Option<ReplacementTokens>,
    )
        ensures
            GraceLookup::made(cache, fam, token_hash, tokens).cache() == cache,
            GraceLookup::made(cache, fam, token_hash, tokens).fam() == fam,
            GraceLookup::made(cache, fam, token_hash, tokens).token_hash() == token_hash@,
            GraceLookup::made(cache, fam, token_hash, tokens).tokens() == tokens,
    {
    }
}

/// A replacement that was put into the grace cache. It comes from putting it there alone.
pub struct GraceEntry {
    cache: Ghost<GraceCache>,
    fam: u128,
    token_hash: String,
    tokens: Ghost<ReplacementTokens>,
}

impl GraceEntry {
    /// The entry of a rotated token.
    pub closed spec fn made(
        cache: GraceCache,
        fam: u128,
        token_hash: String,
        tokens: ReplacementTokens,
    ) -> GraceEntry {
        GraceEntry { cache: Ghost(cache), fam, token_hash, tokens: Ghost(tokens) }
    }

    /// The cache that the replacement was put into.
    pub closed spec fn cache(&self) -> GraceCache {
        self.cache@
    }

    /// The family of the rotated token.
    pub closed spec fn fam(&self) -> u128 {
        self.fam
    }

    /// The hash of the rotated token.
    pub closed spec fn token_hash(&self) -> Seq<char> {
        self.token_hash@
    }

    /// The replacement.
    pub closed spec fn tokens(&self) -> ReplacementTokens {
        self.tokens@
    }
}

/// `moka::sync::Cache::builder`: an empty grace cache with the given time-to-live and
/// capacity.
#[verifier::external_body]
pub(crate) fn new_grace_cache(secs: u64, nanos: u32, capacity: u64) -> (cache: moka::sync::Cache<
    (u128, String),
    ReplacementTokens,
>)
    requires
        secs < MAX_TTL_SECS || (secs == MAX_TTL_SECS && nanos == 0),
        nanos < 1_000_000_000,
    ensures
        grace_cache_ttl(cache) == nanoseconds(secs as nat, nanos as nat),
{
    moka::sync::Cache::builder()
        .time_to_live(std::time::Duration::new(secs, nanos))
        .max_capacity(capacity)
        .build()
}

/// `moka::sync::Cache::get` on the grace cache: the replacement that it holds now. What is
/// found rests on the time and on what was put into it, and is not stated.
#[verifier::external_body]
pub(crate) fn grace_get(cache: &GraceCache, fam: u128, token_hash: &str) -> (lookup: GraceLookup)
    ensures
        lookup.cache() == *cache,
        lookup.fam() == fam,
        lookup.token_hash() == token_hash@,
{
    let tokens = cache.get(&(fam, token_hash.to_string()));
    GraceLookup { cache: Ghost(*cache), fam, token_hash: token_hash.to_string(), tokens }
}

/// `moka::sync::Cache::insert` on the grace cache.
#[verifier::external_body]
pub(crate) fn grace_put(
    cache: &GraceCache,
    fam: u128,
    token_hash: &str,
    tokens: ReplacementTokens,
) -> (entry: GraceEntry)
    ensures
        entry.cache() == *cache,
        entry.fam() == fam,
        entry.token_hash() == token_hash@,
        entry.tokens() == tokens,
{
    let key = (fam, token_hash.to_string());
    let entry = GraceEntry {
        cache: Ghost(*cache),
        fam,
        token_hash: token_hash.to_string(),
        tokens: Ghost(tokens),
    };
    cache.insert(key, tokens);
    entry
}

} // verus!
