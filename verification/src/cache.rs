//! In-memory replay-protection caches.
//!
//! - [`jti`] - access-token `jti` replay prevention.
//! - [`nonce`] - DPoP `nonce` request caching for challenges.
//! - [`totp`] - TOTP code replay prevention.

use std::time::Duration;

use vstd::prelude::*;

pub mod jti;
pub mod nonce;
pub mod totp;

use crate::time::{duration_nanos, duration_secs};

verus! {

/// A concurrent cache of the moka crate. What it holds changes under a shared reference
/// and with the time, so nothing is said of what a lookup or a claim finds: the decisions
/// take it as an argument. That a lookup, an entry or a claim was made is shown by what it
/// gives ([`Lookup`], [`Entry`], [`Claim`], [`CodeClaim`]).
#[verifier::external_type_specification]
#[verifier::external_body]
#[verifier::reject_recursive_types(K)]
#[verifier::reject_recursive_types(V)]
#[verifier::reject_recursive_types(S)]
pub struct ExCache<K, V, S>(moka::sync::Cache<K, V, S>);

/// Time-to-live of a `jti` entry under the default clock skew of 60s (125s).
///
/// A proof is accepted as long as its `iat` is at most the skew away from now, on either
/// side. Keeping entries for longer than that guarantees that an attacker cannot replay an
/// intercepted proof:
/// - Within the window: rejected by [`JtiCache`].
/// - After it: rejected by the `iat` freshness check.
pub const JTI_TTL_SECS: u64 = 125;

/// Time-to-live of a server-issued nonce entry (300s / 5 minutes).
///
/// Long enough to tolerate mobile latency and request retries.
/// Multi-use is a permitted within this window per RFC 9449 section 11.1
/// since `jti` tracking prevents proof replay.
pub const NONCE_TTL_SECS: u64 = 300;

/// Time-to-live of a TOTP replay entry (90s = 3 time steps).
///
/// A code is valid for at most `step * (2 * skew + 1)` seconds; keeping the entry
/// for 90s prevents replaying the code inside its whole validity window.
pub const TOTP_REPLAY_TTL_SECS: u64 = 90;

/// Maximum number of entries per cache.
pub const CACHE_CAPACITY: u64 = 100_000;

/// The longest time-to-live of a cache: a thousand years of 365 days.
pub const MAX_TTL_SECS: u64 = 31_536_000_000;

/// Cache of already-seen `jti` values (single-use proof identifiers).
pub type JtiCache = moka::sync::Cache<String, bool>;

/// Cache of nonces issued by this server.
pub type NonceCache = moka::sync::Cache<String, bool>;

/// Cache of already-used TOTP codes: `(user_id, code) -> ()`.
pub type TotpReplayCache = moka::sync::Cache<(u128, String), ()>;

/// The time in nanoseconds for which a cache keeps an entry.
pub uninterp spec fn cache_ttl(cache: moka::sync::Cache<String, bool>) -> nat;

/// The number of entries above which a cache drops some.
pub uninterp spec fn cache_capacity(cache: moka::sync::Cache<String, bool>) -> nat;

/// The time in nanoseconds for which a cache of codes keeps an entry.
pub uninterp spec fn totp_cache_ttl(cache: moka::sync::Cache<(u128, String), ()>) -> nat;

/// The number of entries above which a cache of codes drops some.
pub uninterp spec fn totp_cache_capacity(cache: moka::sync::Cache<(u128, String), ()>) -> nat;

/// A length of time in nanoseconds.
pub open spec fn nanoseconds(secs: nat, nanos: nat) -> nat {
    secs * 1_000_000_000 + nanos
}

/// `moka::sync::Cache::builder`: an empty cache with the given time-to-live and capacity.
#[verifier::external_body]
fn new_text_cache(secs: u64, nanos: u32, capacity: u64) -> (cache: moka::sync::Cache<String, bool>)
    requires
        secs < MAX_TTL_SECS || (secs == MAX_TTL_SECS && nanos == 0),
        nanos < 1_000_000_000,
    ensures
        cache_ttl(cache) == nanoseconds(secs as nat, nanos as nat),
        cache_capacity(cache) == capacity,
{
    moka::sync::Cache::builder()
        .time_to_live(std::time::Duration::new(secs, nanos))
        .max_capacity(capacity)
        .build()
}

/// `moka::sync::Cache::builder`: an empty cache of codes with the given time-to-live and
/// capacity.
#[verifier::external_body]
fn new_code_cache(secs: u64, nanos: u32, capacity: u64) -> (cache: moka::sync::Cache<
    (u128, String),
    (),
>)
    requires
        secs < MAX_TTL_SECS || (secs == MAX_TTL_SECS && nanos == 0),
        nanos < 1_000_000_000,
    ensures
        totp_cache_ttl(cache) == nanoseconds(secs as nat, nanos as nat),
        totp_cache_capacity(cache) == capacity,
{
    moka::sync::Cache::builder()
        .time_to_live(std::time::Duration::new(secs, nanos))
        .max_capacity(capacity)
        .build()
}

/// What a lookup in a cache found. It comes from a lookup alone.
pub struct Lookup {
    cache: Ghost<moka::sync::Cache<String, bool>>,
    text: String,
    found: bool,
}

impl Lookup {
    /// The cache that was asked.
    pub closed spec fn cache(&self) -> moka::sync::Cache<String, bool> {
        self.cache@
    }

    /// The text that was looked up.
    pub closed spec fn text(&self) -> Seq<char> {
        self.text@
    }

    /// Whether the cache held the text.
    pub closed spec fn found(&self) -> bool {
        self.found
    }

    /// Whether the cache held the text.
    pub fn is_found(&self) -> (found: bool)
        ensures
            found == self.found(),
    {
        self.found
    }
}

/// An entry that was put into a cache. It comes from putting it there alone.
pub struct Entry {
    cache: Ghost<moka::sync::Cache<String, bool>>,
    text: String,
}

impl Entry {
    /// The cache that the text was put into.
    pub closed spec fn cache(&self) -> moka::sync::Cache<String, bool> {
        self.cache@
    }

    /// The text that was put into the cache.
    pub closed spec fn text(&self) -> Seq<char> {
        self.text@
    }
}

/// A claim on a text: an entry is made unless the cache holds the text. It comes from
/// claiming alone.
pub struct Claim {
    cache: Ghost<moka::sync::Cache<String, bool>>,
    text: String,
    fresh: bool,
}

impl Claim {
    /// The cache in which the claim was made.
    pub closed spec fn cache(&self) -> moka::sync::Cache<String, bool> {
        self.cache@
    }

    /// The text that was claimed.
    pub closed spec fn text(&self) -> Seq<char> {
        self.text@
    }

    /// Whether the text was new to the cache.
    pub closed spec fn fresh(&self) -> bool {
        self.fresh
    }

    /// Whether the text was new to the cache.
    pub fn is_fresh(&self) -> (fresh: bool)
        ensures
            fresh == self.fresh(),
    {
        self.fresh
    }
}

/// A claim on a code of a user. It comes from claiming alone.
pub struct CodeClaim {
    cache: Ghost<TotpReplayCache>,
    user_id: u128,
    code: String,
    fresh: bool,
}

impl CodeClaim {
    /// The claim on a code of a user.
    pub closed spec fn made(
        cache: TotpReplayCache,
        user_id: u128,
        code: String,
        fresh: bool,
    ) -> CodeClaim {
        CodeClaim { cache: Ghost(cache), user_id, code, fresh }
    }

    /// The cache in which the claim was made.
    pub closed spec fn cache(&self) -> TotpReplayCache {
        self.cache@
    }

    /// Whose code was claimed.
    pub closed spec fn user_id(&self) -> u128 {
        self.user_id
    }

    /// The code that was claimed.
    pub closed spec fn code(&self) -> Seq<char> {
        self.code@
    }

    /// Whether the code was new to the cache.
    pub closed spec fn fresh(&self) -> bool {
        self.fresh
    }

    /// Whether the code was new to the cache.
    pub fn is_fresh(&self) -> (fresh: bool)
        ensures
            fresh == self.fresh(),
    {
        self.fresh
    }

    /// A claim is on the code of the user that it was made on.
    pub proof fn lemma_made(cache: TotpReplayCache, user_id: u128, code: String, fresh: bool)
        ensures
            CodeClaim::made(cache, user_id, code, fresh).cache() == cache,
            CodeClaim::made(cache, user_id, code, fresh).user_id() == user_id,
            CodeClaim::made(cache, user_id, code, fresh).code() == code@,
            CodeClaim::made(cache, user_id, code, fresh).fresh() == fresh,
    {
    }
}

/// `moka::sync::Cache::contains_key`: whether the cache holds the text now. What is found
/// rests on the time and on what other handles did, and is not stated.
#[verifier::external_body]
pub(crate) fn holds(cache: &moka::sync::Cache<String, bool>, text: &str) -> (lookup: Lookup)
    ensures
        lookup.cache() == *cache,
        lookup.text() == text@,
{
    Lookup { cache: Ghost(*cache), text: text.to_string(), found: cache.contains_key(text) }
}

/// `moka::sync::Cache::insert`: puts a text into the cache.
#[verifier::external_body]
pub(crate) fn remember(cache: &moka::sync::Cache<String, bool>, text: &str) -> (entry: Entry)
    ensures
        entry.cache() == *cache,
        entry.text() == text@,
{
    cache.insert(text.to_string(), true);
    Entry { cache: Ghost(*cache), text: text.to_string() }
}

/// `moka::sync::Cache::entry_by_ref` with `or_insert_with`, which coalesces calls at once
/// on one key: puts a text into the cache unless it is there. Whether it was new rests on
/// the time and on what other handles did, and is not stated. Of several calls at once on
/// one new text one finds it new.
#[verifier::external_body]
pub(crate) fn claim(cache: &moka::sync::Cache<String, bool>, text: &str) -> (claim: Claim)
    ensures
        claim.cache() == *cache,
        claim.text() == text@,
{
    let fresh = cache.entry_by_ref(text).or_insert_with(|| true).is_fresh();
    Claim { cache: Ghost(*cache), text: text.to_string(), fresh }
}

/// `moka::sync::Cache::entry` with `or_insert_with` on the cache of used codes: puts a code
/// into it unless it is there. Whether it was new rests on the time and on what other
/// handles did, and is not stated. Of several calls at once on one new code one finds it
/// new.
#[verifier::external_body]
pub(crate) fn claim_code(cache: &TotpReplayCache, user_id: u128, code: &str) -> (claim: CodeClaim)
    ensures
        claim.cache() == *cache,
        claim.user_id() == user_id,
        claim.code() == code@,
{
    let fresh = cache.entry((user_id, code.to_string())).or_insert_with(|| ()).is_fresh();
    CodeClaim { cache: Ghost(*cache), user_id, code: code.to_string(), fresh }
}

/// `moka::sync::Cache::clone`: another handle to the same cache.
#[verifier::external_body]
pub(crate) fn share(cache: &moka::sync::Cache<String, bool>) -> (handle: moka::sync::Cache<
    String,
    bool,
>)
    ensures
        cache_ttl(handle) == cache_ttl(*cache),
        cache_capacity(handle) == cache_capacity(*cache),
{
    cache.clone()
}

/// Whether a cache can keep its entries for that long.
pub open spec fn is_cache_ttl(ttl: Duration) -> bool {
    duration_secs(ttl) < MAX_TTL_SECS || (duration_secs(ttl) == MAX_TTL_SECS && duration_nanos(ttl) == 0)
}

/// A [`JtiCache`] with the given time-to-live.
pub(crate) fn jti_cache_with(ttl: Duration) -> (cache: JtiCache)
    requires
        is_cache_ttl(ttl),
    ensures
        cache_ttl(cache) == nanoseconds(duration_secs(ttl) as nat, duration_nanos(ttl) as nat),
        cache_capacity(cache) == CACHE_CAPACITY,
{
    new_text_cache(ttl.as_secs(), ttl.subsec_nanos(), CACHE_CAPACITY)
}

/// Create a [`JtiCache`] for the default clock skew of 60 seconds.
pub fn create_jti_cache() -> (cache: JtiCache)
    ensures
        cache_ttl(cache) == nanoseconds(JTI_TTL_SECS as nat, 0),
        cache_capacity(cache) == CACHE_CAPACITY,
{
    new_text_cache(JTI_TTL_SECS, 0, CACHE_CAPACITY)
}

/// Create a [`NonceCache`] with a 300-second TTL.
pub fn create_nonce_cache() -> (cache: NonceCache)
    ensures
        cache_ttl(cache) == nanoseconds(NONCE_TTL_SECS as nat, 0),
        cache_capacity(cache) == CACHE_CAPACITY,
{
    new_text_cache(NONCE_TTL_SECS, 0, CACHE_CAPACITY)
}

/// Create a [`TotpReplayCache`] with a 90-second TTL.
pub fn create_totp_replay_cache() -> (cache: TotpReplayCache)
    ensures
        totp_cache_ttl(cache) == nanoseconds(TOTP_REPLAY_TTL_SECS as nat, 0),
        totp_cache_capacity(cache) == CACHE_CAPACITY,
{
    new_code_cache(TOTP_REPLAY_TTL_SECS, 0, CACHE_CAPACITY)
}

} // verus!
