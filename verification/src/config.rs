//! Runtime configuration for the DPoP authentication library.

use std::sync::Arc;
use std::time::Duration;

use vstd::prelude::*;

use crate::crypto::constant_time_same;
use crate::error::{DpopError, DpopErrorView};
use crate::jose::{
    belongs_to, copy_bytes, is_public_key_of, Algorithm, DecodingKey, DecodingKeyView, EncodingKey,
    EncodingKeyView,
};
use crate::text::optional;
use crate::time::{duration_nanos, duration_secs};

pub mod laws;

verus! {

/// Signing strategy for access tokens.
///
/// - `Symmetric` signs and verifies with one shared secret (HS256).
///   Simple for a monolithic development.
/// - `Asymmetric` signs with a private key and verifies with the public key (ES256).
///   Resource servers then only need the public key, which enables
///   decentralized deployments.
pub enum TokenSigner {
    /// HMAC-SHA256 with a shared secret.
    Symmetric(Arc<EncodingKey>, Arc<DecodingKey>),
    /// ECDSA P-256 with a private/public key pair.
    Asymmetric(Arc<EncodingKey>, Arc<DecodingKey>),
}

/// A [`TokenSigner`] with the bytes of its keys as sequences.
#[verifier::ext_equal]
pub enum TokenSignerView {
    Symmetric(EncodingKeyView, DecodingKeyView),
    Asymmetric(EncodingKeyView, DecodingKeyView),
}

impl View for TokenSigner {
    type V = TokenSignerView;

    open spec fn view(&self) -> TokenSignerView {
        match *self {
            TokenSigner::Symmetric(signing, verifying) => TokenSignerView::Symmetric(
                signing@,
                verifying@,
            ),
            TokenSigner::Asymmetric(signing, verifying) => TokenSignerView::Asymmetric(
                signing@,
                verifying@,
            ),
        }
    }
}

/// The signer that signs and verifies with one secret.
pub open spec fn symmetric_signer(secret: Seq<u8>) -> TokenSignerView {
    TokenSignerView::Symmetric(EncodingKeyView::Secret(secret), DecodingKeyView::Secret(secret))
}

impl TokenSignerView {
    /// The algorithm of the signer.
    pub open spec fn algorithm(self) -> Algorithm {
        match self {
            TokenSignerView::Symmetric(_, _) => Algorithm::HS256,
            TokenSignerView::Asymmetric(_, _) => Algorithm::ES256,
        }
    }

    /// The key that signs.
    pub open spec fn encoding_key(self) -> EncodingKeyView {
        match self {
            TokenSignerView::Symmetric(key, _) => key,
            TokenSignerView::Asymmetric(key, _) => key,
        }
    }

    /// The key that verifies.
    pub open spec fn decoding_key(self) -> DecodingKeyView {
        match self {
            TokenSignerView::Symmetric(_, key) => key,
            TokenSignerView::Asymmetric(_, key) => key,
        }
    }

    /// Whether the keys belong together: one secret, or a private key and its public key.
    pub open spec fn is_key_pair(self) -> bool {
        match self {
            TokenSignerView::Symmetric(signing, verifying) => {
                &&& signing matches EncodingKeyView::Secret(secret)
                &&& verifying == DecodingKeyView::Secret(secret)
            },
            TokenSignerView::Asymmetric(signing, verifying) => is_public_key_of(
                verifying,
                signing,
            ),
        }
    }
}

impl TokenSigner {
    /// Create a symmetric (HS256) signer from a shared secret.
    pub fn symmetric(secret: &[u8]) -> (signer: TokenSigner)
        ensures
            signer@ == symmetric_signer(secret@),
    {
        TokenSigner::Symmetric(
            Arc::new(EncodingKey::Secret(copy_bytes(secret))),
            Arc::new(DecodingKey::Secret(copy_bytes(secret))),
        )
    }

    /// Create an asymmetric (ES256) signer from an EC key pair.
    pub fn asymmetric(encoding_key: EncodingKey, decoding_key: DecodingKey) -> (signer: TokenSigner)
        ensures
            signer@ == TokenSignerView::Asymmetric(encoding_key@, decoding_key@),
    {
        TokenSigner::Asymmetric(Arc::new(encoding_key), Arc::new(decoding_key))
    }

    /// Whether the keys belong together: one secret, or a private key and its public key.
    /// What the signer signs is then what it accepts.
    pub fn is_key_pair(&self) -> (pair: bool)
        ensures
            pair == self@.is_key_pair(),
    {
        match self {
            TokenSigner::Symmetric(_, _) => {
                if let (EncodingKey::Secret(one), DecodingKey::Secret(other)) = (
                    self.encoding_key(),
                    self.decoding_key(),
                ) {
                    constant_time_same(one, other)
                } else {
                    false
                }
            },
            TokenSigner::Asymmetric(_, _) => belongs_to(self.decoding_key(), self.encoding_key()),
        }
    }

    /// The JWS algorithm used by this signer.
    pub fn algorithm(&self) -> (algorithm: Algorithm)
        ensures
            algorithm == self@.algorithm(),
    {
        match self {
            TokenSigner::Symmetric(_, _) => Algorithm::HS256,
            TokenSigner::Asymmetric(_, _) => Algorithm::ES256,
        }
    }

    /// The key used to sign tokens (issuer side).
    pub fn encoding_key(&self) -> (key: &EncodingKey)
        ensures
            key@ == self@.encoding_key(),
    {
        match self {
            TokenSigner::Symmetric(key, _) => key,
            TokenSigner::Asymmetric(key, _) => key,
        }
    }

    /// The key used to verify tokens (resource server side).
    pub fn decoding_key(&self) -> (key: &DecodingKey)
        ensures
            key@ == self@.decoding_key(),
    {
        match self {
            TokenSigner::Symmetric(_, key) => key,
            TokenSigner::Asymmetric(_, key) => key,
        }
    }
}

impl Clone for TokenSigner {
    fn clone(&self) -> (copy: TokenSigner)
        ensures
            copy@ == self@,
    {
        match self {
            TokenSigner::Symmetric(signing, verifying) => TokenSigner::Symmetric(
                signing.clone(),
                verifying.clone(),
            ),
            TokenSigner::Asymmetric(signing, verifying) => TokenSigner::Asymmetric(
                signing.clone(),
                verifying.clone(),
            ),
        }
    }
}

/// The `SameSite` cookie attribute.
#[derive(Debug, Clone, Copy, PartialEq, Eq, Structural)]
#[non_exhaustive]
pub enum SameSite {
    /// `SameSite=Strict`.
    Strict,
    /// `SameSite=Lax`.
    Lax,
    /// No `SameSite` attribute.
    Omitted,
}

/// How the refresh token is delivered in a cookie.
#[derive(Debug, PartialEq, Eq)]
#[non_exhaustive]
pub struct CookieConfig {
    /// Cookie name, using the `__Host-` prefix
    /// for maximum isolation.
    pub name: String,
    /// Cookie path.
    pub path: String,
    /// `Secure` attribute.
    pub secure: bool,
    /// `HttpOnly` attribute.
    pub http_only: bool,
    /// `SameSite` attribute.
    pub same_site: SameSite,
    /// Cookie lifetime.
    pub max_age: Duration,
}

/// A [`CookieConfig`] with its texts as character sequences.
#[verifier::ext_equal]
pub struct CookieConfigView {
    pub name: Seq<char>,
    pub path: Seq<char>,
    pub secure: bool,
    pub http_only: bool,
    pub same_site: SameSite,
    pub max_age: Duration,
}

impl View for CookieConfig {
    type V = CookieConfigView;

    open spec fn view(&self) -> CookieConfigView {
        CookieConfigView {
            name: self.name@,
            path: self.path@,
            secure: self.secure,
            http_only: self.http_only,
            same_site: self.same_site,
            max_age: self.max_age,
        }
    }
}

impl Clone for CookieConfig {
    fn clone(&self) -> (copy: CookieConfig)
        ensures
            copy@ == self@,
    {
        CookieConfig {
            name: self.name.clone(),
            path: self.path.clone(),
            secure: self.secure,
            http_only: self.http_only,
            same_site: self.same_site,
            max_age: self.max_age,
        }
    }
}

/// Seconds in thirty days.
pub const THIRTY_DAYS_SECS: u64 = 2_592_000;

/// Whether a length of time is a whole number of seconds.
pub open spec fn is_secs(duration: Duration, secs: u64) -> bool {
    duration_secs(duration) == secs && duration_nanos(duration) == 0
}

/// Whether cookie settings are the default ones.
pub open spec fn is_default_cookie(cookie: CookieConfigView) -> bool {
    &&& cookie.name == "__Host-dpop_refresh"@
    &&& cookie.path == "/api/auth"@
    &&& cookie.secure
    &&& cookie.http_only
    &&& cookie.same_site == SameSite::Strict
    &&& is_secs(cookie.max_age, THIRTY_DAYS_SECS)
}

impl Default for CookieConfig {
    fn default() -> (cookie: CookieConfig)
        ensures
            is_default_cookie(cookie@),
    {
        CookieConfig {
            name: "__Host-dpop_refresh".to_owned(),
            path: "/api/auth".to_owned(),
            secure: true,
            http_only: true,
            same_site: SameSite::Strict,
            max_age: Duration::from_secs(THIRTY_DAYS_SECS),
        }
    }
}

/// Library-wide configuration.
///
/// Not constructed with a literal;
/// use [`DpopConfig::builder`].
/// New fields can be added in mirror releases.
#[non_exhaustive]
pub struct DpopConfig {
    /// Public base URL, used to build and check `htu` values.
    pub public_url: String,
    /// The `iss` claim of issued access tokens.
    pub issuer: String,
    /// The `aud` claim of issued access tokens.
    pub audience: String,
    /// Allowed clock drift when checking `iat` and `exp`.
    pub clock_skew: Duration,
    /// Whether a server-issued nonce is required in every proof.
    pub nonce_required: bool,
    /// JWS algorithms accepted for DPoP proofs.
    pub allowed_algs: Vec<Algorithm>,
    /// Signer used to issue and verify access tokens.
    pub signer: TokenSigner,
    /// Lifetime of access tokens.
    pub access_token_ttl: Duration,
    /// Lifetime of refresh tokens.
    pub refresh_token_ttl: Duration,
    /// Reuse-detection grace window for refresh token rotation.
    pub grace_period: Duration,
    /// Whether new users can register themselves.
    pub allow_registration: bool,
    /// Refresh-token cookie settings.
    pub cookie: CookieConfig,
}

/// A [`DpopConfig`] with its texts as character sequences.
#[verifier::ext_equal]
pub struct DpopConfigView {
    pub public_url: Seq<char>,
    pub issuer: Seq<char>,
    pub audience: Seq<char>,
    pub clock_skew: Duration,
    pub nonce_required: bool,
    pub allowed_algs: Seq<Algorithm>,
    pub signer: TokenSignerView,
    pub access_token_ttl: Duration,
    pub refresh_token_ttl: Duration,
    pub grace_period: Duration,
    pub allow_registration: bool,
    pub cookie: CookieConfigView,
}

impl View for DpopConfig {
    type V = DpopConfigView;

    open spec fn view(&self) -> DpopConfigView {
        DpopConfigView {
            public_url: self.public_url@,
            issuer: self.issuer@,
            audience: self.audience@,
            clock_skew: self.clock_skew,
            nonce_required: self.nonce_required,
            allowed_algs: self.allowed_algs@,
            signer: self.signer@,
            access_token_ttl: self.access_token_ttl,
            refresh_token_ttl: self.refresh_token_ttl,
            grace_period: self.grace_period,
            allow_registration: self.allow_registration,
            cookie: self.cookie@,
        }
    }
}

/// A copy of a list of algorithms.
fn copy_algorithms(algorithms: &Vec<Algorithm>) -> (copy: Vec<Algorithm>)
    ensures
        copy@ == algorithms@,
{
    let mut copy: Vec<Algorithm> = Vec::new();
    let mut i: usize = 0;
    while i < algorithms.len()
        invariant
            i <= algorithms@.len(),
            copy@ =~= algorithms@.take(i as int),
        decreases algorithms@.len() - i,
    {
        copy.push(algorithms[i]);
        i += 1;
    }
    assert(copy@ =~= algorithms@);
    copy
}

impl Clone for DpopConfig {
    fn clone(&self) -> (copy: DpopConfig)
        ensures
            copy@ == self@,
    {
        DpopConfig {
            public_url: self.public_url.clone(),
            issuer: self.issuer.clone(),
            audience: self.audience.clone(),
            clock_skew: self.clock_skew,
            nonce_required: self.nonce_required,
            allowed_algs: copy_algorithms(&self.allowed_algs),
            signer: self.signer.clone(),
            access_token_ttl: self.access_token_ttl,
            refresh_token_ttl: self.refresh_token_ttl,
            grace_period: self.grace_period,
            allow_registration: self.allow_registration,
            cookie: self.cookie.clone(),
        }
    }
}

impl DpopConfig {
    /// Start building a configuration.
    pub fn builder() -> (builder: DpopConfigBuilder)
        ensures
            is_default_builder(builder@),
    {
        DpopConfigBuilder::default()
    }

    /// Build a symmetric configuration from the values of `DPOP_PUBLIC_URL` and
    /// `JWT_SECRET`. Everything else uses builder defaults.
    pub fn from_vars(public_url: Option<&str>, secret: Option<&str>) -> (result: Result<
        DpopConfig,
        DpopError,
    >)
        ensures
            match result {
                Ok(config) => {
                    &&& public_url is Some && secret is Some
                    &&& config@.public_url == public_url->0@
                    &&& config@.issuer == public_url->0@
                    &&& config@.audience == public_url->0@
                    &&& config@.signer == symmetric_signer(crate::text::bytes_of(secret->0@))
                    &&& has_default_policy(config@)
                },
                Err(error) => error@ == DpopErrorView::Internal(
                    if public_url is None {
                        "DPOP_PUBLIC_URL is not set"@
                    } else {
                        "JWT_SECRET is not set"@
                    },
                ) && (public_url is None || secret is None),
            },
    {
        let public_url = match public_url {
            Some(text) => text,
            None => return Err(DpopError::Internal("DPOP_PUBLIC_URL is not set".to_owned())),
        };
        let secret = match secret {
            Some(text) => text,
            None => return Err(DpopError::Internal("JWT_SECRET is not set".to_owned())),
        };
        let signer = TokenSigner::symmetric(secret.as_bytes());
        DpopConfig::builder().public_url(public_url).signer(signer).build()
    }
}

/// Builder for [`DpopConfig`].
pub struct DpopConfigBuilder {
    public_url: Option<String>,
    issuer: Option<String>,
    audience: Option<String>,
    clock_skew: Duration,
    nonce_required: bool,
    allowed_algs: Vec<Algorithm>,
    signer: Option<TokenSigner>,
    access_token_ttl: Duration,
    refresh_token_ttl: Duration,
    grace_period: Duration,
    allow_registration: bool,
    cookie: CookieConfig,
}

/// A [`DpopConfigBuilder`] with its texts as character sequences.
#[verifier::ext_equal]
pub struct BuilderView {
    pub public_url: Option<Seq<char>>,
    pub issuer: Option<Seq<char>>,
    pub audience: Option<Seq<char>>,
    pub clock_skew: Duration,
    pub nonce_required: bool,
    pub allowed_algs: Seq<Algorithm>,
    pub signer: Option<TokenSignerView>,
    pub access_token_ttl: Duration,
    pub refresh_token_ttl: Duration,
    pub grace_period: Duration,
    pub allow_registration: bool,
    pub cookie: CookieConfigView,
}

impl View for DpopConfigBuilder {
    type V = BuilderView;

    closed spec fn view(&self) -> BuilderView {
        BuilderView {
            public_url: optional(self.public_url),
            issuer: optional(self.issuer),
            audience: optional(self.audience),
            clock_skew: self.clock_skew,
            nonce_required: self.nonce_required,
            allowed_algs: self.allowed_algs@,
            signer: match self.signer {
                Some(signer) => Some(signer@),
                None => None,
            },
            access_token_ttl: self.access_token_ttl,
            refresh_token_ttl: self.refresh_token_ttl,
            grace_period: self.grace_period,
            allow_registration: self.allow_registration,
            cookie: self.cookie@,
        }
    }
}

/// Whether the settings of a builder are the default ones.
pub open spec fn is_default_builder(builder: BuilderView) -> bool {
    &&& builder.public_url is None
    &&& builder.issuer is None
    &&& builder.audience is None
    &&& is_secs(builder.clock_skew, 60)
    &&& !builder.nonce_required
    &&& builder.allowed_algs == seq![Algorithm::ES256, Algorithm::PS256]
    &&& builder.signer is None
    &&& is_secs(builder.access_token_ttl, 900)
    &&& is_secs(builder.refresh_token_ttl, THIRTY_DAYS_SECS)
    &&& is_secs(builder.grace_period, 5)
    &&& builder.allow_registration
    &&& is_default_cookie(builder.cookie)
}

/// Whether all but the names and the signer of a configuration is the default.
pub open spec fn has_default_policy(config: DpopConfigView) -> bool {
    &&& is_secs(config.clock_skew, 60)
    &&& !config.nonce_required
    &&& config.allowed_algs == seq![Algorithm::ES256, Algorithm::PS256]
    &&& is_secs(config.access_token_ttl, 900)
    &&& is_secs(config.refresh_token_ttl, THIRTY_DAYS_SECS)
    &&& is_secs(config.grace_period, 5)
    &&& config.allow_registration
    &&& is_default_cookie(config.cookie)
}

/// The outcome of building a configuration: a public URL and a signer are required, and
/// the issuer and the audience are the public URL unless they are set.
pub open spec fn build_outcome(builder: BuilderView) -> Result<DpopConfigView, DpopErrorView> {
    match (builder.public_url, builder.signer) {
        (None, _) => Err(DpopErrorView::Internal("public_url is required"@)),
        (_, None) => Err(DpopErrorView::Internal("signer is required"@)),
        (Some(public_url), Some(signer)) => Ok(
            DpopConfigView {
                public_url,
                issuer: match builder.issuer {
                    Some(issuer) => issuer,
                    None => public_url,
                },
                audience: match builder.audience {
                    Some(audience) => audience,
                    None => public_url,
                },
                clock_skew: builder.clock_skew,
                nonce_required: builder.nonce_required,
                allowed_algs: builder.allowed_algs,
                signer,
                access_token_ttl: builder.access_token_ttl,
                refresh_token_ttl: builder.refresh_token_ttl,
                grace_period: builder.grace_period,
                allow_registration: builder.allow_registration,
                cookie: builder.cookie,
            },
        ),
    }
}

impl Default for DpopConfigBuilder {
    fn default() -> (builder: DpopConfigBuilder)
        ensures
            is_default_builder(builder@),
    {
        let mut allowed_algs: Vec<Algorithm> = Vec::new();
        allowed_algs.push(Algorithm::ES256);
        allowed_algs.push(Algorithm::PS256);
        assert(allowed_algs@ =~= seq![Algorithm::ES256, Algorithm::PS256]);
        DpopConfigBuilder {
            public_url: None,
            issuer: None,
            audience: None,
            clock_skew: Duration::from_secs(60),
            nonce_required: false,
            allowed_algs,
            signer: None,
            access_token_ttl: Duration::from_secs(900),
            refresh_token_ttl: Duration::from_secs(THIRTY_DAYS_SECS),
            grace_period: Duration::from_secs(5),
            allow_registration: true,
            cookie: CookieConfig::default(),
        }
    }
}

impl DpopConfigBuilder {
    /// Set the public base URL (required).
    pub fn public_url(self, value: &str) -> (builder: DpopConfigBuilder)
        ensures
            builder@ == (BuilderView { public_url: Some(value@), ..self@ }),
    {
        DpopConfigBuilder { public_url: Some(value.to_owned()), ..self }
    }

    /// Set the issuer; defaults to the public URL.
    pub fn issuer(self, value: &str) -> (builder: DpopConfigBuilder)
        ensures
            builder@ == (BuilderView { issuer: Some(value@), ..self@ }),
    {
        DpopConfigBuilder { issuer: Some(value.to_owned()), ..self }
    }

    /// Set the audience; defaults to the public URL.
    pub fn audience(self, value: &str) -> (builder: DpopConfigBuilder)
        ensures
            builder@ == (BuilderView { audience: Some(value@), ..self@ }),
    {
        DpopConfigBuilder { audience: Some(value.to_owned()), ..self }
    }

    /// Set the allowed clock skew.
    pub fn clock_skew(self, value: Duration) -> (builder: DpopConfigBuilder)
        ensures
            builder@ == (BuilderView { clock_skew: value, ..self@ }),
    {
        DpopConfigBuilder { clock_skew: value, ..self }
    }

    /// Set whether proofs must carry a nonce.
    pub fn nonce_required(self, value: bool) -> (builder: DpopConfigBuilder)
        ensures
            builder@ == (BuilderView { nonce_required: value, ..self@ }),
    {
        DpopConfigBuilder { nonce_required: value, ..self }
    }

    /// Set the accepted proof algorithms.
    pub fn allowed_algs(self, value: Vec<Algorithm>) -> (builder: DpopConfigBuilder)
        ensures
            builder@ == (BuilderView { allowed_algs: value@, ..self@ }),
    {
        DpopConfigBuilder { allowed_algs: value, ..self }
    }

    /// Set the access-token signer (required).
    pub fn signer(self, value: TokenSigner) -> (builder: DpopConfigBuilder)
        ensures
            builder@ == (BuilderView { signer: Some(value@), ..self@ }),
    {
        DpopConfigBuilder { signer: Some(value), ..self }
    }

    /// Set the access-token lifetime.
    pub fn access_token_ttl(self, value: Duration) -> (builder: DpopConfigBuilder)
        ensures
            builder@ == (BuilderView { access_token_ttl: value, ..self@ }),
    {
        DpopConfigBuilder { access_token_ttl: value, ..self }
    }

    /// Set the refresh-token lifetime.
    pub fn refresh_token_ttl(self, value: Duration) -> (builder: DpopConfigBuilder)
        ensures
            builder@ == (BuilderView { refresh_token_ttl: value, ..self@ }),
    {
        DpopConfigBuilder { refresh_token_ttl: value, ..self }
    }

    /// Set the refresh-token rotation grace period.
    pub fn grace_period(self, value: Duration) -> (builder: DpopConfigBuilder)
        ensures
            builder@ == (BuilderView { grace_period: value, ..self@ }),
    {
        DpopConfigBuilder { grace_period: value, ..self }
    }

    /// Set whether self-registration is allowed.
    pub fn allow_registration(self, value: bool) -> (builder: DpopConfigBuilder)
        ensures
            builder@ == (BuilderView { allow_registration: value, ..self@ }),
    {
        DpopConfigBuilder { allow_registration: value, ..self }
    }

    /// Set the refresh-token cookie settings.
    pub fn cookie(self, value: CookieConfig) -> (builder: DpopConfigBuilder)
        ensures
            builder@ == (BuilderView { cookie: value@, ..self@ }),
    {
        DpopConfigBuilder { cookie: value, ..self }
    }

    /// Build the configuration.
    pub fn build(self) -> (result: Result<DpopConfig, DpopError>)
        ensures
            crate::text::outcome(result) == build_outcome(self@),
    {
        let public_url = match self.public_url {
            Some(text) => text,
            None => return Err(DpopError::Internal("public_url is required".to_owned())),
        };
        let signer = match self.signer {
            Some(signer) => signer,
            None => return Err(DpopError::Internal("signer is required".to_owned())),
        };
        let issuer = match self.issuer {
            Some(text) => text,
            None => public_url.clone(),
        };
        let audience = match self.audience {
            Some(text) => text,
            None => public_url.clone(),
        };
        Ok(
            DpopConfig {
                public_url,
                issuer,
                audience,
                clock_skew: self.clock_skew,
                nonce_required: self.nonce_required,
                allowed_algs: self.allowed_algs,
                signer,
                access_token_ttl: self.access_token_ttl,
                refresh_token_ttl: self.refresh_token_ttl,
                grace_period: self.grace_period,
                allow_registration: self.allow_registration,
                cookie: self.cookie,
            },
        )
    }
}

} // verus!
