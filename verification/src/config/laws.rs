//! What holds of a configuration: where its settings come from.

use vstd::prelude::*;

use crate::config::{
    CookieConfig, DpopConfig, DpopConfigBuilder, SameSite, TokenSigner, TokenSignerView,
};
use crate::error::DpopError;
use crate::jose::{Algorithm, DecodingKeyView, EncodingKeyView};
use crate::text::bytes_of;
use crate::time::{duration_nanos, duration_secs};

verus! {

/// A configuration has each setting of its builder; without an issuer or an audience the
/// public URL stands for it.
pub proof fn law_configuration_has_the_settings(builder: DpopConfigBuilder, config: DpopConfig)
    requires
        call_ensures(DpopConfigBuilder::build, (builder,), Ok(config)),
    ensures
        builder@.public_url == Some(config.public_url@),
        config.issuer@ == (if builder@.issuer is Some {
            builder@.issuer->0
        } else {
            config.public_url@
        }),
        config.audience@ == (if builder@.audience is Some {
            builder@.audience->0
        } else {
            config.public_url@
        }),
        config.clock_skew == builder@.clock_skew,
        config.nonce_required == builder@.nonce_required,
        config.allowed_algs@ == builder@.allowed_algs,
        builder@.signer == Some(config.signer@),
        config.access_token_ttl == builder@.access_token_ttl,
        config.refresh_token_ttl == builder@.refresh_token_ttl,
        config.grace_period == builder@.grace_period,
        config.allow_registration == builder@.allow_registration,
        config.cookie@ == builder@.cookie,
{
    assert(config@.public_url == config.public_url@);
    assert(config@.cookie == config.cookie@);
}

/// A configuration is built exactly where there are a public URL and a signer.
pub proof fn law_configuration_needs_a_url_and_a_signer(
    builder: DpopConfigBuilder,
    result: Result<DpopConfig, DpopError>,
)
    requires
        call_ensures(DpopConfigBuilder::build, (builder,), result),
    ensures
        result is Ok <==> builder@.public_url is Some && builder@.signer is Some,
{
}

/// The settings that nobody sets: one minute of drift, no nonce, ES256 and PS256, access
/// tokens for 15 minutes, refresh tokens for 30 days, five seconds of grace, registration
/// open, and a refresh cookie that is sent to `/api/auth` alone, over secure connections, to
/// no script and from no other site.
pub proof fn law_defaults(builder: DpopConfigBuilder)
    requires
        call_ensures(DpopConfig::builder, (), builder),
    ensures
        builder@.public_url is None && builder@.issuer is None && builder@.audience is None,
        builder@.signer is None,
        duration_secs(builder@.clock_skew) == 60 && duration_nanos(builder@.clock_skew) == 0,
        !builder@.nonce_required,
        builder@.allowed_algs == seq![Algorithm::ES256, Algorithm::PS256],
        duration_secs(builder@.access_token_ttl) == 900,
        duration_secs(builder@.refresh_token_ttl) == 2_592_000,
        duration_secs(builder@.grace_period) == 5 && duration_nanos(builder@.grace_period) == 0,
        builder@.allow_registration,
        builder@.cookie.name == "__Host-dpop_refresh"@,
        builder@.cookie.path == "/api/auth"@,
        builder@.cookie.secure && builder@.cookie.http_only,
        builder@.cookie.same_site == SameSite::Strict,
        duration_secs(builder@.cookie.max_age) == 2_592_000,
{
}

/// A configuration from variables has the URL as its public URL, its issuer and its
/// audience, and signs with the secret.
pub proof fn law_variables_make_a_configuration(
    public_url: &str,
    secret: &str,
    result: Result<DpopConfig, DpopError>,
)
    requires
        call_ensures(DpopConfig::from_vars, (Some(public_url), Some(secret)), result),
    ensures
        result matches Ok(config) && {
            &&& config.public_url@ == public_url@
            &&& config.issuer@ == public_url@
            &&& config.audience@ == public_url@
            &&& config.signer@ == TokenSignerView::Symmetric(
                EncodingKeyView::Secret(bytes_of(secret@)),
                DecodingKeyView::Secret(bytes_of(secret@)),
            )
            &&& duration_secs(config.clock_skew) == 60
            &&& duration_secs(config.access_token_ttl) == 900
            &&& duration_secs(config.refresh_token_ttl) == 2_592_000
        },
{
    let config = result->Ok_0;
    assert(config@.public_url == config.public_url@);
}

/// A shared secret signs and verifies with HS256, a key pair with ES256, each with its own
/// keys.
pub proof fn law_signer_uses_its_keys(signer: TokenSigner, algorithm: Algorithm)
    requires
        call_ensures(TokenSigner::algorithm, (&signer,), algorithm),
    ensures
        signer matches TokenSigner::Symmetric(signing, verifying) ==> {
            &&& algorithm == Algorithm::HS256
            &&& signer@.encoding_key() == signing@
            &&& signer@.decoding_key() == verifying@
        },
        signer matches TokenSigner::Asymmetric(signing, verifying) ==> {
            &&& algorithm == Algorithm::ES256
            &&& signer@.encoding_key() == signing@
            &&& signer@.decoding_key() == verifying@
        },
        signer@.algorithm() == algorithm,
{
}

/// What is said of a configuration is said of its fields.
pub proof fn law_views_show_the_fields(config: DpopConfig, cookie: CookieConfig)
    ensures
        config@.public_url == config.public_url@,
        config@.issuer == config.issuer@,
        config@.audience == config.audience@,
        config@.clock_skew == config.clock_skew,
        config@.nonce_required == config.nonce_required,
        config@.allowed_algs == config.allowed_algs@,
        config@.signer == config.signer@,
        config@.access_token_ttl == config.access_token_ttl,
        config@.refresh_token_ttl == config.refresh_token_ttl,
        config@.grace_period == config.grace_period,
        config@.allow_registration == config.allow_registration,
        config@.cookie == config.cookie@,
        cookie@.name == cookie.name@,
        cookie@.path == cookie.path@,
        cookie@.secure == cookie.secure,
        cookie@.http_only == cookie.http_only,
        cookie@.same_site == cookie.same_site,
        cookie@.max_age == cookie.max_age,
{
}

} // verus!
