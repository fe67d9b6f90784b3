use std::time::Duration;

use dpop_auth::config::{CookieConfig, DpopConfigBuilder, SameSite};
use dpop_auth::cookie::{find_cookie, read_cookie, refresh_token_cookie};
use dpop_auth::jose::{Algorithm, DecodingKey, EncodingKey};
use dpop_auth::{DpopConfig, DpopError, DpopState, TokenSigner};

fn base_builder() -> DpopConfigBuilder {
    DpopConfig::builder()
        .public_url("https://auth.example.com")
        .signer(TokenSigner::symmetric(b"test-secret"))
}

#[test]
fn builder_applies_defaults() {
    let config = base_builder().build().unwrap();

    assert_eq!(config.public_url, "https://auth.example.com");
    assert_eq!(config.issuer, "https://auth.example.com");
    assert_eq!(config.audience, "https://auth.example.com");
    assert_eq!(config.clock_skew, Duration::from_secs(60));
    assert!(!config.nonce_required);
    assert_eq!(
        config.allowed_algs,
        vec![Algorithm::ES256, Algorithm::PS256]
    );
    assert_eq!(config.access_token_ttl, Duration::from_secs(900));
    assert_eq!(
        config.refresh_token_ttl,
        Duration::from_secs(30 * 24 * 60 * 60)
    );
    assert_eq!(config.grace_period, Duration::from_secs(5));
    assert!(config.allow_registration);
}

#[test]
fn issuer_and_audience_override() {
    let config = base_builder()
        .issuer("https://issuer.example.com")
        .audience("my-api")
        .clock_skew(Duration::from_secs(120))
        .nonce_required(true)
        .build()
        .unwrap();

    assert_eq!(config.issuer, "https://issuer.example.com");
    assert_eq!(config.audience, "my-api");
    assert_eq!(config.clock_skew, Duration::from_secs(120));
    assert!(config.nonce_required);
}

#[test]
fn build_requires_public_url() {
    let result = DpopConfig::builder()
        .signer(TokenSigner::symmetric(b"secret"))
        .build();

    assert!(result.is_err());
}

#[test]
fn build_requires_signer() {
    let result = DpopConfig::builder()
        .public_url("https://auth.example.com")
        .build();

    assert!(matches!(result, Err(DpopError::Internal(_))));
}

#[test]
fn from_env_errors_without_vars() {
    assert!(DpopConfig::from_vars(None, None).is_err());
}

#[test]
fn variables_that_are_missing_are_named() {
    assert!(matches!(
        DpopConfig::from_vars(None, Some("secret")),
        Err(DpopError::Internal(text)) if text == "DPOP_PUBLIC_URL is not set"
    ));
    assert!(matches!(
        DpopConfig::from_vars(Some("https://auth.example.com"), None),
        Err(DpopError::Internal(text)) if text == "JWT_SECRET is not set"
    ));
    let config = DpopConfig::from_vars(Some("https://auth.example.com"), Some("secret")).unwrap();
    assert_eq!(config.issuer, "https://auth.example.com");
    assert_eq!(config.signer.algorithm(), Algorithm::HS256);
}

#[test]
fn signer_algorithm_is_correct() {
    assert_eq!(TokenSigner::symmetric(b"x").algorithm(), Algorithm::HS256);
}

#[test]
fn asymmetric_signer_uses_es256() {
    let signer = TokenSigner::asymmetric(
        EncodingKey::EcDer(vec![1, 2]),
        DecodingKey::Ec(vec![3, 4]),
    );
    assert_eq!(signer.algorithm(), Algorithm::ES256);
    assert!(matches!(signer.encoding_key(), EncodingKey::EcDer(der) if *der == vec![1, 2]));
    assert!(matches!(signer.decoding_key(), DecodingKey::Ec(point) if *point == vec![3, 4]));
}

#[test]
fn cookie_defaults() {
    let cookie = CookieConfig::default();

    assert_eq!(cookie.name, "__Host-dpop_refresh");
    assert!(cookie.secure);
    assert!(cookie.http_only);
    assert_eq!(cookie.same_site, SameSite::Strict);
}

#[test]
fn every_setting_is_kept() {
    let mut cookie = CookieConfig::default();
    cookie.path = "/".to_string();
    let config = base_builder()
        .allowed_algs(vec![Algorithm::EdDSA])
        .access_token_ttl(Duration::from_secs(1))
        .refresh_token_ttl(Duration::from_secs(2))
        .grace_period(Duration::from_millis(3))
        .allow_registration(false)
        .cookie(cookie)
        .build()
        .unwrap();

    assert_eq!(config.allowed_algs, vec![Algorithm::EdDSA]);
    assert_eq!(config.access_token_ttl, Duration::from_secs(1));
    assert_eq!(config.refresh_token_ttl, Duration::from_secs(2));
    assert_eq!(config.grace_period, Duration::from_millis(3));
    assert!(!config.allow_registration);
    assert_eq!(config.cookie.path, "/");
}

#[test]
fn state_shares_its_caches() {
    let state = DpopState::new(base_builder().build().unwrap());
    let other = state.clone();
    state.jti_cache.insert("jti".to_string(), true);
    state.nonce_cache.insert("nonce".to_string(), true);

    assert!(other.jti_cache.contains_key("jti"));
    assert!(other.nonce_cache.contains_key("nonce"));
    assert_eq!(
        state.jti_cache.policy().time_to_live(),
        Some(Duration::from_secs(125))
    );
}

#[test]
fn refresh_cookie_has_its_attributes() {
    assert_eq!(
        refresh_token_cookie(&CookieConfig::default(), "secret"),
        "__Host-dpop_refresh=secret; HttpOnly; SameSite=Strict; Secure; Path=/api/auth; \
         Max-Age=2592000"
    );

    let mut cookie = CookieConfig::default();
    cookie.name = "refresh".to_string();
    cookie.path = "/".to_string();
    cookie.secure = false;
    cookie.http_only = false;
    cookie.same_site = SameSite::Omitted;
    cookie.max_age = Duration::from_secs(60);
    assert_eq!(
        refresh_token_cookie(&cookie, "secret"),
        "refresh=secret; Path=/; Max-Age=60"
    );

    cookie.same_site = SameSite::Lax;
    assert_eq!(
        refresh_token_cookie(&cookie, "secret"),
        "refresh=secret; SameSite=Lax; Path=/; Max-Age=60"
    );
}

#[test]
fn cookies_are_found_by_name() {
    let header = "theme=dark; __Host-dpop_refresh=secret; theme=light";
    assert_eq!(read_cookie(header, "__Host-dpop_refresh").as_deref(), Some("secret"));
    assert_eq!(read_cookie(header, "theme").as_deref(), Some("dark"));
    assert_eq!(read_cookie(header, "other"), None);
    assert_eq!(read_cookie("", "other"), None);
    assert_eq!(read_cookie("broken; theme=dark", "theme").as_deref(), Some("dark"));
}

#[test]
fn the_first_readable_cookie_counts() {
    let cookies = vec![
        None,
        Some(("a".to_string(), "1".to_string())),
        Some(("b".to_string(), "2".to_string())),
        Some(("b".to_string(), "3".to_string())),
    ];
    assert_eq!(find_cookie(&cookies, "b").as_deref(), Some("2"));
    assert_eq!(find_cookie(&cookies, "c"), None);
}
