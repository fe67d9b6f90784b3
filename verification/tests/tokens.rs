use std::time::Duration;

use dpop_auth::jose::{Algorithm, DecodingKey, EncodingKey};
use dpop_auth::json::JsonMap;
use dpop_auth::token::{
    issue_access_token, issue_access_token_at, judge_claims, verify_access_token,
    verify_access_token_at, AccessTokenClaims, Confirmation,
};
use dpop_auth::{DpopError, TokenSigner};
use p256::ecdsa::SigningKey;
use p256::elliptic_curve::Generate;
use p256::pkcs8::EncodePrivateKey;
use p256::SecretKey;
use serde_json::value::RawValue;

const ISSUER: &str = "https://auth.example.com";

fn signer() -> TokenSigner {
    TokenSigner::symmetric(b"test-secret")
}

fn issue_at(signer: &TokenSigner, ttl: u64, now: u64, extra: JsonMap) -> String {
    issue_access_token_at(
        signer,
        ISSUER,
        "api",
        Duration::from_secs(ttl),
        "user-1",
        "thumbprint",
        extra,
        now,
        "jti-1".to_string(),
    )
    .unwrap()
}

fn verify_at(signer: &TokenSigner, token: &str, now: u64) -> Result<AccessTokenClaims, DpopError> {
    verify_access_token_at(
        signer.algorithm(),
        signer.decoding_key(),
        token,
        ISSUER,
        "api",
        Duration::from_secs(60),
        now,
    )
}

#[test]
fn an_issued_token_verifies() {
    let mut extra = JsonMap::new();
    assert!(extra.insert("role", "\"admin\""));
    assert!(extra.insert("tenants", "[1, 2]"));
    let token = issue_at(&signer(), 900, 1_000, extra);
    let claims = verify_at(&signer(), &token, 1_000).unwrap();

    assert_eq!(claims.sub, "user-1");
    assert_eq!(claims.iss, ISSUER);
    assert_eq!(claims.aud, "api");
    assert_eq!(claims.iat, 1_000);
    assert_eq!(claims.exp, 1_900);
    assert_eq!(claims.jti, "jti-1");
    assert_eq!(claims.cnf.jkt, "thumbprint");
    assert_eq!(claims.extra.get("role").as_deref(), Some("\"admin\""));
    assert_eq!(claims.extra.get("tenants").as_deref(), Some("[1, 2]"));
    assert_eq!(claims.extra.get("sub"), None);
    assert_eq!(claims.extra.entries().len(), 2);
}

#[test]
fn any_text_comes_back_from_a_token() {
    let token = issue_access_token_at(
        &signer(),
        ISSUER,
        "api",
        Duration::from_secs(900),
        "\"quoted\" \\ \u{1F600}\n",
        "thumbprint",
        JsonMap::new(),
        1_000,
        "jti-1".to_string(),
    )
    .unwrap();
    assert_eq!(
        verify_at(&signer(), &token, 1_000).unwrap().sub,
        "\"quoted\" \\ \u{1F600}\n"
    );
}

fn signed_text(claims: &str) -> String {
    let header = jsonwebtoken::Header::new(jsonwebtoken::Algorithm::HS256);
    let key = jsonwebtoken::EncodingKey::from_secret(b"test-secret");
    let claims = RawValue::from_string(claims.to_string()).unwrap();

    jsonwebtoken::encode(&header, &claims, &key).unwrap()
}

#[test]
fn a_token_names_each_claim_once() {
    let rest = r#""sub":"u","iss":"https://auth.example.com","aud":"api","exp":2000,"iat":1000"#;
    let token = signed_text(&format!(
        r#"{{{},"jti":"j","cnf":{{"jkt":"t","x":1}},"role":"a","role":"b"}}"#,
        rest
    ));
    let claims = verify_at(&signer(), &token, 1_000).unwrap();
    assert_eq!(claims.cnf.jkt, "t");
    assert_eq!(claims.extra.get("role").as_deref(), Some("\"b\""));

    let token = signed_text(&format!(r#"{{{},"jti":"j","cnf":["t"]}}"#, rest));
    assert_eq!(verify_at(&signer(), &token, 1_000).unwrap().cnf.jkt, "t");

    let token = signed_text(&format!(
        r#"{{{},"jti":"j","cnf":{{"jkt":"t"}},"jti":"k"}}"#,
        rest
    ));
    match verify_at(&signer(), &token, 1_000) {
        Err(DpopError::InvalidSignature(message)) => {
            assert_eq!(message, "JSON error: duplicate field `jti`");
        }
        _ => panic!("two identifiers"),
    }

    let token = signed_text(&format!(
        r#"{{{},"jti":"j","cnf":{{"jkt":"t","jkt":"other"}}}}"#,
        rest
    ));
    match verify_at(&signer(), &token, 1_000) {
        Err(DpopError::InvalidSignature(message)) => {
            assert_eq!(message, "JSON error: duplicate field `jkt`");
        }
        _ => panic!("two thumbprints"),
    }
}

#[test]
fn reserved_claims_belong_to_the_library() {
    let mut extra = JsonMap::new();
    assert!(extra.insert("sub", "\"user-2\""));
    assert!(extra.insert("exp", "9999999999"));
    assert!(extra.insert("cnf", "{\"jkt\":\"other\"}"));
    let token = issue_at(&signer(), 900, 1_000, extra);
    let claims = verify_at(&signer(), &token, 1_000).unwrap();

    assert_eq!(claims.sub, "user-1");
    assert_eq!(claims.exp, 1_900);
    assert_eq!(claims.cnf.jkt, "thumbprint");
    assert_eq!(claims.extra.entries().len(), 0);
}

#[test]
fn an_application_may_set_a_scalar_nbf() {
    for json in ["9999999999", "-1", "1.5", "\"soon\"", "true", "null"] {
        let mut extra = JsonMap::new();
        assert!(extra.insert("nbf", json));
        let token = issue_at(&signer(), 900, 1_000, extra);
        let claims = verify_at(&signer(), &token, 1_000).unwrap();
        assert_eq!(claims.extra.get("nbf").as_deref(), Some(json));
    }
}

#[test]
fn a_token_lives_up_to_its_expiry_and_the_skew() {
    let token = issue_at(&signer(), 900, 1_000, JsonMap::new());

    assert!(verify_at(&signer(), &token, 0).is_ok());
    assert!(verify_at(&signer(), &token, 1_960).is_ok());
    assert!(matches!(verify_at(&signer(), &token, 1_961), Err(DpopError::Expired)));
}

#[test]
fn an_endless_lifetime_ends_with_the_clock() {
    let token = issue_at(&signer(), u64::MAX, 1_000, JsonMap::new());
    let claims = verify_at(&signer(), &token, u64::MAX).unwrap();
    assert_eq!(claims.exp, u64::MAX);
}

#[test]
fn a_token_is_for_its_issuer_and_audience() {
    let token = issue_at(&signer(), 900, 1_000, JsonMap::new());
    let verify = |issuer: &str, audience: &str| {
        verify_access_token_at(
            Algorithm::HS256,
            signer().decoding_key(),
            &token,
            issuer,
            audience,
            Duration::from_secs(60),
            1_000,
        )
    };

    assert!(verify(ISSUER, "api").is_ok());
    assert!(matches!(
        verify("https://other.example.com", "api"),
        Err(DpopError::InvalidSignature(text)) if text == "InvalidIssuer"
    ));
    assert!(matches!(
        verify(ISSUER, "web"),
        Err(DpopError::InvalidSignature(text)) if text == "InvalidAudience"
    ));
}

#[test]
fn a_token_of_another_key_is_refused() {
    let token = issue_at(&signer(), 900, 1_000, JsonMap::new());

    assert!(matches!(
        verify_at(&TokenSigner::symmetric(b"other-secret"), &token, 1_000),
        Err(DpopError::InvalidSignature(_))
    ));
    assert!(matches!(
        verify_at(&signer(), "no.such.token", 1_000),
        Err(DpopError::InvalidSignature(_))
    ));
    let mut forged = token.clone();
    forged.push('A');
    assert!(verify_at(&signer(), &forged, 1_000).is_err());
}

#[test]
fn a_key_pair_signs_and_verifies() {
    let secret = SecretKey::generate();
    let point = SigningKey::from(&secret).verifying_key().to_sec1_point(false);
    let pair = TokenSigner::asymmetric(
        EncodingKey::EcDer(secret.to_pkcs8_der().unwrap().as_bytes().to_vec()),
        DecodingKey::Ec(point.as_bytes().to_vec()),
    );
    let token = issue_at(&pair, 900, 1_000, JsonMap::new());

    let claims = verify_at(&pair, &token, 1_000).unwrap();
    assert_eq!(claims.sub, "user-1");
    assert_eq!(claims.cnf.jkt, "thumbprint");
    assert_eq!(claims.exp, 1_900);
    assert!(verify_at(&signer(), &token, 1_000).is_err());
}

#[test]
fn keys_that_belong_together_are_told_apart() {
    let pair = |secret: &SecretKey, public: &SecretKey, compressed: bool| {
        let point = SigningKey::from(public).verifying_key().to_sec1_point(compressed);
        TokenSigner::asymmetric(
            EncodingKey::EcDer(secret.to_pkcs8_der().unwrap().as_bytes().to_vec()),
            DecodingKey::Ec(point.as_bytes().to_vec()),
        )
    };
    let (one, other) = (SecretKey::generate(), SecretKey::generate());
    assert!(pair(&one, &one, false).is_key_pair());
    assert!(!pair(&one, &other, false).is_key_pair());
    assert!(!pair(&one, &one, true).is_key_pair());
    assert!(signer().is_key_pair());
    let broken = TokenSigner::asymmetric(
        EncodingKey::EcDer(vec![1, 2, 3]),
        DecodingKey::Ec(vec![4; 65]),
    );
    assert!(!broken.is_key_pair());
    assert!(!TokenSigner::asymmetric(EncodingKey::Secret(vec![1]), DecodingKey::Secret(vec![1]))
        .is_key_pair());

    let token = issue_at(&pair(&one, &one, false), 900, 1_000, JsonMap::new());
    assert!(verify_at(&pair(&one, &one, false), &token, 1_000).is_ok());
    assert!(matches!(
        verify_at(&pair(&one, &other, false), &token, 1_000),
        Err(DpopError::InvalidSignature(_))
    ));
}

#[test]
fn a_short_eddsa_key_verifies_nothing() {
    let token = "eyJhbGciOiJFZERTQSJ9.e30.AAAA";
    let verify = |len: usize| {
        verify_access_token_at(
            Algorithm::EdDSA,
            &DecodingKey::Ed(vec![1; len]),
            token,
            ISSUER,
            "api",
            Duration::from_secs(60),
            1_000,
        )
    };
    for len in [0, 31] {
        assert!(matches!(
            verify(len),
            Err(DpopError::InvalidSignature(text)) if text == "InvalidEddsaKey"
        ));
    }
    assert!(matches!(verify(32), Err(DpopError::InvalidSignature(_))));
    assert!(matches!(verify(40), Err(DpopError::InvalidSignature(_))));
}

fn claims_until(exp: u64) -> AccessTokenClaims {
    AccessTokenClaims {
        sub: "u".to_string(),
        iss: ISSUER.to_string(),
        aud: "api".to_string(),
        exp,
        iat: 0,
        jti: "j".to_string(),
        cnf: Confirmation { jkt: "t".to_string() },
        extra: JsonMap::new(),
    }
}

#[test]
fn claims_are_judged() {
    let judge = |exp: u64, issuer: &str, audience: &str, now: u64| {
        judge_claims(claims_until(exp), issuer, audience, Duration::from_secs(10), now)
    };
    assert_eq!(judge(100, ISSUER, "api", 110).unwrap().sub, "u");
    assert!(matches!(judge(100, "other", "web", 111), Err(DpopError::Expired)));
    assert!(matches!(
        judge(100, "other", "web", 110),
        Err(DpopError::InvalidSignature(text)) if text == "InvalidIssuer"
    ));
    assert!(matches!(
        judge(100, ISSUER, "web", 110),
        Err(DpopError::InvalidSignature(text)) if text == "InvalidAudience"
    ));
    assert!(judge(u64::MAX, ISSUER, "api", u64::MAX).is_ok());
}

#[test]
fn a_broken_key_signs_nothing() {
    let pair = TokenSigner::asymmetric(EncodingKey::EcDer(vec![1]), DecodingKey::Ec(vec![2]));
    assert!(matches!(
        issue_access_token(
            &pair,
            ISSUER,
            "api",
            Duration::from_secs(900),
            "user-1",
            "thumbprint",
            JsonMap::new(),
        ),
        Err(DpopError::Internal(_))
    ));
}

#[test]
fn tokens_are_issued_now_and_never_alike() {
    let issue = || {
        issue_access_token(
            &signer(),
            ISSUER,
            "api",
            Duration::from_secs(900),
            "user-1",
            "thumbprint",
            JsonMap::new(),
        )
        .unwrap()
    };
    let verify = |token: &str| {
        verify_access_token(
            Algorithm::HS256,
            signer().decoding_key(),
            token,
            ISSUER,
            "api",
            Duration::from_secs(60),
        )
        .unwrap()
    };
    let (one, other) = (verify(&issue()), verify(&issue()));

    assert_eq!(one.exp, one.iat + 900);
    assert!(one.iat <= jsonwebtoken::get_current_timestamp());
    assert_ne!(one.jti, other.jti);
    assert_eq!(one.jti.len(), 36);
}

#[test]
fn claims_and_members_correspond() {
    let claims = AccessTokenClaims {
        sub: "user-1".to_string(),
        iss: ISSUER.to_string(),
        aud: "api".to_string(),
        exp: 2,
        iat: 1,
        jti: "jti-1".to_string(),
        cnf: Confirmation { jkt: "thumbprint".to_string() },
        extra: JsonMap::new(),
    };
    let members = claims.to_members();
    assert_eq!(members.get("sub").as_deref(), Some("\"user-1\""));
    assert_eq!(members.get("exp").as_deref(), Some("2"));
    assert_eq!(members.get("cnf").as_deref(), Some("{\"jkt\":\"thumbprint\"}"));

    let mut broken = members.clone();
    broken.remove("cnf");
    assert!(AccessTokenClaims::from_members(broken).is_err());
    let mut broken = members.clone();
    assert!(broken.insert("cnf", "[]"));
    assert!(AccessTokenClaims::from_members(broken).is_err());
    let back = AccessTokenClaims::from_members(members).unwrap();
    assert_eq!(back.cnf.jkt, "thumbprint");
    assert_eq!(back.exp, 2);
}
