use std::time::Duration;

use base64ct::{Base64UrlUnpadded, Encoding};
use dpop_auth::crypto::{compute_ath, compute_jwk_thumbprint};
use dpop_auth::dpop::{validate_dpop_proof, DpopClaims, ValidatedProof, ValidationContext};
use dpop_auth::extractor::ValidatedSession;
use dpop_auth::json::JsonMap;
use dpop_auth::middleware::{
    authenticate, authorize, bind_session, build_htu, exactly_one_dpop_header, extract,
    header_text, Credentials, RequestHead,
};
use dpop_auth::token::{issue_access_token, AccessTokenClaims, Confirmation};
use dpop_auth::{
    cache, DpopConfig, DpopError, DpopSession, DpopState, FromExtra, Jwk, TokenSigner,
};
use jsonwebtoken::jwk::{
    AlgorithmParameters, EllipticCurve, EllipticCurveKeyParameters, EllipticCurveKeyType,
};
use jsonwebtoken::{encode, EncodingKey, Header};
use p256::ecdsa::SigningKey;
use p256::elliptic_curve::Generate;
use p256::pkcs8::EncodePrivateKey;
use p256::SecretKey;
use serde_json::Value;

const PUBLIC_URL: &str = "https://example.com";

struct TestClient {
    secret: SecretKey,
    jwk: jsonwebtoken::jwk::Jwk,
    thumbprint: String,
}

impl TestClient {
    fn new() -> Self {
        let secret = SecretKey::generate();
        let signing_key = SigningKey::from(&secret);
        let point = signing_key.verifying_key().to_sec1_point(false);

        let jwk = jsonwebtoken::jwk::Jwk {
            common: Default::default(),
            algorithm: AlgorithmParameters::EllipticCurve(EllipticCurveKeyParameters {
                key_type: EllipticCurveKeyType::EC,
                curve: EllipticCurve::P256,
                x: Base64UrlUnpadded::encode_string(point.x().unwrap()),
                y: Base64UrlUnpadded::encode_string(point.y().unwrap()),
            }),
        };
        let thumbprint = compute_jwk_thumbprint(&Jwk {
            json: serde_json::to_string(&jwk).unwrap(),
        })
        .unwrap();

        Self { secret, jwk, thumbprint }
    }

    fn sign_proof(
        &self,
        htm: &str,
        htu: &str,
        access_token: Option<&str>,
        nonce: Option<&str>,
    ) -> String {
        let mut claims = serde_json::Map::new();
        claims.insert("htm".to_string(), Value::from(htm));
        claims.insert("htu".to_string(), Value::from(htu));
        claims.insert(
            "iat".to_string(),
            Value::from(jsonwebtoken::get_current_timestamp()),
        );
        claims.insert("jti".to_string(), Value::from(uuid::Uuid::new_v4().to_string()));
        if let Some(n) = nonce {
            claims.insert("nonce".to_string(), Value::from(n));
        }
        if let Some(token) = access_token {
            claims.insert("ath".to_string(), Value::from(compute_ath(token)));
        }

        let mut header = Header::new(jsonwebtoken::Algorithm::ES256);
        header.typ = Some("dpop+jwt".to_string());
        header.jwk = Some(self.jwk.clone());

        let der = self.secret.to_pkcs8_der().unwrap();
        let key = EncodingKey::from_ec_der(der.as_bytes());

        encode(&header, &Value::Object(claims), &key).unwrap()
    }
}

fn config(nonce_required: bool) -> DpopConfig {
    DpopConfig::builder()
        .public_url(PUBLIC_URL)
        .issuer(PUBLIC_URL)
        .audience(PUBLIC_URL)
        .signer(TokenSigner::symmetric(b"test-secret"))
        .nonce_required(nonce_required)
        .build()
        .unwrap()
}

fn state(nonce_required: bool) -> DpopState {
    DpopState::new(config(nonce_required))
}

fn issue(jkt: &str, sub: &str, extra: JsonMap) -> String {
    let config = config(false);
    issue_access_token(
        &config.signer,
        &config.issuer,
        &config.audience,
        Duration::from_secs(900),
        sub,
        jkt,
        extra,
    )
    .unwrap()
}

fn head(token: &str, proof: &str) -> RequestHead {
    RequestHead {
        authorization: Some(format!("DPoP {}", token).into_bytes()),
        dpop: vec![proof.as_bytes().to_vec()],
        method: "GET".to_string(),
        path: "/resource".to_string(),
    }
}

/// The status of the response to a request, with its challenge and nonce.
fn response(state: &DpopState, head: &RequestHead) -> (u16, Option<String>, Option<String>) {
    match authorize(state, head) {
        Ok(_) => (200, None, None),
        Err(error) => {
            let rejection = error.rejection();
            (rejection.status, Some(rejection.challenge), rejection.nonce)
        }
    }
}

#[test]
fn valid_request_accepted() {
    let client = TestClient::new();
    let token = issue(&client.thumbprint, "user-1", JsonMap::new());
    let proof = client.sign_proof("GET", "https://example.com/resource", Some(&token), None);

    assert_eq!(response(&state(false), &head(&token, &proof)).0, 200);
}

#[test]
fn missing_authorization_rejected() {
    let client = TestClient::new();
    let token = issue(&client.thumbprint, "user-1", JsonMap::new());
    let proof = client.sign_proof("GET", "https://example.com/resource", Some(&token), None);

    let mut head = head(&token, &proof);
    head.authorization = None;

    let (status, challenge, _) = response(&state(false), &head);
    assert_eq!(status, 401);
    assert_eq!(challenge.unwrap(), r#"DPoP error="invalid_dpop_proof""#);
}

#[test]
fn missing_proof_rejected() {
    let client = TestClient::new();
    let token = issue(&client.thumbprint, "user-1", JsonMap::new());

    let mut head = head(&token, "");
    head.dpop = vec![];

    assert_eq!(response(&state(false), &head).0, 401);
}

#[test]
fn middleware_htm_mismatch_rejected() {
    let client = TestClient::new();
    let token = issue(&client.thumbprint, "user-1", JsonMap::new());
    let proof = client.sign_proof("POST", "https://example.com/resource", Some(&token), None);

    assert_eq!(response(&state(false), &head(&token, &proof)).0, 401);
}

#[test]
fn middleware_htu_mismatch_rejected() {
    let client = TestClient::new();
    let token = issue(&client.thumbprint, "user-1", JsonMap::new());
    let proof = client.sign_proof("GET", "https://example.com/other", Some(&token), None);

    assert_eq!(response(&state(false), &head(&token, &proof)).0, 401);
}

#[test]
fn middleware_ath_mismatch_rejected() {
    let client = TestClient::new();
    let token1 = issue(&client.thumbprint, "user-1", JsonMap::new());
    let token2 = issue(&client.thumbprint, "user-2", JsonMap::new());
    let proof = client.sign_proof("GET", "https://example.com/resource", Some(&token1), None);

    assert_eq!(response(&state(false), &head(&token2, &proof)).0, 401);
}

#[test]
fn jkt_mismatch_rejected() {
    let client1 = TestClient::new();
    let client2 = TestClient::new();
    let token = issue(&client1.thumbprint, "user-1", JsonMap::new());
    let proof = client2.sign_proof("GET", "https://example.com/resource", Some(&token), None);

    assert_eq!(response(&state(false), &head(&token, &proof)).0, 401);
}

#[test]
fn middleware_jti_replay_rejected() {
    let client = TestClient::new();
    let token = issue(&client.thumbprint, "user-1", JsonMap::new());
    let proof = client.sign_proof("GET", "https://example.com/resource", Some(&token), None);

    let state = state(false);

    assert_eq!(response(&state, &head(&token, &proof)).0, 200);
    assert_eq!(response(&state, &head(&token, &proof)).0, 401);
}

#[test]
fn multiple_dpop_header_rejected() {
    let client = TestClient::new();
    let token = issue(&client.thumbprint, "user-1", JsonMap::new());
    let proof = client.sign_proof("GET", "https://example.com/resource", Some(&token), None);

    let mut head = head(&token, &proof);
    head.dpop.push(proof.as_bytes().to_vec());

    assert_eq!(response(&state(false), &head).0, 401);
}

#[test]
fn expired_token_rejected() {
    let client = TestClient::new();
    let now = jsonwebtoken::get_current_timestamp();

    let claims = AccessTokenClaims {
        sub: "user-1".into(),
        iss: PUBLIC_URL.into(),
        aud: PUBLIC_URL.into(),
        exp: now - 3600,
        iat: now - 3600,
        jti: uuid::Uuid::new_v4().to_string(),
        cnf: Confirmation {
            jkt: client.thumbprint.clone(),
        },
        extra: JsonMap::new(),
    };
    let mut members = serde_json::Map::new();
    for (name, json) in claims.to_members().entries() {
        members.insert(name.clone(), serde_json::from_str::<Value>(json).unwrap());
    }
    let token = encode(
        &Header::new(jsonwebtoken::Algorithm::HS256),
        &Value::Object(members),
        &EncodingKey::from_secret(b"test-secret"),
    )
    .unwrap();
    let proof = client.sign_proof("GET", "https://example.com/resource", Some(&token), None);

    assert!(matches!(
        authorize(&state(false), &head(&token, &proof)),
        Err(DpopError::Expired)
    ));
    assert_eq!(response(&state(false), &head(&token, &proof)).0, 401);
}

#[test]
fn nonce_flow_requires_nonce() {
    let client = TestClient::new();
    let token = issue(&client.thumbprint, "user-1", JsonMap::new());

    let state = state(true);
    let proof_without_nonce =
        client.sign_proof("GET", "https://example.com/resource", Some(&token), None);
    let (status, _, nonce) = response(&state, &head(&token, &proof_without_nonce));
    assert_eq!(status, 401);

    let nonce = nonce.unwrap();
    let proof_with_nonce = client.sign_proof(
        "GET",
        "https://example.com/resource",
        Some(&token),
        Some(&nonce),
    );
    assert_eq!(response(&state, &head(&token, &proof_with_nonce)).0, 200);
}

#[test]
fn nonce_required_returns_proper_challenge() {
    let client = TestClient::new();
    let token = issue(&client.thumbprint, "user-1", JsonMap::new());
    let proof_without_nonce =
        client.sign_proof("GET", "https://example.com/resource", Some(&token), None);

    let (status, challenge, nonce) = response(&state(true), &head(&token, &proof_without_nonce));
    assert_eq!(status, 401);
    assert_eq!(challenge.unwrap(), r#"DPoP error="use_dpop_nonce""#);
    assert!(nonce.is_some());
}

#[test]
fn jkt_mismatch_returns_exact_error_kind() {
    let state = state(false);
    let client1 = TestClient::new();
    let client2 = TestClient::new();

    let token = issue(&client1.thumbprint, "user-1", JsonMap::new());
    let proof = client2.sign_proof("GET", "https://example.com/resource", Some(&token), None);

    let result = authenticate(
        &state,
        Credentials { token, proof, method: "GET".into(), path: "/resource".into() },
    );

    assert!(matches!(result, Err(DpopError::InvalidSignature(msg)) if msg == "jkt mismatch"),)
}

#[test]
fn missing_header_returns_exact_error_kind() {
    let head = RequestHead {
        authorization: None,
        dpop: vec![],
        method: "GET".to_string(),
        path: "/resource".to_string(),
    };

    let result = extract(&head);

    assert!(matches!(result, Err(DpopError::MissingHeader)));
}

#[derive(Debug)]
struct AppClaims {
    role: String,
}

impl FromExtra for AppClaims {
    fn from_extra(extra: JsonMap) -> Result<AppClaims, DpopError> {
        let json = extra
            .get("role")
            .ok_or_else(|| DpopError::Internal("no role".to_string()))?;
        let role = serde_json::from_str(&json).map_err(|e| DpopError::Internal(e.to_string()))?;
        Ok(AppClaims { role })
    }
}

#[test]
fn custom_claims_extracted() {
    let client = TestClient::new();
    let mut extra = JsonMap::new();
    assert!(extra.insert("role", "\"admin\""));
    let token = issue(&client.thumbprint, "user-1", extra);
    let proof = client.sign_proof("GET", "https://example.com/claims", Some(&token), None);

    let mut head = head(&token, &proof);
    head.path = "/claims".to_string();

    let session = authorize(&state(false), &head).unwrap();
    let session = DpopSession::<AppClaims>::extract(Some(session)).unwrap();
    assert_eq!(session.claims.role, "admin");
    assert_eq!(session.sub, "user-1");
    assert_eq!(session.jkt, client.thumbprint);
}

#[test]
fn a_handler_without_a_session_is_refused() {
    assert!(matches!(
        DpopSession::<()>::extract(None),
        Err(DpopError::MissingHeader)
    ));
    let session = ValidatedSession {
        sub: "user-1".to_string(),
        jti: "jti".to_string(),
        jkt: "jkt".to_string(),
        extra: JsonMap::new(),
    };
    assert!(matches!(
        DpopSession::<AppClaims>::extract(Some(session.clone())),
        Err(DpopError::Internal(text)) if text == "no role"
    ));
    let plain = DpopSession::<()>::extract(Some(session)).unwrap();
    assert_eq!((plain.sub.as_str(), plain.jti.as_str(), plain.jkt.as_str()), ("user-1", "jti", "jkt"));
}

#[test]
fn credentials_are_taken_from_the_head() {
    let credentials = extract(&head("token", "proof")).unwrap();
    assert_eq!(credentials.token, "token");
    assert_eq!(credentials.proof, "proof");
    assert_eq!(credentials.method, "GET");
    assert_eq!(credentials.path, "/resource");

    let mut bearer = head("token", "proof");
    bearer.authorization = Some(b"Bearer token".to_vec());
    assert!(extract(&bearer).is_err());

    let mut binary = head("token", "proof");
    binary.dpop = vec![vec![200]];
    assert!(extract(&binary).is_err());
}

#[test]
fn header_text_is_visible_ascii() {
    assert_eq!(header_text(b"a b\tc").as_deref(), Some("a b\tc"));
    assert_eq!(header_text(b"").as_deref(), Some(""));
    assert_eq!(header_text(&[127]), None);
    assert_eq!(header_text(&[10]), None);
    assert_eq!(header_text("\u{e4}".as_bytes()), None);
}

#[test]
fn exactly_one_proof_is_taken() {
    assert!(exactly_one_dpop_header(&vec![]).is_err());
    assert_eq!(exactly_one_dpop_header(&vec![b"proof".to_vec()]).unwrap(), "proof");
    assert!(exactly_one_dpop_header(&vec![b"a".to_vec(), b"b".to_vec()]).is_err());
}

#[test]
fn targets_are_built_from_the_public_url() {
    assert_eq!(build_htu("https://example.com", "/resource"), "https://example.com/resource");
    assert_eq!(build_htu("https://example.com//", "/resource"), "https://example.com/resource");
    assert_eq!(build_htu("https://example.com/api", "/"), "https://example.com/api/");
}

fn validated(jkt: &str) -> ValidatedProof {
    ValidatedProof {
        jwk: Jwk { json: "{}".to_string() },
        claims: DpopClaims {
            htm: "GET".to_string(),
            htu: "https://example.com/".to_string(),
            iat: 0,
            jti: "proof".to_string(),
            nonce: None,
            ath: None,
        },
        jwk_thumbprint: jkt.to_string(),
    }
}

fn access_claims(jkt: &str) -> AccessTokenClaims {
    AccessTokenClaims {
        sub: "user-1".to_string(),
        iss: PUBLIC_URL.to_string(),
        aud: PUBLIC_URL.to_string(),
        exp: 1,
        iat: 0,
        jti: "token".to_string(),
        cnf: Confirmation { jkt: jkt.to_string() },
        extra: JsonMap::new(),
    }
}

#[test]
fn a_session_is_bound_to_its_key() {
    let session = bind_session(access_claims("key"), &validated("key")).unwrap();
    assert_eq!(session.sub, "user-1");
    assert_eq!(session.jti, "token");
    assert_eq!(session.jkt, "key");
    assert!(matches!(
        bind_session(access_claims("key"), &validated("other")),
        Err(DpopError::InvalidSignature(text)) if text == "jkt mismatch"
    ));
}

#[test]
fn a_proof_and_a_token_meet_at_one_key() {
    let client = TestClient::new();
    let config = DpopConfig::builder()
        .public_url(PUBLIC_URL)
        .issuer(PUBLIC_URL)
        .audience("api")
        .signer(TokenSigner::symmetric(b"test-secret-key-must-be-at-least-32-bytes"))
        .build()
        .unwrap();
    let mut extra = JsonMap::new();
    assert!(extra.insert("tenant_id", "\"tenant-a\""));
    let token = issue_access_token(
        &config.signer,
        &config.issuer,
        &config.audience,
        Duration::from_secs(900),
        "user-1",
        &client.thumbprint,
        extra,
    )
    .unwrap();
    let jti_cache = cache::jti::create_jti_cache(Duration::from_secs(300));
    let nonce_cache = cache::create_nonce_cache();
    let proof = client.sign_proof("GET", "https://example.com/tickets", Some(&token), None);

    let validated = validate_dpop_proof(ValidationContext {
        proof: &proof,
        expected_htm: "GET",
        expected_htu: "https://example.com/tickets",
        access_token: Some(&token),
        nonce_required: false,
        clock_skew: config.clock_skew,
        allowed_algs: &config.allowed_algs,
        jti_cache: &jti_cache,
        nonce_cache: &nonce_cache,
    })
    .unwrap();

    assert_eq!(validated.jwk_thumbprint, client.thumbprint);
}
