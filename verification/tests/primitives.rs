use dpop_auth::claims::{read_number_claim, read_optional_claim, read_string_claim};
use dpop_auth::crypto::entropy::{identifier_hash, new_refresh_secret, refresh_secret_from};
use dpop_auth::crypto::password::{hash_password, verify_password};
use dpop_auth::crypto::{compute_ath, compute_jwk_thumbprint, hash_token};
use dpop_auth::jose::{is_name_of_one, Algorithm};
use dpop_auth::json::{is_repeated, member_names, JsonMap};
use dpop_auth::text::{
    decimal_text, joined, same, same_bytes, same_ignoring_ascii_case, strip_prefix, trim, trim_end,
};
use dpop_auth::{DpopError, Jwk, ServiceError};

#[test]
fn thumbprint_of_a_documented_key() {
    let jwk = Jwk {
        json: r#"{"kty":"EC","crv":"P-256","x":"...","y":"..."}"#.to_string(),
    };
    assert_eq!(
        compute_jwk_thumbprint(&jwk).unwrap(),
        "2oU-IXkxSYGwbjojye-Eb9i6KU7rtzeU_Eh-01YE_44"
    );
}

#[test]
fn thumbprint_of_an_rsa_key() {
    // RFC 7638, section 3.1.
    let jwk = Jwk {
        json: r#"{"kty":"RSA","n":"0vx7agoebGcQSuuPiLJXZptN9nndrQmbXEps2aiAFbWhM78LhWx4cbbfAAtVT86zwu1RK7aPFFxuhDR1L6tSoc_BJECPebWKRXjBZCiFV4n3oknjhMstn64tZ_2W-5JsGY4Hc5n9yBXArwl93lqt7_RN5w6Cf0h4QyQ5v-65YGjQR0_FDW2QvzqY368QQMicAtaSqzs8KJZgnYb9c7d0zgdAZHzu6qMQvRL5hajrn1n91CbOpbISD08qNLyrdkt-bFTWhAI4vMQFh6WeZu0fM4lFd2NcRwr3XPksINHaQ-G_xBniIqbw0Ls1jF44-csFCur-kEgU8awapJzKnqDKgw","e":"AQAB","alg":"RS256","kid":"2011-04-29"}"#
            .to_string(),
    };
    assert_eq!(
        compute_jwk_thumbprint(&jwk).unwrap(),
        "NzbLsXh8uDCcd-6MNwXF4W_7noWXFZAfHkxZsRGC9Xs"
    );
}

#[test]
fn what_is_no_key_has_no_thumbprint() {
    assert!(matches!(
        compute_jwk_thumbprint(&Jwk { json: "{}".to_string() }),
        Err(DpopError::InvalidSignature(text)) if text == "failed to compute JWK thumbprint"
    ));
}

#[test]
fn hashes_of_known_texts() {
    assert!(!compute_ath("access-token-value").is_empty());
    assert_eq!(compute_ath("abc"), "ungWv48Bz-pBQUDeXa4iI7ADYaOWF3qctBD_YfIAFa0");
    assert_eq!(hash_token(b"my-refresh-token-secret").len(), 64);
    assert_eq!(
        hash_token(b"abc"),
        "ba7816bf8f01cfea414140de5dae2223b00361a396177a9cb410ff61f20015ad"
    );
}

#[test]
fn identifiers_hash_without_their_case() {
    let hash = identifier_hash("email", "John@Example.com");
    assert_eq!(hash, identifier_hash("email", "john@example.com"));
    assert_eq!(hash, hash_token(b"email:john@example.com"));
    assert_ne!(hash, identifier_hash("username", "john@example.com"));
}

#[test]
fn refresh_secrets_are_drawn() {
    let (one, other) = (new_refresh_secret().unwrap(), new_refresh_secret().unwrap());
    assert_eq!(one.len(), 43);
    assert_ne!(one, other);
    assert!(one.chars().all(|c| c.is_ascii_alphanumeric() || c == '-' || c == '_'));

    assert_eq!(
        refresh_secret_from(Ok(vec![0; 32])).unwrap(),
        "AAAAAAAAAAAAAAAAAAAAAAAAAAAAAAAAAAAAAAAAAAA"
    );
    assert!(matches!(
        refresh_secret_from(Err("no entropy".to_string())),
        Err(DpopError::Internal(text)) if text.contains("no entropy")
    ));
}

#[test]
fn passwords_are_hashed_and_verified() {
    let hash = hash_password("correct horse battery staple").unwrap();
    assert!(hash.starts_with("$argon2id$"));
    assert_ne!(hash, hash_password("correct horse battery staple").unwrap());
    assert!(verify_password("correct horse battery staple", &hash).unwrap());
    assert!(!verify_password("wrong", &hash).unwrap());
    assert!(matches!(
        verify_password("correct horse battery staple", "no hash"),
        Err(ServiceError::Internal(_))
    ));
}

#[test]
fn json_objects_keep_their_members() {
    let mut map = JsonMap::new();
    assert!(map.entries().is_empty());
    assert!(map.insert("a", "1"));
    assert!(map.insert("b", "\"x\""));
    assert!(map.insert("a", "2"));
    assert!(!map.insert("c", "{broken"));
    assert!(!map.insert("c", "1 2"));
    assert!(!map.insert("c", ""));
    assert_eq!(map.get("a").as_deref(), Some("2"));
    assert_eq!(map.get("c"), None);
    map.remove("a");
    assert_eq!(map.get("a"), None);
    assert_eq!(map.get("b").as_deref(), Some("\"x\""));
}

#[test]
fn the_names_in_an_object_are_listed() {
    let json = r#"{ "a" : "b", "c\"d": {"e": [1, {"f": "g"}]}, "a": [",", "x"], "\u0061": 0 }"#;
    let names = member_names(json);
    assert_eq!(names, [r#""a""#, r#""c\"d""#, r#""a""#, r#""\u0061""#]);
    assert!(is_repeated(&names, "a"));
    assert!(!is_repeated(&names, "c\"d"));
    assert!(!is_repeated(&names, "e"));
    assert!(member_names("{}").is_empty());
}

#[test]
fn single_claims_are_read() {
    let mut map = JsonMap::new();
    assert!(map.insert("text", "\"a\\u0062\""));
    assert!(map.insert("number", "18446744073709551615"));
    assert!(map.insert("fraction", "1.5"));
    assert!(map.insert("nothing", "null"));

    assert_eq!(read_string_claim(&map, "text").unwrap(), "ab");
    assert_eq!(read_number_claim(&map, "number").unwrap(), u64::MAX);
    assert_eq!(
        read_number_claim(&map, "fraction").unwrap_err(),
        "JSON error: invalid type for field `fraction`"
    );
    assert_eq!(
        read_string_claim(&map, "missing").unwrap_err(),
        "JSON error: missing field `missing`"
    );
    assert_eq!(read_optional_claim(&map, "nothing").unwrap(), None);
    assert_eq!(read_optional_claim(&map, "missing").unwrap(), None);
    assert_eq!(read_optional_claim(&map, "text").unwrap().as_deref(), Some("ab"));
    assert!(read_optional_claim(&map, "number").is_err());
}

#[test]
fn algorithms_are_known_by_name() {
    assert_eq!(Algorithm::ES256.name(), "ES256");
    assert_eq!(Algorithm::EdDSA.name(), "EdDSA");
    assert!(is_name_of_one("PS256", &[Algorithm::ES256, Algorithm::PS256]));
    assert!(!is_name_of_one("HS256", &[Algorithm::ES256, Algorithm::PS256]));
    assert!(!is_name_of_one("es256", &[Algorithm::ES256]));
}

#[test]
fn texts_are_cut_and_compared() {
    assert!(same("a\u{e4}", "a\u{e4}"));
    assert!(!same("a", "b"));
    assert!(same_bytes(&[1, 2], &[1, 2]));
    assert!(!same_bytes(&[1], &[1, 2]));
    assert!(same_ignoring_ascii_case("GeT", "gEt"));
    assert!(!same_ignoring_ascii_case("\u{c4}", "\u{e4}"));
    assert_eq!(joined("a", "b"), "ab");
    assert_eq!(trim(" \u{2003}a b\t"), "a b");
    assert_eq!(trim_end("a//", '/'), "a");
    assert_eq!(strip_prefix("DPoP token", "DPoP ").as_deref(), Some("token"));
    assert_eq!(strip_prefix("dpop token", "DPoP "), None);
    assert_eq!(decimal_text(0), "0");
    assert_eq!(decimal_text(u64::MAX), "18446744073709551615");
}
