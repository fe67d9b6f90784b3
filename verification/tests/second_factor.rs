use dpop_auth::crypto::hash_token;
use dpop_auth::totp::{
    codes_from_draws, distinct_codes_from, generate_recovery_code, generate_recovery_codes,
    generate_setup, hash_recovery_code, is_recovery_code, recovery_code_from, recovery_codes_from,
    setup_from_secret, verify_code, verify_code_at, MAX_CODE_DRAWS,
};
use dpop_auth::DpopError;
use totp_rs::{Algorithm, Builder, Secret};

fn code_at(secret_base32: &str, time: u64) -> String {
    let secret = Secret::try_from_base32(secret_base32).unwrap();
    Builder::new()
        .with_algorithm(Algorithm::SHA1)
        .with_secret(secret)
        .build()
        .unwrap()
        .generate(time)
        .to_string()
}

fn current_code(secret_base32: &str) -> String {
    code_at(secret_base32, jsonwebtoken::get_current_timestamp())
}

#[test]
fn generate_setup_returns_secret_and_url() {
    let setup = generate_setup("Example", "john@example.com").unwrap();

    assert!(setup.secret_base32.len() >= 32, "base32 secret");
    assert!(setup.otpauth_url.starts_with("otpauth://totp/"));
    assert!(setup.otpauth_url.contains("Example"));
    assert!(setup.otpauth_url.contains("john%40example.com"));
}

#[test]
fn setup_from_secret_roundtrips() {
    let first_setup = generate_setup("Example", "john@example.com").unwrap();
    let resumed =
        setup_from_secret(&first_setup.secret_base32, "Example", "john@example.com").unwrap();

    assert_eq!(resumed.secret_base32, first_setup.secret_base32);
    assert_eq!(resumed.otpauth_url, first_setup.otpauth_url);
}

#[test]
fn setups_that_cannot_be_shown_are_refused() {
    assert!(matches!(
        setup_from_secret("not base32!", "Example", "john@example.com"),
        Err(DpopError::Internal(_))
    ));
    assert!(setup_from_secret("MFRGG", "Example", "john@example.com").is_err());
    assert!(generate_setup("Exa:mple", "john@example.com").is_err());
    assert!(generate_setup("Example", "john:example.com").is_err());
}

#[test]
fn verify_code_accepts_current() {
    let setup = generate_setup("Example", "john@example.com").unwrap();

    let code = current_code(&setup.secret_base32);

    assert!(verify_code(&setup.secret_base32, &code));
}

#[test]
fn verify_code_rejects_wrong() {
    let setup = generate_setup("Example", "john@example.com").unwrap();

    assert!(!verify_code(&setup.secret_base32, "000000"));
}

#[test]
fn verify_code_is_deterministic() {
    let setup = generate_setup("Example", "john@example.com").unwrap();
    let now = 1_700_000_000;

    let code = code_at(&setup.secret_base32, now);
    assert!(verify_code_at(&setup.secret_base32, &code, now));

    // a code from another window is rejected `now`
    let other = code_at(&setup.secret_base32, now - 120);
    assert!(!verify_code_at(&setup.secret_base32, &other, now));
}

#[test]
fn codes_of_the_neighbouring_steps_count() {
    let secret = "GEZDGNBVGY3TQOJQGEZDGNBVGY3TQOJQ";
    let now = 1_700_000_010;

    // RFC 6238, appendix B, shortened to six digits.
    assert!(verify_code_at(secret, "287082", 59));
    assert!(verify_code_at(secret, &code_at(secret, now - 30), now));
    assert!(verify_code_at(secret, &code_at(secret, now + 30), now));
    assert!(!verify_code_at(secret, &code_at(secret, now - 60), now));
    assert!(!verify_code_at(secret, &code_at(secret, now + 60), now));
    assert!(!verify_code_at("not base32!", "287082", 59));
    assert!(!verify_code_at(secret, "28708", 59));
    assert!(!verify_code_at(secret, "2870820", 59));
}

#[test]
fn generate_recovery_code_format() {
    let code = generate_recovery_code().unwrap();

    assert_eq!(code.len(), 23, "XXXXX-XXXXX-XXXXX-XXXXX");
    assert!(is_recovery_code(&code));

    code.chars().enumerate().for_each(|(i, c)| {
        if i % 6 == 5 {
            assert_eq!(c, '-');
        } else {
            assert!(c.is_ascii_hexdigit());
        }
    });
}

#[test]
fn hash_recovery_code_normalizes() {
    let a = hash_recovery_code("ABCDE-12345-ABCDE-12345");
    let b = hash_recovery_code("abcde-12345-abcde-12345");
    let c = hash_recovery_code("     abcde-12345-abcde-12345    ");

    assert_eq!(a.len(), 64);
    assert_eq!(a, b, "case-insensitive");
    assert_eq!(a, c, "trimmed");
}

#[test]
fn is_recovery_code_detects_format() {
    assert!(is_recovery_code("ABCDE-12345-ABCDE-12345"));
    assert!(!is_recovery_code("123456"));
    assert!(!is_recovery_code("12345678"));
    assert!(!is_recovery_code("ABCDE-1234-ABCDE-12345"));
}

#[test]
fn near_misses_are_no_recovery_codes() {
    assert!(is_recovery_code("  abcde-12345-abcde-12345\n"));
    assert!(!is_recovery_code(""));
    assert!(!is_recovery_code("ABCDG-12345-ABCDE-12345"));
    assert!(!is_recovery_code("ABCDE-12345-ABCDE-123456"));
    assert!(!is_recovery_code("ABCDE-12345-ABCDE-12345-"));
    assert!(!is_recovery_code("ABCDE012345-ABCDE-12345"));
}

#[test]
fn recovery_codes_are_the_hex_of_their_bytes() {
    let bytes = vec![0x01, 0x23, 0x45, 0x67, 0x89, 0xab, 0xcd, 0xef, 0xfe, 0xdc];
    assert_eq!(recovery_code_from(&bytes), "01234-56789-abcde-ffedc");

    let mut more = bytes.clone();
    more.extend_from_slice(&[0; 10]);
    assert_eq!(
        recovery_codes_from(&more, 2),
        vec!["01234-56789-abcde-ffedc", "00000-00000-00000-00000"]
    );
}

#[test]
fn recovery_hashes_are_of_the_lower_case_text() {
    assert_eq!(
        hash_recovery_code(" ABCDE-12345-ABCDE-12345 "),
        hash_token(b"abcde-12345-abcde-12345")
    );
}

#[test]
fn a_repeated_code_is_noticed() {
    assert_eq!(distinct_codes_from(&vec![0; 20], 2), None);
    let mut bytes = vec![0; 20];
    bytes[19] = 1;
    assert_eq!(
        distinct_codes_from(&bytes, 2).unwrap(),
        ["00000-00000-00000-00000", "00000-00000-00000-00001"]
    );
    assert_eq!(distinct_codes_from(&vec![], 0).unwrap().len(), 0);
}

#[test]
fn the_first_draw_without_a_repeat_counts() {
    let good: Vec<u8> = (0..20).collect();
    let codes = ["00010-20304-05060-70809", "0a0b0-c0d0e-0f101-11213"];
    let draws = vec![Ok(vec![0; 20]), Ok(good), Err("not read".to_string())];
    assert_eq!(codes_from_draws(&draws, 2).unwrap(), codes);

    let draws = vec![Ok(vec![0; 20]), Err("no entropy".to_string())];
    assert!(matches!(
        codes_from_draws(&draws, 2),
        Err(DpopError::Internal(text)) if text == "no entropy"
    ));
    let draws: Vec<Result<Vec<u8>, String>> = vec![Ok(vec![0; 20]); MAX_CODE_DRAWS];
    assert!(matches!(
        codes_from_draws(&draws, 2),
        Err(DpopError::Internal(text)) if text == "the random source repeats itself"
    ));
}

#[test]
fn sets_of_recovery_codes_are_distinct() {
    let codes = generate_recovery_codes(10).unwrap();
    assert_eq!(codes.len(), 10);
    assert!(codes.iter().all(|code| is_recovery_code(code)));
    let mut distinct = codes.clone();
    distinct.sort();
    distinct.dedup();
    assert_eq!(distinct.len(), 10);
    assert!(generate_recovery_codes(0).unwrap().is_empty());
}
