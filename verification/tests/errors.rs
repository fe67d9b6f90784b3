use dpop_auth::{DpopError, EmailError, ServiceError};

#[test]
fn invalid_typ_display() {
    let err = DpopError::InvalidTyp("bearer".into());
    assert_eq!(
        err.to_string(),
        "invalid typ: expected dpop+jwt, got bearer"
    )
}

#[test]
fn htm_mismatch_display() {
    let err = DpopError::HtmMismatch {
        expected: "POST".into(),
        got: "GET".into(),
    };
    assert_eq!(err.to_string(), "htm mismatch: expected POST, got GET");
}

#[test]
fn nonce_variants_carry_nonce() {
    let nonce = "eyJ7S_zG.eyJH0-Z.HX4w-7v".to_string();

    match DpopError::TokenNonceRequired(nonce.clone()) {
        DpopError::TokenNonceRequired(n) => assert_eq!(n, nonce),
        _ => panic!("expected TokenNonceRequired"),
    }

    match DpopError::ResourceNonceRequired(nonce.clone()) {
        DpopError::ResourceNonceRequired(n) => assert_eq!(n, nonce),
        _ => panic!("expected ResourceNonceRequired"),
    }
}

#[test]
fn proof_errors_have_their_texts() {
    assert_eq!(DpopError::MissingHeader.to_string(), "missing DPoP header");
    assert_eq!(
        DpopError::InvalidAlgorithm("HS256".into()).to_string(),
        "symmetric or unsupported algorithm: HS256"
    );
    assert_eq!(
        DpopError::InvalidSignature("jkt mismatch".into()).to_string(),
        "proof signature or structure invalid: jkt mismatch"
    );
    assert_eq!(DpopError::HtuMismatch.to_string(), "htu mismatch or invalid URI");
    assert_eq!(DpopError::JtiReplay.to_string(), "jti replay detected");
    assert_eq!(DpopError::Expired.to_string(), "proof expired (iat out of window)");
    assert_eq!(
        DpopError::TokenNonceRequired("n".into()).to_string(),
        "nonce required on token endpoint"
    );
    assert_eq!(
        DpopError::ResourceNonceRequired("n".into()).to_string(),
        "nonce required on protected resource"
    );
    assert_eq!(DpopError::Internal("x".into()).to_string(), "internal error: x");
}

#[test]
fn a_nonce_comes_with_its_challenge() {
    let token = DpopError::TokenNonceRequired("n".into()).rejection();
    assert_eq!(token.status, 400);
    assert_eq!(token.challenge, r#"DPoP error="use_dpop_nonce""#);
    assert_eq!(token.nonce.as_deref(), Some("n"));

    let resource = DpopError::ResourceNonceRequired("n".into()).rejection();
    assert_eq!(resource.status, 401);
    assert_eq!(resource.challenge, r#"DPoP error="use_dpop_nonce""#);
    assert_eq!(resource.nonce.as_deref(), Some("n"));

    let replay = DpopError::JtiReplay.rejection();
    assert_eq!(replay.status, 401);
    assert_eq!(replay.challenge, r#"DPoP error="invalid_dpop_proof""#);
    assert_eq!(replay.nonce, None);

    assert_eq!(DpopError::Internal("x".into()).rejection().status, 500);
}

#[test]
fn service_errors_have_their_responses() {
    let cases = vec![
        (ServiceError::Unauthorized, 401, "invalid credentials", "invalid credentials"),
        (ServiceError::Conflict("taken".into()), 409, "taken", "conflict: taken"),
        (
            ServiceError::RegistrationDisabled,
            403,
            "registration is disabled",
            "registration is disabled",
        ),
        (ServiceError::Validation("short".into()), 400, "short", "validation failed: short"),
        (ServiceError::Internal("db".into()), 500, "internal error", "internal error: db"),
    ];
    for (error, status, message, text) in cases {
        assert_eq!(error.to_string(), text);
        assert_eq!(error.response(), (status, message.to_string()));
    }
}

#[test]
fn email_errors_have_their_texts() {
    assert_eq!(EmailError::Build("x".into()).to_string(), "failed to build email: x");
    assert_eq!(EmailError::Send("x".into()).to_string(), "failed to send email: x");
    assert_eq!(EmailError::Internal("x".into()).to_string(), "internal error: x");
}
