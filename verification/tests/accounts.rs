use std::time::Duration;

use dpop_auth::crypto::hash_token;
use dpop_auth::service::auth::{
    codes_reply, refresh_expiry, secret_reply, Answer, Settled, FIRST_TIME, LAST_TIME,
};
use dpop_auth::service::flow::{
    advance, Failure, Query, Reply, SecondFactorKind, Step, Success, LOGIN_FAILURE_LIMIT,
    LOGIN_WINDOW_MICROS,
};
use dpop_auth::store::models::{RecoveryCodeRow, RefreshTokenRow, UserRow};
use dpop_auth::token::verify_access_token;
use dpop_auth::totp::is_recovery_code;
use dpop_auth::{
    AuthService, DpopConfig, DpopError, RegisterParams, ServiceError, TokenPair, TokenSigner,
    TotpSetup,
};
use totp_rs::{Algorithm, Builder, Secret};

const TEST_JKT: &str = "0ZcOCORZNYy-DWpqq30jZyJGHTN0d2HglBV3uiguA4I";
const TEST_PASSWORD: &str = "correct horse battery staple";
const TEST_IP: &str = "203.0.113.7";

fn config(grace: Duration, refresh_ttl: Duration, allow_registration: bool) -> DpopConfig {
    DpopConfig::builder()
        .public_url("https://example.com")
        .signer(TokenSigner::symmetric(b"test-secret-key"))
        .grace_period(grace)
        .refresh_token_ttl(refresh_ttl)
        .allow_registration(allow_registration)
        .build()
        .unwrap()
}

fn build_service(
    grace: Duration,
    refresh_ttl: Duration,
    allow_registration: bool,
) -> AuthService {
    AuthService::new(config(grace, refresh_ttl, allow_registration))
}

fn service() -> AuthService {
    build_service(
        Duration::from_secs(5),
        Duration::from_secs(30 * 24 * 60 * 60),
        true,
    )
}

struct Identifier {
    kind: String,
    value: String,
    user_id: u128,
}

struct Attempt {
    kind: String,
    value: String,
    client_ip: String,
    success: bool,
    reason: Option<&'static str>,
    at: i64,
}

#[derive(Default)]
struct Tables {
    users: Vec<UserRow>,
    identifiers: Vec<Identifier>,
    tokens: Vec<RefreshTokenRow>,
    codes: Vec<RecoveryCodeRow>,
    attempts: Vec<Attempt>,
}

/// A store that keeps its tables in memory.
#[derive(Default)]
struct Store {
    tables: Tables,
    saved: Option<Tables>,
    next_id: u128,
    /// The first query that this names fails.
    broken: Option<&'static str>,
}

fn copy_user(user: &UserRow) -> UserRow {
    UserRow {
        id: user.id,
        public_id: user.public_id,
        password_hash: user.password_hash.clone(),
        name: user.name.clone(),
        password_changed_at: user.password_changed_at,
        totp_secret: user.totp_secret.clone(),
        totp_enabled: user.totp_enabled,
        totp_enabled_at: user.totp_enabled_at,
        totp_pending_secret: user.totp_pending_secret.clone(),
        totp_pending_at: user.totp_pending_at,
        last_login_at: user.last_login_at,
        created_at: user.created_at,
        updated_at: user.updated_at,
        deleted_at: user.deleted_at,
    }
}

fn copy_token(token: &RefreshTokenRow) -> RefreshTokenRow {
    RefreshTokenRow {
        id: token.id,
        user_id: token.user_id,
        token_hash: token.token_hash.clone(),
        fam: token.fam,
        dpop_jkt: token.dpop_jkt.clone(),
        user_agent: token.user_agent.clone(),
        expires_at: token.expires_at,
        revoked_at: token.revoked_at,
        created_at: token.created_at,
    }
}

fn copy_tables(tables: &Tables) -> Tables {
    Tables {
        users: tables.users.iter().map(copy_user).collect(),
        identifiers: tables
            .identifiers
            .iter()
            .map(|identifier| Identifier {
                kind: identifier.kind.clone(),
                value: identifier.value.clone(),
                user_id: identifier.user_id,
            })
            .collect(),
        tokens: tables.tokens.iter().map(copy_token).collect(),
        codes: tables
            .codes
            .iter()
            .map(|code| RecoveryCodeRow {
                id: code.id,
                user_id: code.user_id,
                code_hash: code.code_hash.clone(),
                used_at: code.used_at,
                created_at: code.created_at,
            })
            .collect(),
        attempts: tables
            .attempts
            .iter()
            .map(|attempt| Attempt {
                kind: attempt.kind.clone(),
                value: attempt.value.clone(),
                client_ip: attempt.client_ip.clone(),
                success: attempt.success,
                reason: attempt.reason,
                at: attempt.at,
            })
            .collect(),
    }
}

fn now() -> i64 {
    jsonwebtoken::get_current_timestamp() as i64 * 1_000_000
}

/// The name of a query, to say which one fails.
fn name_of(query: &Query) -> &'static str {
    match query {
        Query::Begin => "begin",
        Query::Commit => "commit",
        Query::CreateRefreshToken(_) => "create_refresh_token",
        Query::RecordLoginAttempt { .. } => "record_login_attempt",
        Query::CreateRecoveryCodes { .. } => "create_recovery_codes",
        _ => "other",
    }
}

impl Store {
    fn id(&mut self) -> u128 {
        self.next_id += 1;
        self.next_id
    }

    fn user(&mut self, user_id: u128) -> Option<&mut UserRow> {
        self.tables
            .users
            .iter_mut()
            .find(|user| user.id == user_id && user.deleted_at.is_none())
    }

    fn john(&self) -> &UserRow {
        let user_id = self
            .tables
            .identifiers
            .iter()
            .find(|identifier| identifier.value == "john@example.com")
            .unwrap()
            .user_id;
        self.tables.users.iter().find(|user| user.id == user_id).unwrap()
    }

    fn token(&self, secret: &str) -> &RefreshTokenRow {
        let hash = hash_token(secret.as_bytes());
        self.tables.tokens.iter().find(|token| token.token_hash == hash).unwrap()
    }

    fn perform(&mut self, query: Query) -> Reply {
        if self.broken == Some(name_of(&query)) {
            return Reply::Failed { message: "db down".to_string() };
        }
        match query {
            Query::Begin => {
                self.saved = Some(copy_tables(&self.tables));
                Reply::Done
            }
            Query::Commit => {
                self.saved = None;
                Reply::Done
            }
            Query::FindUserByIdentifier { kind, value } => {
                let found = self
                    .tables
                    .identifiers
                    .iter()
                    .find(|identifier| identifier.kind == kind && identifier.value == value)
                    .map(|identifier| identifier.user_id);
                Reply::User(found.and_then(|user_id| self.user(user_id).map(|user| copy_user(user))))
            }
            Query::FindUserById { user_id } => {
                Reply::User(self.user(user_id).map(|user| copy_user(user)))
            }
            Query::CreateUser { name, password_hash } => {
                let user = UserRow {
                    id: self.id(),
                    public_id: self.id(),
                    password_hash,
                    name,
                    password_changed_at: Some(now()),
                    totp_secret: None,
                    totp_enabled: false,
                    totp_enabled_at: None,
                    totp_pending_secret: None,
                    totp_pending_at: None,
                    last_login_at: None,
                    created_at: now(),
                    updated_at: now(),
                    deleted_at: None,
                };
                self.tables.users.push(copy_user(&user));
                Reply::User(Some(user))
            }
            Query::CreateIdentifier { user_id, kind, value } => {
                let taken = self
                    .tables
                    .identifiers
                    .iter()
                    .any(|identifier| identifier.kind == kind && identifier.value == value);
                if taken {
                    return Reply::Taken { message: "duplicate key".to_string() };
                }
                self.tables.identifiers.push(Identifier { kind, value, user_id });
                Reply::Done
            }
            Query::UpdateLastLogin { user_id } => {
                if let Some(user) = self.user(user_id) {
                    user.last_login_at = Some(now());
                }
                Reply::Done
            }
            Query::CreateRefreshToken(params) => {
                let id = self.id();
                self.tables.tokens.push(RefreshTokenRow {
                    id,
                    user_id: params.user_id,
                    token_hash: params.token_hash,
                    fam: params.fam,
                    dpop_jkt: params.dpop_jkt,
                    user_agent: params.user_agent,
                    expires_at: params.expires_at,
                    revoked_at: None,
                    created_at: now(),
                });
                Reply::Done
            }
            Query::RevokeTokenIfActive { token_hash } => {
                let found = self
                    .tables
                    .tokens
                    .iter_mut()
                    .find(|token| token.token_hash == token_hash && token.revoked_at.is_none());
                Reply::Token(found.map(|token| {
                    token.revoked_at = Some(now());
                    copy_token(token)
                }))
            }
            Query::FindTokenByHash { token_hash } => Reply::Token(
                self.tables
                    .tokens
                    .iter()
                    .find(|token| token.token_hash == token_hash)
                    .map(copy_token),
            ),
            Query::RevokeTokenFamily { fam } => {
                for token in self.tables.tokens.iter_mut() {
                    if token.fam == fam && token.revoked_at.is_none() {
                        token.revoked_at = Some(now());
                    }
                }
                Reply::Done
            }
            Query::RevokeTokenByHash { token_hash } => {
                for token in self.tables.tokens.iter_mut() {
                    if token.token_hash == token_hash && token.revoked_at.is_none() {
                        token.revoked_at = Some(now());
                    }
                }
                Reply::Done
            }
            Query::RecordLoginAttempt { kind, value, client_ip, success, reason } => {
                let at = now();
                self.tables.attempts.push(Attempt { kind, value, client_ip, success, reason, at });
                Reply::Done
            }
            Query::CountFailedAttempts { kind, value, since } => {
                let failed = self.tables.attempts.iter().filter(|attempt| {
                    attempt.kind == kind
                        && attempt.value == value
                        && !attempt.success
                        && attempt.at >= since
                });
                Reply::Failures(failed.count() as u64)
            }
            Query::GetPendingSecret { user_id } => {
                let pending = self.user(user_id).and_then(|user| {
                    let young = user.totp_pending_at.map_or(false, |at| at > now() - 600_000_000);
                    if young && !user.totp_enabled {
                        user.totp_pending_secret.clone()
                    } else {
                        None
                    }
                });
                Reply::Pending(pending)
            }
            Query::SetPendingSecret { user_id, secret } => {
                if let Some(user) = self.user(user_id) {
                    if !user.totp_enabled {
                        user.totp_pending_secret = Some(secret);
                        user.totp_pending_at = Some(now());
                    }
                }
                Reply::Done
            }
            Query::ActivateTotp { user_id } => {
                if let Some(user) = self.user(user_id) {
                    user.totp_secret = user.totp_pending_secret.take();
                    user.totp_pending_at = None;
                    user.totp_enabled = true;
                    user.totp_enabled_at = Some(now());
                }
                Reply::Done
            }
            Query::DisableTotp { user_id } => {
                if let Some(user) = self.user(user_id) {
                    user.totp_secret = None;
                    user.totp_pending_secret = None;
                    user.totp_pending_at = None;
                    user.totp_enabled = false;
                    user.totp_enabled_at = None;
                }
                Reply::Done
            }
            Query::InvalidateRecoveryCodes { user_id } => {
                for code in self.tables.codes.iter_mut() {
                    if code.user_id == user_id && code.used_at.is_none() {
                        code.used_at = Some(now());
                    }
                }
                Reply::Done
            }
            Query::CreateRecoveryCodes { user_id, hashes } => {
                for code_hash in hashes {
                    let id = self.id();
                    self.tables.codes.push(RecoveryCodeRow {
                        id,
                        user_id,
                        code_hash,
                        used_at: None,
                        created_at: now(),
                    });
                }
                Reply::Done
            }
            Query::ConsumeRecoveryCode { user_id, code_hash } => {
                let found = self.tables.codes.iter_mut().find(|code| {
                    code.user_id == user_id && code.code_hash == code_hash && code.used_at.is_none()
                });
                Reply::Consumed(match found {
                    Some(code) => {
                        code.used_at = Some(now());
                        true
                    }
                    None => false,
                })
            }
            _ => panic!("the service answers this query itself"),
        }
    }

    /// Runs an operation to its end; what it did not commit is rolled back.
    fn run(&mut self, service: &AuthService, step: Step) -> Result<Success, ServiceError> {
        let mut settled = service.settle(step);
        loop {
            match settled {
                Settled::Ask(query, flow) => {
                    let reply = self.perform(query);
                    settled = service.resume(flow, reply);
                }
                Settled::Done(result) => {
                    if let Some(saved) = self.saved.take() {
                        self.tables = saved;
                    }
                    return result.map_err(Failure::into_error);
                }
                Settled::OutOfRange => panic!("the expiry cannot be expressed"),
            }
        }
    }
}

fn tokens(result: Result<Success, ServiceError>) -> Result<TokenPair, ServiceError> {
    match result {
        Ok(Success::Tokens(tokens)) => Ok(tokens.into_pair()),
        Ok(_) => panic!("expected tokens"),
        Err(error) => Err(error),
    }
}

fn register_as(
    store: &mut Store,
    service: &AuthService,
    value: &str,
) -> Result<TokenPair, ServiceError> {
    let step = service.register(RegisterParams {
        kind: "email",
        value,
        password: TEST_PASSWORD,
        name: "John",
        jkt: TEST_JKT,
        client_ip: TEST_IP,
        user_agent: None,
    });
    tokens(store.run(service, step))
}

fn register_user(store: &mut Store, service: &AuthService) -> TokenPair {
    register_as(store, service, "john@example.com").unwrap()
}

fn login(
    store: &mut Store,
    service: &AuthService,
    value: &str,
    password: &str,
) -> Result<Success, ServiceError> {
    let step = service.login("email", value, password, TEST_JKT, TEST_IP, None);
    store.run(service, step)
}

fn refresh(
    store: &mut Store,
    service: &AuthService,
    secret: &str,
    jkt: &str,
) -> Result<TokenPair, ServiceError> {
    let step = service.refresh(secret, jkt, None);
    tokens(store.run(service, step))
}

fn setup(store: &mut Store, service: &AuthService, user_id: u128) -> Result<TotpSetup, ServiceError> {
    let step = service.setup_2fa(user_id, "Example", "john@example.com");
    match store.run(service, step) {
        Ok(Success::Setup(setup)) => Ok(setup),
        Ok(_) => panic!("expected a setup"),
        Err(error) => Err(error),
    }
}

fn confirm(
    store: &mut Store,
    service: &AuthService,
    user_id: u128,
    code: &str,
) -> Result<Vec<String>, ServiceError> {
    let step = service.confirm_2fa(user_id, code);
    match store.run(service, step) {
        Ok(Success::RecoveryCodes(codes)) => Ok(codes),
        Ok(_) => panic!("expected recovery codes"),
        Err(error) => Err(error),
    }
}

fn verify(
    store: &mut Store,
    service: &AuthService,
    user_id: u128,
    code: &str,
) -> Result<SecondFactorKind, ServiceError> {
    let step = service.verify_2fa_code(user_id, code);
    match store.run(service, step) {
        Ok(Success::SecondFactor(kind)) => Ok(kind),
        Ok(_) => panic!("expected a second factor"),
        Err(error) => Err(error),
    }
}

fn disable(
    store: &mut Store,
    service: &AuthService,
    user_id: u128,
    code: &str,
) -> Result<(), ServiceError> {
    let step = service.disable_2fa(user_id, code);
    match store.run(service, step) {
        Ok(Success::Disabled) => Ok(()),
        Ok(_) => panic!("expected the second factor to be switched off"),
        Err(error) => Err(error),
    }
}

fn current_code(secret_base32: &str) -> String {
    let secret = Secret::try_from_base32(secret_base32).unwrap();

    Builder::new()
        .with_algorithm(Algorithm::SHA1)
        .with_secret(secret)
        .build()
        .unwrap()
        .generate_current()
        .to_string()
}

fn enroll(store: &mut Store, user_id: u128) -> Vec<String> {
    let service = service();
    let draft = setup(store, &service, user_id).unwrap();
    let code = current_code(&draft.secret_base32);
    confirm(store, &service, user_id, &code).unwrap()
}

// register

#[test]
fn register_creates_user_and_issues_tokens() {
    let (mut store, service) = (Store::default(), service());
    let tokens = register_user(&mut store, &service);

    assert!(!tokens.access_token.is_empty());
    assert!(!tokens.refresh_token.is_empty());
    assert_eq!(tokens.token_type, "DPoP");
    assert!(tokens.expires_in > 0);

    assert_eq!(store.john().name, "John");
}

#[test]
fn registration_stores_what_it_promises() {
    let (mut store, service) = (Store::default(), service());
    let tokens = register_as(&mut store, &service, "John@Example.com").unwrap();

    assert_eq!(tokens.expires_in, 900);
    let john = store.john();
    assert!(john.password_hash.starts_with("$argon2id$"));
    assert!(john.last_login_at.is_some());
    let token = store.token(&tokens.refresh_token);
    assert_eq!(token.user_id, john.id);
    assert_eq!(token.dpop_jkt, TEST_JKT);
    assert_eq!(store.tables.attempts.len(), 1);
    assert!(store.tables.attempts[0].success);
    assert_eq!(store.tables.attempts[0].value, "john@example.com");
    assert_eq!(store.tables.attempts[0].client_ip, TEST_IP);

    let config = config(Duration::from_secs(5), Duration::from_secs(60), true);
    let claims = verify_access_token(
        config.signer.algorithm(),
        config.signer.decoding_key(),
        &tokens.access_token,
        "https://example.com",
        "https://example.com",
        Duration::from_secs(60),
    )
    .unwrap();
    assert_eq!(claims.sub, uuid::Uuid::from_u128(john.public_id).to_string());
    assert_eq!(claims.cnf.jkt, TEST_JKT);
    assert_eq!(claims.extra.get("name").as_deref(), Some("\"John\""));
}

#[test]
fn register_conflicts_on_duplicate_identifier() {
    let (mut store, service) = (Store::default(), service());
    register_user(&mut store, &service);

    let err = register_as(&mut store, &service, "john@example.com").unwrap_err();

    assert!(matches!(err, ServiceError::Conflict(_)));
    assert_eq!(store.tables.users.len(), 1);
}

#[test]
fn register_conflict_is_case_insensitive() {
    let (mut store, service) = (Store::default(), service());
    register_user(&mut store, &service);

    let err = register_as(&mut store, &service, "JOHN@EXAMPLE.COM").unwrap_err();

    assert!(matches!(err, ServiceError::Conflict(text) if text == "email already registered"));
}

#[test]
fn register_disabled_returns_error() {
    let mut store = Store::default();
    let service = build_service(
        Duration::from_secs(5),
        Duration::from_secs(30 * 24 * 60 * 60),
        false,
    );

    let err = register_as(&mut store, &service, "john@example.com").unwrap_err();

    assert!(matches!(err, ServiceError::RegistrationDisabled));
}

#[test]
fn a_failed_registration_leaves_nothing_behind() {
    let (mut store, service) = (Store::default(), service());
    store.broken = Some("create_refresh_token");

    let err = register_as(&mut store, &service, "john@example.com").unwrap_err();

    assert!(matches!(err, ServiceError::Internal(text) if text == "db down"));
    assert!(store.tables.users.is_empty());
    assert!(store.tables.identifiers.is_empty());
    assert!(store.tables.tokens.is_empty());
}

#[test]
fn the_audit_log_is_no_reason_to_refuse() {
    let (mut store, service) = (Store::default(), service());
    store.broken = Some("record_login_attempt");

    register_user(&mut store, &service);
    assert!(login(&mut store, &service, "john@example.com", TEST_PASSWORD).is_ok());
    assert!(store.tables.attempts.is_empty());
}

// login

#[test]
fn login_success_issues_tokens() {
    let (mut store, service) = (Store::default(), service());
    register_user(&mut store, &service);

    let outcome = login(&mut store, &service, "john@example.com", TEST_PASSWORD).unwrap();

    match outcome {
        Success::Tokens(tokens) => assert!(!tokens.access_token.is_empty()),
        _ => panic!("expected Success"),
    }
}

#[test]
fn login_wrong_password_returns_unauthorized() {
    let (mut store, service) = (Store::default(), service());
    register_user(&mut store, &service);

    let err = login(&mut store, &service, "john@example.com", "wrong_password").err().unwrap();

    assert!(matches!(err, ServiceError::Unauthorized));
    assert_eq!(store.tables.attempts[1].reason, Some("wrong_password"));
}

#[test]
fn logins_are_throttled() {
    let (mut store, service) = (Store::default(), service());
    register_user(&mut store, &service);
    for _ in 0..LOGIN_FAILURE_LIMIT {
        let failed = login(&mut store, &service, "john@example.com", "wrong_password");
        assert!(matches!(failed, Err(ServiceError::Unauthorized)));
    }
    let attempts = store.tables.attempts.len();
    let tokens = store.tables.tokens.len();

    let throttled = login(&mut store, &service, "John@example.com", TEST_PASSWORD);
    assert!(matches!(throttled, Err(ServiceError::Unauthorized)));
    assert_eq!(store.tables.attempts.len(), attempts);
    assert_eq!(store.tables.tokens.len(), tokens);

    // Another identifier is not concerned, and the window ends.
    register_as(&mut store, &service, "jane@example.com").unwrap();
    assert!(login(&mut store, &service, "jane@example.com", TEST_PASSWORD).is_ok());
    for attempt in store.tables.attempts.iter_mut() {
        attempt.at -= LOGIN_WINDOW_MICROS + 5_000_000;
    }
    assert!(login(&mut store, &service, "john@example.com", TEST_PASSWORD).is_ok());
}

#[test]
fn one_failure_less_than_the_limit_is_allowed() {
    let (mut store, service) = (Store::default(), service());
    register_user(&mut store, &service);
    for _ in 1..LOGIN_FAILURE_LIMIT {
        assert!(login(&mut store, &service, "john@example.com", "wrong_password").is_err());
    }
    assert!(login(&mut store, &service, "john@example.com", TEST_PASSWORD).is_ok());
}

#[test]
fn login_unknown_identifier_returns_unauthorized() {
    let (mut store, service) = (Store::default(), service());

    let err = login(&mut store, &service, "nobody@example.com", TEST_PASSWORD).err().unwrap();

    assert!(matches!(err, ServiceError::Unauthorized));
    assert!(!store.tables.attempts[0].success);
}

#[test]
fn login_is_case_insensitive() {
    let (mut store, service) = (Store::default(), service());
    register_user(&mut store, &service);

    let outcome = login(&mut store, &service, "JOHN@EXAMPLE.COM", TEST_PASSWORD).unwrap();

    assert!(matches!(outcome, Success::Tokens(_)));
}

#[test]
fn login_requires_2fa_when_totp_enabled() {
    let (mut store, service) = (Store::default(), service());
    register_user(&mut store, &service);
    store.tables.users[0].totp_enabled = true;

    let outcome = login(&mut store, &service, "john@example.com", TEST_PASSWORD).unwrap();

    assert!(matches!(outcome, Success::Requires2fa));
    assert_eq!(store.tables.tokens.len(), 1);
}

// refresh

#[test]
fn refresh_rotates_token() {
    let (mut store, service) = (Store::default(), service());
    let old = register_user(&mut store, &service);

    let new = refresh(&mut store, &service, &old.refresh_token, TEST_JKT).unwrap();

    assert_ne!(new.refresh_token, old.refresh_token);

    // old is revoked, new is active
    let old_row = store.token(&old.refresh_token);
    assert!(old_row.revoked_at.is_some());

    let new_row = store.token(&new.refresh_token);
    assert!(new_row.revoked_at.is_none());
    assert_eq!(new_row.fam, old_row.fam);
}

#[test]
fn refresh_reuse_revokes_family() {
    // grace = 1ms so the grace entry expires quickly and we hit reuse.
    let mut store = Store::default();
    let service = build_service(
        Duration::from_millis(1),
        Duration::from_secs(38 * 24 * 60 * 60),
        true,
    );
    let old = register_user(&mut store, &service);

    let new = refresh(&mut store, &service, &old.refresh_token, TEST_JKT).unwrap();

    tokio::runtime::Runtime::new()
        .unwrap()
        .block_on(async { tokio::time::sleep(Duration::from_millis(20)).await });

    let err = refresh(&mut store, &service, &old.refresh_token, TEST_JKT).unwrap_err();
    assert!(matches!(err, ServiceError::Unauthorized));

    // the whole family is revoked, including the replacement
    assert!(store.token(&new.refresh_token).revoked_at.is_some());
}

#[test]
fn refresh_grace_returns_same_replacement() {
    let (mut store, service) = (Store::default(), service());
    let old = register_user(&mut store, &service);

    let first = refresh(&mut store, &service, &old.refresh_token, TEST_JKT).unwrap();

    // immediate reuse within the 5s grace window -> same replacement, no reuse
    let second = refresh(&mut store, &service, &old.refresh_token, TEST_JKT).unwrap();

    assert_eq!(second.refresh_token, first.refresh_token);
}

#[test]
fn a_replacement_is_for_the_holder_of_the_key() {
    let (mut store, service) = (Store::default(), service());
    let old = register_user(&mut store, &service);
    let first = refresh(&mut store, &service, &old.refresh_token, TEST_JKT).unwrap();

    let other = refresh(&mut store, &service, &old.refresh_token, "another-thumbprint");
    assert!(matches!(other, Err(ServiceError::Unauthorized)));
    assert_eq!(store.tables.tokens.len(), 2);
    assert!(store.token(&first.refresh_token).revoked_at.is_none());

    let again = refresh(&mut store, &service, &old.refresh_token, TEST_JKT).unwrap();
    assert_eq!(again.refresh_token, first.refresh_token);
    assert_eq!(again.access_token, first.access_token);
}

#[test]
fn refresh_inherits_lifetime() {
    let mut store = Store::default();
    let service = build_service(Duration::from_secs(5), Duration::from_secs(60), true);
    let old = register_user(&mut store, &service);

    let old_expires = store.token(&old.refresh_token).expires_at;

    tokio::runtime::Runtime::new()
        .unwrap()
        .block_on(async { tokio::time::sleep(Duration::from_secs(1)).await });

    let new = refresh(&mut store, &service, &old.refresh_token, TEST_JKT).unwrap();

    // lifetime is inherited, not reset (RFC 9700 section 4.14)
    assert_eq!(store.token(&new.refresh_token).expires_at, old_expires);
}

#[test]
fn refresh_dpop_key_mismatch_rejected() {
    let (mut store, service) = (Store::default(), service());
    let old = register_user(&mut store, &service);

    let err = refresh(&mut store, &service, &old.refresh_token, "some-other-jkt").unwrap_err();

    assert!(matches!(err, ServiceError::Unauthorized));
    assert!(store.token(&old.refresh_token).revoked_at.is_none());
}

#[test]
fn refresh_unknown_token_rejected() {
    let (mut store, service) = (Store::default(), service());

    let err = refresh(&mut store, &service, "not-a-real-refersh-token", TEST_JKT).unwrap_err();

    assert!(matches!(err, ServiceError::Unauthorized));
}

#[test]
fn an_expired_token_is_refused_and_stays_as_it_is() {
    let (mut store, service) = (Store::default(), service());
    let old = register_user(&mut store, &service);
    store.tables.tokens[0].expires_at = now() - 1;

    let err = refresh(&mut store, &service, &old.refresh_token, TEST_JKT).unwrap_err();

    assert!(matches!(err, ServiceError::Unauthorized));
    assert!(store.token(&old.refresh_token).revoked_at.is_none());
    assert_eq!(store.tables.tokens.len(), 1);
}

#[test]
fn a_rotation_that_is_not_committed_is_rolled_back() {
    let (mut store, service) = (Store::default(), service());
    let old = register_user(&mut store, &service);
    store.broken = Some("commit");

    let err = refresh(&mut store, &service, &old.refresh_token, TEST_JKT).unwrap_err();

    assert!(matches!(err, ServiceError::Internal(_)));
    assert!(store.token(&old.refresh_token).revoked_at.is_none());
    assert_eq!(store.tables.tokens.len(), 1);
}

// logout

#[test]
fn logout_revokes_token() {
    let (mut store, service) = (Store::default(), service());
    let tokens = register_user(&mut store, &service);

    let step = service.logout(&tokens.refresh_token);
    assert!(matches!(store.run(&service, step), Ok(Success::LoggedOut)));

    let err = refresh(&mut store, &service, &tokens.refresh_token, TEST_JKT).unwrap_err();
    assert!(matches!(err, ServiceError::Unauthorized));
}

// second factor

#[test]
fn setup_confirms_then_activates_2fa() {
    let (mut store, service) = (Store::default(), service());
    register_user(&mut store, &service);
    let user_id = store.john().id;

    // Phase 1: setup writes ONLY a pending draft, not the active secret.
    let draft = setup(&mut store, &service, user_id).unwrap();
    assert!(!draft.secret_base32.is_empty());

    let before = store.john();
    assert!(!before.totp_enabled);
    assert!(before.totp_secret.is_none(), "active secret untouched by setup");

    // Phase 2+3: confirm verifies the draft + TTL, then activates atomically.
    let code = current_code(&draft.secret_base32);
    let recovery_codes = confirm(&mut store, &service, user_id, &code).unwrap();

    assert_eq!(recovery_codes.len(), 10);
    assert!(recovery_codes.iter().all(|c| is_recovery_code(c)));

    let enabled = store.john();
    assert!(enabled.totp_enabled);
    assert!(enabled.totp_enabled_at.is_some());
    assert_eq!(enabled.totp_secret.as_deref(), Some(&draft.secret_base32[..]));
    assert!(
        enabled.totp_pending_secret.is_none(),
        "pending secret cleared after activation"
    );
}

#[test]
fn confirm_2fa_rejects_wrong_code() {
    let (mut store, service) = (Store::default(), service());
    register_user(&mut store, &service);
    let user_id = store.john().id;

    setup(&mut store, &service, user_id).unwrap();
    assert!(matches!(
        confirm(&mut store, &service, user_id, "000000"),
        Err(ServiceError::Unauthorized)
    ));

    let after = store.john();
    assert!(!after.totp_enabled, "wrong code must not activate 2FA");
    assert!(after.totp_secret.is_none());
}

#[test]
fn expired_draft_is_rejected() {
    let (mut store, service) = (Store::default(), service());
    register_user(&mut store, &service);
    let user_id = store.john().id;

    let draft = setup(&mut store, &service, user_id).unwrap();

    // Age the draft past the 10-minutes TTL.
    store.tables.users[0].totp_pending_at = Some(now() - 11 * 60 * 1_000_000);

    let code = current_code(&draft.secret_base32);
    assert!(matches!(
        confirm(&mut store, &service, user_id, &code),
        Err(ServiceError::Conflict(_))
    ));

    let after = store.john();
    assert!(!after.totp_enabled, "expired draft must not activate");
    assert!(after.totp_secret.is_none());
    assert!(after.totp_pending_secret.is_some());
    assert!(after.totp_pending_at.is_some());
}

#[test]
fn setup_2fa_returns_same_live_draft() {
    let (mut store, service) = (Store::default(), service());
    register_user(&mut store, &service);
    let user_id = store.john().id;

    let first = setup(&mut store, &service, user_id).unwrap();
    let second = setup(&mut store, &service, user_id).unwrap();

    // A live draft is resumed, not replaced and not blocked.
    assert_eq!(second.secret_base32, first.secret_base32);
    assert_eq!(second.otpauth_url, first.otpauth_url);

    // The re-shown draft is still valid for confirmation.
    let code = current_code(&second.secret_base32);
    let recovery_codes = confirm(&mut store, &service, user_id, &code).unwrap();
    assert_eq!(recovery_codes.len(), 10);
}

#[test]
fn verify_2fa_code_rejects_replay() {
    let (mut store, service) = (Store::default(), service());
    register_user(&mut store, &service);
    let user_id = store.john().id;

    let recovery_codes = enroll(&mut store, user_id);
    assert_eq!(recovery_codes.len(), 10);

    // The step-up code must be generated from the ACTIVE secret.
    let active_secret = store.john().totp_secret.clone().unwrap();

    let step_up = current_code(&active_secret);
    assert_eq!(
        verify(&mut store, &service, user_id, &step_up).unwrap(),
        SecondFactorKind::Totp
    );
    assert!(matches!(
        verify(&mut store, &service, user_id, &step_up),
        Err(ServiceError::Unauthorized)
    ));
}

#[test]
fn recovery_code_is_single_use() {
    let (mut store, service) = (Store::default(), service());
    register_user(&mut store, &service);
    let user_id = store.john().id;

    let recovery_codes = enroll(&mut store, user_id);
    assert_eq!(recovery_codes.len(), 10);

    let used = verify(&mut store, &service, user_id, &recovery_codes[0]).unwrap();
    assert_eq!(used, SecondFactorKind::RecoveryCode);

    let again = verify(&mut store, &service, user_id, &recovery_codes[0]);
    assert!(matches!(again, Err(ServiceError::Unauthorized)));
}

#[test]
fn disable_2fa_clears_state() {
    let (mut store, service) = (Store::default(), service());
    register_user(&mut store, &service);
    let user_id = store.john().id;

    let recovery_codes = enroll(&mut store, user_id);

    disable(&mut store, &service, user_id, &recovery_codes[0]).unwrap();

    let updated_user = store.john();

    assert!(!updated_user.totp_enabled);
    assert!(updated_user.totp_secret.is_none());
    assert!(updated_user.totp_pending_secret.is_none());

    let active = store.tables.codes.iter().filter(|code| code.used_at.is_none()).count();
    assert_eq!(active, 0);
}

#[test]
fn the_second_factor_says_what_it_lacks() {
    let (mut store, service) = (Store::default(), service());
    register_user(&mut store, &service);
    let user_id = store.john().id;

    assert!(matches!(
        confirm(&mut store, &service, user_id, "000000"),
        Err(ServiceError::Conflict(text)) if text == "setup expired, run setup_2fa again"
    ));
    assert!(matches!(
        disable(&mut store, &service, user_id, "000000"),
        Err(ServiceError::Conflict(text)) if text == "2FA is not enabled"
    ));
    let recovery_codes = enroll(&mut store, user_id);
    assert!(matches!(
        setup(&mut store, &service, user_id),
        Err(ServiceError::Conflict(text)) if text == "2FA already enabled"
    ));
    assert!(matches!(
        disable(&mut store, &service, user_id, "000000"),
        Err(ServiceError::Unauthorized)
    ));
    assert!(store.john().totp_enabled);
    assert!(matches!(
        setup(&mut store, &service, 0),
        Err(ServiceError::Unauthorized)
    ));

    // A recovery code of one user does nothing for another.
    register_as(&mut store, &service, "jane@example.com").unwrap();
    let jane = store.tables.users[1].id;
    store.tables.users[1].totp_enabled = true;
    assert!(matches!(
        verify(&mut store, &service, jane, &recovery_codes[0]),
        Err(ServiceError::Unauthorized)
    ));
    assert!(verify(&mut store, &service, user_id, &recovery_codes[0]).is_ok());
}

#[test]
fn an_activation_that_fails_changes_nothing() {
    let (mut store, service) = (Store::default(), service());
    register_user(&mut store, &service);
    let user_id = store.john().id;
    let draft = setup(&mut store, &service, user_id).unwrap();
    store.broken = Some("create_recovery_codes");

    let code = current_code(&draft.secret_base32);
    assert!(matches!(
        confirm(&mut store, &service, user_id, &code),
        Err(ServiceError::Internal(_))
    ));
    assert!(!store.john().totp_enabled);
    assert!(store.john().totp_pending_secret.is_some());
}

// steps

#[test]
fn a_reply_to_another_query_ends_the_operation() {
    let service = service();
    match service.settle(service.logout("secret")) {
        Settled::Ask(query, flow) => {
            assert!(matches!(
                query,
                Query::RevokeTokenByHash { token_hash } if token_hash == hash_token(b"secret")
            ));
            match advance(flow, Reply::Failures(1), 900) {
                Step::Done(Err(failure)) => assert!(matches!(
                    failure.into_error(),
                    ServiceError::Internal(text) if text == "the reply answers another query"
                )),
                _ => panic!("expected a failure"),
            }
        }
        _ => panic!("expected a query"),
    }
}

#[test]
fn the_service_answers_what_needs_no_store() {
    let service = service();
    assert!(matches!(
        service.answer(&Query::NewSecret),
        Answer::Reply(Reply::Secret { secret, hash }) if hash == hash_token(secret.as_bytes())
    ));
    assert!(matches!(
        service.answer(&Query::NewFamily),
        Answer::Reply(Reply::Family(fam)) if fam != 0
    ));
    assert!(matches!(service.answer(&Query::CurrentTime), Answer::Reply(Reply::Time(_))));
    assert!(matches!(service.answer(&Query::Begin), Answer::Outside));

    let endless = build_service(Duration::from_secs(5), Duration::from_secs(1 << 62), true);
    assert!(matches!(endless.answer(&Query::RefreshExpiry), Answer::OutOfRange));
}

#[test]
fn expiries_stay_in_the_range_of_times() {
    assert_eq!(refresh_expiry(0, Duration::from_secs(60)), Some(60_000_000));
    assert_eq!(refresh_expiry(5, Duration::from_millis(1_500)), Some(1_000_005));
    assert_eq!(refresh_expiry(LAST_TIME, Duration::from_secs(0)), Some(LAST_TIME));
    assert_eq!(refresh_expiry(LAST_TIME, Duration::from_secs(1)), None);
    assert_eq!(refresh_expiry(0, Duration::from_secs(1 << 62)), None);
    assert_eq!(refresh_expiry(0, Duration::from_secs(u64::MAX)), None);
    assert_eq!(refresh_expiry(FIRST_TIME, Duration::from_secs(u64::MAX)), None);
}

#[test]
fn a_code_is_claimed_without_white_space() {
    let (mut store, service) = (Store::default(), service());
    register_user(&mut store, &service);
    let user_id = store.john().id;
    let secret = setup(&mut store, &service, user_id).unwrap().secret_base32;
    confirm(&mut store, &service, user_id, &current_code(&secret)).unwrap();
    let code = current_code(&secret);

    assert!(verify(&mut store, &service, user_id, &format!(" {} ", code)).is_ok());
    assert!(verify(&mut store, &service, user_id, &code).is_err());
    let claims = service.answer(&Query::ClaimTotp { user_id, code: code.clone() });
    assert!(matches!(claims, Answer::Reply(Reply::Fresh(claim)) if !claim.is_fresh()));
    let claims = service.answer(&Query::ClaimTotp { user_id: user_id + 1, code });
    assert!(matches!(claims, Answer::Reply(Reply::Fresh(claim)) if claim.is_fresh()));
}

#[test]
fn a_drawn_secret_comes_with_its_hash() {
    match secret_reply(Ok(vec![0; 32])) {
        Reply::Secret { secret, hash } => {
            assert_eq!(secret, "AAAAAAAAAAAAAAAAAAAAAAAAAAAAAAAAAAAAAAAAAAA");
            assert_eq!(hash, hash_token(secret.as_bytes()));
        }
        _ => panic!("no secret"),
    }
    match secret_reply(Err("no entropy".to_string())) {
        Reply::Failed { message } => assert_eq!(message, "no entropy"),
        _ => panic!("no failure"),
    }
}

#[test]
fn drawn_codes_come_with_their_hashes() {
    let drawn = vec!["ABCDE-12345-ABCDE-12345".to_string(), "other".to_string()];
    match codes_reply(Ok(drawn.clone())) {
        Reply::Codes { codes, hashes } => {
            assert_eq!(codes, drawn);
            assert_eq!(hashes, [hash_token(b"abcde-12345-abcde-12345"), hash_token(b"other")]);
        }
        _ => panic!("no codes"),
    }
    match codes_reply(Err(DpopError::Internal("no entropy".to_string()))) {
        Reply::Failed { message } => assert_eq!(message, "internal error: no entropy"),
        _ => panic!("no failure"),
    }
}
