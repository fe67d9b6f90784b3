//! The operations of the service, and the queries that it answers itself.

use std::time::Duration;

use vstd::prelude::*;

use crate::cache::{
    claim_code, create_totp_replay_cache, is_cache_ttl, nanoseconds, totp_cache_ttl,
    TotpReplayCache, TOTP_REPLAY_TTL_SECS,
};
use crate::config::{DpopConfig, DpopConfigView};
use crate::crypto::entropy::{
    is_refresh_secret, is_uuid_text, lowercase, print_uuid, random_bytes, random_uuid, uuid_text,
    REFRESH_SECRET_LEN,
};
use crate::crypto::password::{hash_password, password_verdict, verify_password};
use crate::crypto::{base64url, encode_base64url, hash_token, token_hash};
use crate::error::{error_text, DpopError, DpopErrorView};
use crate::json::{string_json, write_string, JsonMap};
use crate::service::flow::{
    advance, next, CodeForm, Failure, Flow, LoginForm, Query, RefreshForm, RegisterForm, Reply,
    Step, Success,
};
use crate::service::flow::{law_operations_end, step_queries};
use crate::service::grace::{
    grace_cache_ttl, grace_get, grace_put, new_grace_cache, GraceCache, ReplacementTokens,
};
use crate::store::error::{ServiceError, ServiceErrorView};
use crate::text::{bytes_of, joined, outcome, texts, trim, trimmed};
use crate::time::{duration_nanos, duration_secs};
use crate::token::{is_issue, issue_access_token, issued_claims};
use crate::totp::{
    accepted_at, generate_recovery_codes, generate_setup, has_code_format, hash_recovery_code,
    is_fresh_secret, is_generated_code, is_recovery_code, recovery_hash, setup_from_secret,
    setup_outcome, verify_code, TotpSetup,
};

verus! {

/// Token type per RFC 9449: access tokens are DPoP-bound.
pub const TOKEN_TYPE: &'static str = "DPoP";

/// Maximum capacity of the refresh-token grace-period cache.
pub const GRACE_CAPACITY: u64 = 100_000;

/// Number of recovery codes that are issued together.
pub const RECOVERY_CODE_COUNT: usize = 10;

/// The earliest and the latest time of a row, in microseconds since the Unix epoch.
pub const FIRST_TIME: i64 = -8_334_601_228_800_000_000;

/// The latest time of a row, in microseconds since the Unix epoch.
pub const LAST_TIME: i64 = 8_210_266_876_799_999_999;

/// Parameters required to register a new user in [`AuthService::register`].
///
/// Encapsulates user identity, credentials, DPoP key binding, and audit
/// metadata into a single parameter struct to keep function signatures clean.
pub struct RegisterParams<'a> {
    /// The type of identifier being registered (e.g., `"email"`, `"username"`, `"phone"`).
    pub kind: &'a str,
    /// The raw identifier value (e.g., `"john@example.com"`).
    ///
    /// Normalized and stored according to application-level identifier rules.
    pub value: &'a str,
    /// Plaintext password provided by the user.
    ///
    /// Hashed with Argon2id prior to persistence.
    pub password: &'a str,
    /// Display or full name pf the user.
    pub name: &'a str,
    /// JWK Thumbprint (RFC 7638 `jkt`) derived from the client's DPoP public key.
    ///
    /// Binds the initial session (and issued access/refresh tokens) to the client's key pair.
    pub jkt: &'a str,
    /// Remote IP address of the client submitting the registration request.
    ///
    /// Recorded in `dpop_login_attempts` for audit and rate-limiting purposes.
    pub client_ip: &'a str,
    /// Optional `User-Agent` HTTP header value for session tracking.
    pub user_agent: Option<String>,
}

/// An access + refresh token pair issued on register/login/refresh.
#[derive(Debug, Clone)]
pub struct TokenPair {
    /// DPoP-bound access token (short-lived).
    pub access_token: String,
    /// Raw refresh secret, delivered to the client exactly once.
    pub refresh_token: String,
    /// Token type (`DPoP`).
    pub token_type: &'static str,
    /// Access-token lifetime in seconds.
    pub expires_in: u64,
}

/// The outcome of a login attempt.
#[derive(Debug)]
#[non_exhaustive]
pub enum LoginOutcome {
    /// Password accepted, a token pair was issued.
    Success {
        /// The issued tokens.
        tokens: TokenPair,
    },
    /// Password accepted, but a second factor is required.
    Requires2fa,
}

/// `chrono::Utc::now` in microseconds since the Unix epoch.
#[verifier::external_body]
fn current_micros() -> (now: i64) {
    chrono::Utc::now().timestamp_micros()
}

/// When a refresh token that is issued at the time `now` expires, if that is a time.
pub open spec fn expiry_time(now: i64, ttl_secs: u64) -> Option<i64> {
    let at = now + ttl_secs * 1_000_000;
    if FIRST_TIME <= at && at <= LAST_TIME {
        Some(at as i64)
    } else {
        None
    }
}

/// Calculate the expiration timestamp for a brand-new refresh token.
pub fn refresh_expiry(now: i64, ttl: Duration) -> (expiry: Option<i64>)
    ensures
        expiry == expiry_time(now, duration_secs(ttl)),
{
    let at: i128 = now as i128 + ttl.as_secs() as i128 * 1_000_000;
    if FIRST_TIME as i128 <= at && at <= LAST_TIME as i128 {
        Some(at as i64)
    } else {
        None
    }
}

/// High-level authentication service over the `dpop_*` schema.
pub struct AuthService {
    config: DpopConfig,
    /// A valid Argon2 hash used to equalize timing for unknown users.
    dummy_hash: String,
    grace_cache: GraceCache,
    totp_replay_cache: TotpReplayCache,
}

/// An [`AuthService`]: its configuration, its dummy hash, and the handles of its caches.
#[verifier::ext_equal]
pub struct ServiceView {
    pub config: DpopConfigView,
    pub dummy_hash: Seq<char>,
    pub grace_cache: GraceCache,
    pub totp_replay_cache: TotpReplayCache,
}

impl View for AuthService {
    type V = ServiceView;

    closed spec fn view(&self) -> ServiceView {
        ServiceView {
            config: self.config@,
            dummy_hash: self.dummy_hash@,
            grace_cache: self.grace_cache,
            totp_replay_cache: self.totp_replay_cache,
        }
    }
}

/// The queries that the service answers itself.
pub open spec fn is_local(query: Query) -> bool {
    match query {
        Query::HashPassword { .. } => true,
        Query::VerifyPassword { .. } => true,
        Query::NewSecret => true,
        Query::NewFamily => true,
        Query::RefreshExpiry => true,
        Query::CurrentTime => true,
        Query::SignAccess { .. } => true,
        Query::GraceLookup { .. } => true,
        Query::GraceStore { .. } => true,
        Query::VerifyTotp { .. } => true,
        Query::ClaimTotp { .. } => true,
        Query::NewTotpSetup { .. } => true,
        Query::TotpSetupFrom { .. } => true,
        Query::NewRecoveryCodes => true,
        _ => false,
    }
}

/// The extra claims of a user's access token.
pub open spec fn name_claim(name: Seq<char>) -> Map<Seq<char>, Seq<char>> {
    Map::empty().insert("name"@, string_json(name))
}

/// Whether a reply is what issuing an access token for a user gives.
pub open spec fn is_signed(
    config: DpopConfigView,
    subject: u128,
    name: Seq<char>,
    jkt: Seq<char>,
    reply: Reply,
) -> bool {
    exists|result: Result<Seq<char>, DpopErrorView>, now: u64, jti: Seq<char>|
        is_uuid_text(jti) && is_issue(
            result,
            config.signer,
            #[trigger] issued_claims(
                config.issuer,
                config.audience,
                duration_secs(config.access_token_ttl) as nat,
                uuid_text(subject),
                jkt,
                name_claim(name),
                now,
                jti,
            ),
        ) && #[trigger] is_access_reply(result, reply)
}

/// Whether a reply hands on the outcome of issuing an access token.
pub open spec fn is_access_reply(result: Result<Seq<char>, DpopErrorView>, reply: Reply) -> bool {
    match result {
        Ok(token) => reply matches Reply::Access(text) && text@ == token,
        Err(error) => reply matches Reply::Failed { message } && message@ == error_text(error),
    }
}

/// Whether a reply is the verdict on a code at the given time.
pub open spec fn is_totp_reply(
    secret: Seq<char>,
    code: Seq<char>,
    time: u64,
    reply: Reply,
) -> bool {
    reply == Reply::Verdict(accepted_at(secret, code, time))
}

/// Whether a reply is the verdict on a code at some time.
pub open spec fn is_totp_answer(secret: Seq<char>, code: Seq<char>, reply: Reply) -> bool {
    exists|time: u64| #[trigger] is_totp_reply(secret, code, time, reply)
}

/// Whether a reply hands on the outcome of a setup.
pub open spec fn is_setup_reply(
    secret: Seq<char>,
    issuer: Seq<char>,
    account_name: Seq<char>,
    reply: Reply,
) -> bool {
    match setup_outcome(secret, issuer, account_name) {
        Ok(setup) => reply matches Reply::Setup(given) && given@ == setup,
        Err(error) => reply matches Reply::Failed { message } && message@ == error_text(error),
    }
}

/// Whether a reply is one that the service gives to a query of its own.
pub open spec fn is_answer(service: ServiceView, query: Query, reply: Reply) -> bool {
    match query {
        Query::HashPassword { password } => match reply {
            Reply::Hash(hash) => password_verdict(password@, hash@) == Ok::<_, ServiceErrorView>(
                true,
            ),
            Reply::Failed { .. } => true,
            _ => false,
        },
        Query::VerifyPassword { password, hash } => {
            let stored = match hash {
                Some(hash) => hash@,
                None => service.dummy_hash,
            };
            match password_verdict(password@, stored) {
                Ok(right) => reply == Reply::Verdict(right),
                Err(error) => reply matches Reply::Failed { message } && error
                    == ServiceErrorView::Internal(message@),
            }
        },
        Query::NewSecret => match reply {
            Reply::Secret { secret, hash } => is_refresh_secret(secret@) && hash@ == token_hash(
                bytes_of(secret@),
            ),
            Reply::Failed { .. } => true,
            _ => false,
        },
        Query::NewFamily => reply is Family,
        Query::RefreshExpiry => reply matches Reply::Expiry(at) && exists|now: i64| #[trigger]
            expiry_time(now, duration_secs(service.config.refresh_token_ttl)) == Some(at),
        Query::CurrentTime => reply is Time,
        Query::SignAccess { subject, name, jkt } => is_signed(
            service.config,
            subject,
            name@,
            jkt@,
            reply,
        ),
        Query::GraceLookup { fam, token_hash } => {
            &&& reply matches Reply::Cached(lookup)
            &&& lookup.cache() == service.grace_cache
            &&& lookup.fam() == fam
            &&& lookup.token_hash() == token_hash@
        },
        Query::GraceStore { fam, token_hash, tokens } => {
            &&& reply matches Reply::Remembered(entry)
            &&& entry.cache() == service.grace_cache
            &&& entry.fam() == fam
            &&& entry.token_hash() == token_hash@
            &&& entry.tokens() == tokens
        },
        Query::VerifyTotp { secret, code } => is_totp_answer(secret@, code@, reply),
        Query::ClaimTotp { user_id, code } => {
            &&& reply matches Reply::Fresh(claim)
            &&& claim.cache() == service.totp_replay_cache
            &&& claim.user_id() == user_id
            &&& claim.code() == code@
        },
        Query::NewTotpSetup { issuer, account_name } => exists|secret: Seq<char>| #[trigger]
            is_fresh_secret(secret) && is_setup_reply(secret, issuer@, account_name@, reply),
        Query::TotpSetupFrom { secret, issuer, account_name } => is_setup_reply(
            secret@,
            issuer@,
            account_name@,
            reply,
        ),
        Query::NewRecoveryCodes => match reply {
            Reply::Codes { codes, hashes } => are_codes(codes@, hashes@),
            Reply::Failed { message } => is_internal_error_text(message@),
            _ => false,
        },
        _ => false,
    }
}

/// Whether a text is that of an internal error.
pub open spec fn is_internal_error_text(message: Seq<char>) -> bool {
    exists|text: Seq<char>| message == #[trigger] error_text(DpopErrorView::Internal(text))
}

/// Whether a reply hands on a refresh secret made of the bytes, and its hash, or the
/// message of a failed source of bytes.
pub open spec fn is_secret_reply(bytes: Result<Seq<u8>, Seq<char>>, reply: Reply) -> bool {
    match bytes {
        Ok(bytes) => reply matches Reply::Secret { secret, hash } && secret@ == base64url(bytes)
            && hash@ == token_hash(bytes_of(base64url(bytes))),
        Err(text) => reply matches Reply::Failed { message } && message@ == text,
    }
}

/// Whether a reply hands on recovery codes and their hashes, or the text of the error.
pub open spec fn is_codes_reply(result: Result<Vec<String>, DpopError>, reply: Reply) -> bool {
    match result {
        Ok(drawn) => {
            &&& reply matches Reply::Codes { codes, hashes }
            &&& codes == drawn
            &&& hashes@.len() == codes@.len()
            &&& forall|i: int|
                0 <= i < codes@.len() ==> (#[trigger] hashes@[i])@ == recovery_hash(codes@[i]@)
        },
        Err(error) => reply matches Reply::Failed { message } && message@ == error_text(error@),
    }
}

/// Whether a list is a full set of different recovery codes, and the other that of their hashes.
pub open spec fn are_codes(codes: Seq<String>, hashes: Seq<String>) -> bool {
    &&& codes.len() == RECOVERY_CODE_COUNT
    &&& texts(codes).no_duplicates()
    &&& hashes.len() == codes.len()
    &&& forall|i: int|
        0 <= i < codes.len() ==> is_generated_code((#[trigger] codes[i])@) && has_code_format(
            codes[i]@,
        )
    &&& forall|i: int|
        0 <= i < codes.len() ==> (#[trigger] hashes[i])@ == recovery_hash(codes[i]@)
}

/// What the service makes of a query.
pub enum Answer {
    /// It answers it itself.
    Reply(Reply),
    /// The store has to answer it.
    Outside,
    /// The lifetime of refresh tokens leads to no time.
    OutOfRange,
}

/// The hashes of recovery codes.
fn hash_codes(codes: &Vec<String>) -> (hashes: Vec<String>)
    ensures
        hashes@.len() == codes@.len(),
        forall|i: int| 0 <= i < codes@.len() ==> (#[trigger] hashes@[i])@ == recovery_hash(codes@[i]@),
{
    let mut hashes: Vec<String> = Vec::new();
    let mut i: usize = 0;
    while i < codes.len()
        invariant
            i <= codes@.len(),
            hashes@.len() == i,
            forall|j: int| 0 <= j < i ==> (#[trigger] hashes@[j])@ == recovery_hash(codes@[j]@),
        decreases codes@.len() - i,
    {
        hashes.push(hash_recovery_code(&codes[i]));
        i += 1;
    }
    hashes
}

/// The reply that hands on the refresh secret made of random bytes, or the message of a
/// failed source of them.
pub fn secret_reply(bytes: Result<Vec<u8>, String>) -> (reply: Reply)
    requires
        bytes is Ok ==> bytes->Ok_0@.len() == REFRESH_SECRET_LEN,
    ensures
        is_secret_reply(outcome(bytes), reply),
{
    match bytes {
        Ok(bytes) => {
            let secret = encode_base64url(&bytes);
            let hash = hash_token(secret.as_str().as_bytes());
            Reply::Secret { secret, hash }
        },
        Err(message) => Reply::Failed { message },
    }
}

/// The reply that hands on the outcome of drawing recovery codes.
pub fn codes_reply(result: Result<Vec<String>, DpopError>) -> (reply: Reply)
    ensures
        is_codes_reply(result, reply),
{
    match result {
        Ok(codes) => {
            let hashes = hash_codes(&codes);
            Reply::Codes { codes, hashes }
        },
        Err(error) => Reply::Failed { message: error.to_string() },
    }
}

/// The reply that hands on the outcome of a setup.
fn setup_reply(result: Result<TotpSetup, DpopError>) -> (reply: Reply)
    ensures
        match result {
            Ok(setup) => reply == Reply::Setup(setup),
            Err(error) => reply matches Reply::Failed { message } && message@ == error_text(error@),
        },
{
    match result {
        Ok(setup) => Reply::Setup(setup),
        Err(error) => Reply::Failed { message: error.to_string() },
    }
}

impl AuthService {
    /// Create the service.
    ///
    /// Pre-computes the timing-equalizing dummy hash once using Argon2id.
    /// This prevents side-channel user enumeration attacks on the login path.
    pub fn new(config: DpopConfig) -> (service: AuthService)
        requires
            is_cache_ttl(config.grace_period),
        ensures
            service@.config == config@,
            service@.dummy_hash.len() == 0 || password_verdict(
                "dpop-auth-timing-dummy"@,
                service@.dummy_hash,
            ) == Ok::<_, ServiceErrorView>(true),
            service.grace_lifetime() == nanoseconds(
                duration_secs(config.grace_period) as nat,
                duration_nanos(config.grace_period) as nat,
            ),
            service.replay_lifetime() == nanoseconds(TOTP_REPLAY_TTL_SECS as nat, 0),
    {
        let dummy_hash = match hash_password("dpop-auth-timing-dummy") {
            Ok(hash) => hash,
            Err(_) => String::new(),
        };
        let grace_cache = new_grace_cache(
            config.grace_period.as_secs(),
            config.grace_period.subsec_nanos(),
            GRACE_CAPACITY,
        );
        AuthService {
            config,
            dummy_hash,
            grace_cache,
            totp_replay_cache: create_totp_replay_cache(),
        }
    }

    /// The time in nanoseconds for which the replacement of a rotated token is remembered.
    pub closed spec fn grace_lifetime(&self) -> nat {
        grace_cache_ttl(self.grace_cache)
    }

    /// The time in nanoseconds for which a used code is remembered.
    pub closed spec fn replay_lifetime(&self) -> nat {
        totp_cache_ttl(self.totp_replay_cache)
    }

    /// Issue a DPoP-bound access token for a user.
    fn sign_access(&self, subject: u128, name: &str, jkt: &str) -> (reply: Reply)
        ensures
            is_signed(self@.config, subject, name@, jkt@, reply),
    {
        let mut extra = JsonMap::new();
        extra.insert_raw("name", write_string(name));
        assert(extra@ == name_claim(name@));
        let subject_text = print_uuid(subject);
        let result = issue_access_token(
            &self.config.signer,
            &self.config.issuer,
            &self.config.audience,
            self.config.access_token_ttl,
            &subject_text,
            jkt,
            extra,
        );
        let ghost signed = outcome(result);
        let reply = match result {
            Ok(token) => Reply::Access(token),
            Err(error) => Reply::Failed { message: error.to_string() },
        };
        proof {
            let (now, jti) = choose|now: u64, jti: Seq<char>|
                is_uuid_text(jti) && is_issue(
                    signed,
                    self@.config.signer,
                    #[trigger] issued_claims(
                        self@.config.issuer,
                        self@.config.audience,
                        duration_secs(self@.config.access_token_ttl) as nat,
                        uuid_text(subject),
                        jkt@,
                        name_claim(name@),
                        now,
                        jti,
                    ),
                );
            assert(is_access_reply(signed, reply));
        }
        reply
    }

    /// Draws a refresh secret.
    fn draw_secret(&self) -> (reply: Reply)
        ensures
            is_answer(self@, Query::NewSecret, reply),
    {
        secret_reply(random_bytes(REFRESH_SECRET_LEN))
    }

    /// Draws a set of recovery codes.
    fn draw_codes(&self) -> (reply: Reply)
        ensures
            is_answer(self@, Query::NewRecoveryCodes, reply),
    {
        let result = generate_recovery_codes(RECOVERY_CODE_COUNT);
        proof {
            if result is Err {
                assert(is_internal_error_text(error_text(result->Err_0@)));
            }
        }
        codes_reply(result)
    }

    /// Verifies a password, against the dummy hash where there is no other.
    fn check_password(&self, password: &String, hash: &Option<String>) -> (reply: Reply)
        ensures
            is_answer(self@, Query::VerifyPassword { password: *password, hash: *hash }, reply),
    {
        let result = match hash {
            Some(hash) => verify_password(password, hash),
            None => verify_password(password, &self.dummy_hash),
        };
        match result {
            Ok(right) => Reply::Verdict(right),
            Err(ServiceError::Internal(message)) => Reply::Failed { message },
            Err(error) => Reply::Failed { message: error.to_string() },
        }
    }

    /// Verifies a TOTP code.
    fn check_totp(&self, secret: &String, code: &String) -> (reply: Reply)
        ensures
            is_answer(self@, Query::VerifyTotp { secret: *secret, code: *code }, reply),
    {
        let right = verify_code(secret, code);
        let reply = Reply::Verdict(right);
        proof {
            let time = choose|time: u64| right == #[trigger] accepted_at(secret@, code@, time);
            assert(is_totp_reply(secret@, code@, time, reply));
            assert(is_totp_answer(secret@, code@, reply));
        }
        reply
    }

    /// Draws a TOTP secret and sets it up.
    fn draw_setup(&self, issuer: &String, account_name: &String) -> (reply: Reply)
        ensures
            is_answer(
                self@,
                Query::NewTotpSetup { issuer: *issuer, account_name: *account_name },
                reply,
            ),
    {
        let result = generate_setup(issuer, account_name);
        let ghost made = outcome(result);
        let reply = setup_reply(result);
        proof {
            let secret = choose|secret: Seq<char>| #[trigger]
                is_fresh_secret(secret) && made == setup_outcome(secret, issuer@, account_name@);
            assert(is_setup_reply(secret, issuer@, account_name@, reply));
        }
        reply
    }

    /// Answers a query, if the service can answer it itself.
    pub fn answer(&self, query: &Query) -> (answer: Answer)
        ensures
            match answer {
                Answer::Reply(reply) => is_local(*query) && is_answer(self@, *query, reply),
                Answer::Outside => !is_local(*query),
                Answer::OutOfRange => *query is RefreshExpiry && exists|now: i64| #[trigger]
                    expiry_time(now, duration_secs(self@.config.refresh_token_ttl)) is None,
            },
    {
        match query {
            Query::HashPassword { password } => Answer::Reply(
                match hash_password(password) {
                    Ok(hash) => Reply::Hash(hash),
                    Err(ServiceError::Internal(message)) => Reply::Failed { message },
                    Err(error) => Reply::Failed { message: error.to_string() },
                },
            ),
            Query::VerifyPassword { password, hash } => Answer::Reply(
                self.check_password(password, hash),
            ),
            Query::NewSecret => Answer::Reply(self.draw_secret()),
            Query::NewFamily => Answer::Reply(Reply::Family(random_uuid())),
            Query::RefreshExpiry => {
                let now: i64 = current_micros();
                match refresh_expiry(now, self.config.refresh_token_ttl) {
                    Some(at) => {
                        assert(is_answer(self@, *query, Reply::Expiry(at)));
                        Answer::Reply(Reply::Expiry(at))
                    },
                    None => {
                        assert(expiry_time(now, duration_secs(self@.config.refresh_token_ttl)) is None);
                        Answer::OutOfRange
                    },
                }
            },
            Query::CurrentTime => Answer::Reply(Reply::Time(current_micros())),
            Query::SignAccess { subject, name, jkt } => Answer::Reply(
                self.sign_access(*subject, name, jkt),
            ),
            Query::GraceLookup { fam, token_hash } => Answer::Reply(
                Reply::Cached(grace_get(&self.grace_cache, *fam, token_hash)),
            ),
            Query::GraceStore { fam, token_hash, tokens } => Answer::Reply(
                Reply::Remembered(grace_put(&self.grace_cache, *fam, token_hash, tokens.clone())),
            ),
            Query::VerifyTotp { secret, code } => Answer::Reply(self.check_totp(secret, code)),
            Query::ClaimTotp { user_id, code } => Answer::Reply(
                Reply::Fresh(claim_code(&self.totp_replay_cache, *user_id, code)),
            ),
            Query::NewTotpSetup { issuer, account_name } => Answer::Reply(
                self.draw_setup(issuer, account_name),
            ),
            Query::TotpSetupFrom { secret, issuer, account_name } => Answer::Reply(
                setup_reply(setup_from_secret(secret, issuer, account_name)),
            ),
            Query::NewRecoveryCodes => Answer::Reply(self.draw_codes()),
            _ => Answer::Outside,
        }
    }
}

/// What an operation waits for after the service answered what it can.
pub enum Settled {
    /// A query to the store, and the stage that waits for its reply.
    Ask(Query, Flow),
    /// Nothing: this is its result.
    Done(Result<Success, Failure>),
    /// Nothing: the lifetime of refresh tokens leads to no time.
    OutOfRange,
}

/// Whether an operation can come from a step to what it waits for by replies of the
/// service.
pub open spec fn settles(service: ServiceView, step: Step, settled: Settled) -> bool
    decreases step_queries(step),
{
    match step {
        Step::Done(result) => settled == Settled::Done(result),
        Step::Ask(query, flow) => if is_local(query) {
            ||| query is RefreshExpiry && settled is OutOfRange
            ||| exists|reply: Reply|
                #![trigger is_answer(service, query, reply)]
                is_answer(service, query, reply) && {
                    let step = next(
                        flow,
                        reply,
                        duration_secs(service.config.access_token_ttl),
                    );
                    step_queries(step) < step_queries(Step::Ask(query, flow)) && settles(
                        service,
                        step,
                        settled,
                    )
                }
        } else {
            settled == Settled::Ask(query, flow)
        },
    }
}

/// Whether the form of a registration holds the parameters.
pub open spec fn is_register_form(form: RegisterForm, params: RegisterParams<'_>) -> bool {
    &&& form.kind@ == params.kind@
    &&& form.value@ == lowercase(params.value@)
    &&& form.name@ == params.name@
    &&& form.jkt@ == params.jkt@
    &&& form.client_ip@ == params.client_ip@
    &&& form.user_agent == params.user_agent
}

/// Whether the form of a second factor holds the code, without the white space around it.
pub open spec fn is_code_form(form: CodeForm, user_id: u128, code: Seq<char>) -> bool {
    &&& form.user_id == user_id
    &&& form.code@ == trimmed(code)
    &&& form.code_hash@ == recovery_hash(code)
    &&& form.is_recovery == has_code_format(trimmed(code))
    &&& form.disabling is None
}

impl AuthService {
    /// Register a new user, create their primary identifier, and issue an initial token pair.
    ///
    /// # Errors
    ///
    /// Returns [`ServiceError::RegistrationDisabled`] is self-registration is disabled.
    /// Returns [`ServiceError::Conflict`] if the given identifier is already registered.
    /// Returns [`ServiceError::Internal`] on password hashing or database execution failures.
    pub fn register(&self, params: RegisterParams<'_>) -> (step: Step)
        ensures
            match step {
                Step::Done(result) => {
                    &&& !self@.config.allow_registration
                    &&& result == Err::<Success, _>(Failure::RegistrationDisabled)
                },
                Step::Ask(query, flow) => {
                    &&& self@.config.allow_registration
                    &&& query matches Query::HashPassword { password } && password@
                        == params.password@
                    &&& flow matches Flow::HashingPassword(form) && is_register_form(form, params)
                },
            },
    {
        if !self.config.allow_registration {
            return Step::Done(Err(Failure::RegistrationDisabled));
        }
        let form = RegisterForm {
            kind: params.kind.to_owned(),
            value: params.value.to_lowercase(),
            name: params.name.to_owned(),
            jkt: params.jkt.to_owned(),
            client_ip: params.client_ip.to_owned(),
            user_agent: params.user_agent,
        };
        Step::Ask(
            Query::HashPassword { password: params.password.to_owned() },
            Flow::HashingPassword(form),
        )
    }

    /// Authenticate a user with an identifier and password.
    ///
    /// # Errors
    ///
    /// Returns [`ServiceError::Unauthorized`] on missing user or invalid password, and
    /// whatever the password is once [`crate::service::flow::LOGIN_FAILURE_LIMIT`] attempts
    /// under the identifier failed in the last
    /// [`crate::service::flow::LOGIN_WINDOW_MICROS`]. An attempt that is refused for their
    /// number is not recorded, so that the throttling ends with the window.
    /// Returns [`ServiceError::Internal`] on database connection or query failures.
    pub fn login(
        &self,
        kind: &str,
        value: &str,
        password: &str,
        jkt: &str,
        client_ip: &str,
        user_agent: Option<String>,
    ) -> (step: Step)
        ensures
            step matches Step::Ask(query, flow) && {
                &&& query is CurrentTime
                &&& flow matches Flow::TimingLogin(form) && form.kind@ == kind@ && form.value@
                    == lowercase(value@) && form.password@ == password@ && form.jkt@ == jkt@
                    && form.client_ip@ == client_ip@ && form.user_agent == user_agent
            },
    {
        let form = LoginForm {
            kind: kind.to_owned(),
            value: value.to_lowercase(),
            password: password.to_owned(),
            jkt: jkt.to_owned(),
            client_ip: client_ip.to_owned(),
            user_agent,
        };
        Step::Ask(Query::CurrentTime, Flow::TimingLogin(form))
    }

    /// Rotate a refresh token (RTR) and issue a fresh DPoP-bound token pair.
    ///
    /// Implements Refresh Token Rotation with reuse detection and a grace period
    /// in accordance with RFC 9700.
    ///
    /// # Errors
    ///
    /// Returns [`ServiceError::Unauthorized`] if:
    /// - The token is invalid, expired, or previously revoked outside the grace window.
    /// - The client's DPoP thumbprint does not match the token's bound 'jkt'.
    /// - Token reuse is detected (revoking the entire token family).
    pub fn refresh(&self, refresh_token: &str, jkt: &str, user_agent: Option<String>) -> (step:
        Step)
        ensures
            step matches Step::Ask(query, flow) && {
                &&& query is Begin
                &&& flow matches Flow::BeginningRefresh(form) && form.token_hash@ == token_hash(
                    bytes_of(refresh_token@),
                ) && form.jkt@ == jkt@ && form.user_agent == user_agent
            },
    {
        let form = RefreshForm {
            token_hash: hash_token(refresh_token.as_bytes()),
            jkt: jkt.to_owned(),
            user_agent,
        };
        Step::Ask(Query::Begin, Flow::BeginningRefresh(form))
    }

    /// Explicitly revoke a refresh token and terminate the corresponding session.
    ///
    /// # Errors
    ///
    /// Returns [`ServiceError::Internal`] if the database query fails.
    pub fn logout(&self, refresh_token: &str) -> (step: Step)
        ensures
            step matches Step::Ask(query, flow) && {
                &&& query matches Query::RevokeTokenByHash { token_hash: hash } && hash@
                    == token_hash(bytes_of(refresh_token@))
                &&& flow is LoggingOut
            },
    {
        Step::Ask(
            Query::RevokeTokenByHash { token_hash: hash_token(refresh_token.as_bytes()) },
            Flow::LoggingOut,
        )
    }

    /// Starts (or resumes) the two-factor authentication (2FA) enrollment flow.
    ///
    /// The generated secret is placed into a temporary draft column
    /// (`totp_pending_secret`) with a 10-minute TTL and does not touch the active
    /// `totp_secret`. The draft is only promoted to the active secret upon successful code
    /// verification in [`Self::confirm_2fa`].
    ///
    /// # Idempotent Setup / Tab Refresh
    ///
    /// If a live pending draft already exists (within the 10-minute TTL), this function
    /// reconstructs and returns **same** setup data and QR code rather than generating
    /// a new secret. This allows the user to refresh or reopen the setup page without
    /// invalidating the QR code already scanned by their authenticator app.
    ///
    /// # Errors
    ///
    /// * [`ServiceError::Unauthorized`] - The specified user does not exists or
    ///   has been soft-deleted.
    /// * [`ServiceError::Conflict`] - 2FA is already confirmed and active for this user.
    /// * [`ServiceError::Internal`] - QR code rendering, secret generation, or database operations
    ///   failed.
    pub fn setup_2fa(&self, user_id: u128, issuer: &str, account_name: &str) -> (step: Step)
        ensures
            step matches Step::Ask(query, flow) && {
                &&& query == (Query::FindUserById { user_id })
                &&& flow matches Flow::FindingForSetup { user_id: id, issuer: i, account_name: a }
                    && id == user_id && i@ == issuer@ && a@ == account_name@
            },
    {
        Step::Ask(
            Query::FindUserById { user_id },
            Flow::FindingForSetup {
                user_id,
                issuer: issuer.to_owned(),
                account_name: account_name.to_owned(),
            },
        )
    }

    /// Verifies the initial TOTP code to complete 2FA activation and issues
    /// recovery codes.
    ///
    /// Reads the pending draft secret, checks that its 10-minute TTL has not expired,
    /// and verifies the submitted `code`. Upon success, executes an atomic transaction that:
    /// 1. Promotes `totp_pending_secret` to active `totp_secret`, set `totp_enabled = TRUE`,
    ///    and clears the pending draft.
    /// 2. Invalidates any existing recovery codes previously issued for this user.
    /// 3. Stores the cryptographic hashes of 10 freshly generated recovery codes.
    ///
    /// Returns the plaintext recovery codes. **These codes are shown to the user exactly once.**
    ///
    /// # Errors
    ///
    /// * [`ServiceError::Unauthorized`] - The user does not exist or the
    ///   submitted `code` is invalid.
    /// * [`ServiceError::Conflict`] - 2FA is already enabled, or the pending draft expired /
    ///   does not exist.
    /// * [`ServiceError::Internal`] - CSPRNG failure, database queries, or transaction
    ///   execution failed.
    pub fn confirm_2fa(&self, user_id: u128, code: &str) -> (step: Step)
        ensures
            step matches Step::Ask(query, flow) && {
                &&& query == (Query::FindUserById { user_id })
                &&& flow matches Flow::FindingForConfirm { user_id: id, code: c } && id == user_id
                    && c@ == code@
            },
    {
        Step::Ask(
            Query::FindUserById { user_id },
            Flow::FindingForConfirm { user_id, code: code.to_owned() },
        )
    }

    /// What a verification of a second factor is about.
    fn code_form(&self, user_id: u128, code: &str) -> (form: CodeForm)
        ensures
            is_code_form(form, user_id, code@),
    {
        CodeForm {
            user_id,
            code: trim(code),
            code_hash: hash_recovery_code(code),
            is_recovery: is_recovery_code(code),
            disabling: None,
        }
    }

    /// Validates a second-factor credential (TOTP code or single-use recovery code)
    /// for an active user.
    ///
    /// Distinguishes between TOTP codes and recovery codes via [`crate::totp::is_recovery_code`]:
    /// * **Recovery code**: The hash is verified against `dpop_recovery_codes` scoped strictly
    ///   to `user_id`. If valid, the code immediately consumed (deleted/burned) in the database.
    /// * **TOTP Code**: Checked against RFC 6238 rules with replay protection enforced via
    ///   in-memory cache.
    ///
    /// # Returns
    ///
    /// * [`SecondFactorKind::RecoveryCode`] - A single use recovery code was consumed
    ///   (caller should display a warning/remaining count).
    /// * [`SecondFactorKind::Totp`] - A standard time-based TOTP code was accepted.
    ///
    /// # Errors
    ///
    /// * [`ServiceError::Unauthorized`] - The user does not exist, the code is incorrect,
    ///   or a TOTP replay was detected.
    /// * [`ServiceError::Conflict`] - 2FA is not enabled for this user.
    /// * [`ServiceError::Internal`] - A database query or pool acquisition failed.
    pub fn verify_2fa_code(&self, user_id: u128, code: &str) -> (step: Step)
        ensures
            step matches Step::Ask(query, flow) && {
                &&& query == (Query::FindUserById { user_id })
                &&& flow matches Flow::FindingForCode(form) && is_code_form(form, user_id, code@)
            },
    {
        let form = self.code_form(user_id, code);
        Step::Ask(Query::FindUserById { user_id }, Flow::FindingForCode(form))
    }

    /// Disables two-factor authentication for an account after verifying a step-up code.
    ///
    /// Requires a valid TOTP or recovery code to prevent unauthorized deactivation.
    /// Upon successful verification, an atomic transaction:
    /// 1. Clears `totp_secret`, resets `totp_enabled` to `FALSE`, and nullifies timestamps.
    /// 2. Permanently deletes/invalidates all remaining recovery codes for the user.
    ///
    /// # Errors
    ///
    /// * [`ServiceError::Unauthorized`] - The user does not exist or the step-up code is invalid.
    /// * [`ServiceError::Conflict`] - 2FA is not currently enabled for this user.
    /// * [`ServiceError::Internal`] - A database transaction or query failed.
    pub fn disable_2fa(&self, user_id: u128, code: &str) -> (step: Step)
        ensures
            step matches Step::Ask(query, flow) && {
                &&& query == (Query::FindUserById { user_id })
                &&& flow matches Flow::FindingForDisable(form) && is_code_form(form, user_id, code@)
            },
    {
        let form = self.code_form(user_id, code);
        Step::Ask(Query::FindUserById { user_id }, Flow::FindingForDisable(form))
    }

    /// Answers the queries of an operation that the service can answer itself, until the
    /// store is asked or the operation is done.
    pub fn settle(&self, step: Step) -> (settled: Settled)
        ensures
            settles(self@, step, settled),
            settled matches Settled::Ask(query, _) ==> !is_local(query),
        decreases step_queries(step),
    {
        match step {
            Step::Done(result) => Settled::Done(result),
            Step::Ask(query, flow) => match self.answer(&query) {
                Answer::Outside => Settled::Ask(query, flow),
                Answer::OutOfRange => Settled::OutOfRange,
                Answer::Reply(reply) => {
                    let expires_in: u64 = self.config.access_token_ttl.as_secs();
                    proof {
                        law_operations_end(flow, reply, expires_in);
                    }
                    let step = advance(flow, reply, expires_in);
                    let settled = self.settle(step);
                    assert(is_answer(self@, query, reply));
                    settled
                },
            },
        }
    }

    /// Takes the reply of the store, and answers what comes next until the store is asked
    /// again or the operation is done.
    pub fn resume(&self, flow: Flow, reply: Reply) -> (settled: Settled)
        ensures
            settles(
                self@,
                next(flow, reply, duration_secs(self@.config.access_token_ttl)),
                settled,
            ),
            settled matches Settled::Ask(query, _) ==> !is_local(query),
    {
        self.settle(advance(flow, reply, self.config.access_token_ttl.as_secs()))
    }
}

/// The error that reports a failure.
pub open spec fn failure_error(failure: Failure) -> ServiceErrorView {
    match failure {
        Failure::Unauthorized => ServiceErrorView::Unauthorized,
        Failure::RegistrationDisabled => ServiceErrorView::RegistrationDisabled,
        Failure::AlreadyRegistered { kind } => ServiceErrorView::Conflict(
            kind@ + " already registered"@,
        ),
        Failure::TotpAlreadyEnabled => ServiceErrorView::Conflict("2FA already enabled"@),
        Failure::SetupExpired => ServiceErrorView::Conflict("setup expired, run setup_2fa again"@),
        Failure::TotpNotEnabled => ServiceErrorView::Conflict("2FA is not enabled"@),
        Failure::Internal { message } => ServiceErrorView::Internal(message@),
        Failure::OutOfOrder => ServiceErrorView::Internal("the reply answers another query"@),
    }
}

impl Failure {
    /// The error that reports the failure.
    pub fn into_error(self) -> (error: ServiceError)
        ensures
            error@ == failure_error(self),
    {
        match self {
            Failure::Unauthorized => ServiceError::Unauthorized,
            Failure::RegistrationDisabled => ServiceError::RegistrationDisabled,
            Failure::AlreadyRegistered { kind } => ServiceError::Conflict(
                joined(&kind, " already registered"),
            ),
            Failure::TotpAlreadyEnabled => ServiceError::Conflict("2FA already enabled".to_owned()),
            Failure::SetupExpired => ServiceError::Conflict(
                "setup expired, run setup_2fa again".to_owned(),
            ),
            Failure::TotpNotEnabled => ServiceError::Conflict("2FA is not enabled".to_owned()),
            Failure::Internal { message } => ServiceError::Internal(message),
            Failure::OutOfOrder => ServiceError::Internal(
                "the reply answers another query".to_owned(),
            ),
        }
    }
}

impl ReplacementTokens {
    /// The token pair that is delivered to the client.
    pub fn into_pair(self) -> (pair: TokenPair)
        ensures
            pair.access_token == self.access_token,
            pair.refresh_token == self.refresh_token,
            pair.token_type@ == "DPoP"@,
            pair.expires_in == self.expires_in,
    {
        TokenPair {
            access_token: self.access_token,
            refresh_token: self.refresh_token,
            token_type: TOKEN_TYPE,
            expires_in: self.expires_in,
        }
    }
}

} // verus!
