//! The steps of the operations: from a stage and a reply to the next query or the result.

use vstd::prelude::*;

use crate::cache::CodeClaim;
use crate::service::grace::{GraceEntry, GraceLookup, ReplacementTokens};
use crate::store::models::{CreateRefreshTokenParams, RefreshTokenRow, UserRow};
use crate::text::same;
use crate::totp::TotpSetup;

verus! {

/// How many failed logins under one identifier are allowed in the window of throttling.
pub const LOGIN_FAILURE_LIMIT: u64 = 10;

/// Microseconds in the window of throttling (15 minutes).
pub const LOGIN_WINDOW_MICROS: i64 = 900_000_000;

/// A question to the store, to a cache, to the clock or to a source of randomness.
pub enum Query {
    /// Open a transaction; the queries up to the commit belong to it, and an operation
    /// that ends without one rolls it back.
    Begin,
    /// Commit the open transaction.
    Commit,
    /// The active user with the identifier, in any letter case.
    FindUserByIdentifier { kind: String, value: String },
    /// The active user with the primary key.
    FindUserById { user_id: u128 },
    /// Insert a user whose password is set now.
    CreateUser { name: String, password_hash: String },
    /// Insert a primary identifier that is verified now.
    CreateIdentifier { user_id: u128, kind: String, value: String },
    /// Stamp the user's last login.
    UpdateLastLogin { user_id: u128 },
    /// Insert a refresh token.
    CreateRefreshToken(CreateRefreshTokenParams),
    /// Revoke the token with the hash if it is not revoked, and give it as it is then.
    RevokeTokenIfActive { token_hash: String },
    /// The token with the hash, revoked or not.
    FindTokenByHash { token_hash: String },
    /// Revoke every token of the family that is not revoked.
    RevokeTokenFamily { fam: u128 },
    /// Revoke the token with the hash if it is not revoked.
    RevokeTokenByHash { token_hash: String },
    /// Insert an entry into the audit log.
    RecordLoginAttempt {
        kind: String,
        value: String,
        client_ip: String,
        success: bool,
        reason: Option<&'static str>,
    },
    /// How many attempts in the audit log since the given time failed under the identifier.
    CountFailedAttempts { kind: String, value: String, since: i64 },
    /// The user's TOTP draft, if it is young enough and TOTP is not enabled.
    GetPendingSecret { user_id: u128 },
    /// Store a TOTP draft unless TOTP is enabled.
    SetPendingSecret { user_id: u128, secret: String },
    /// Promote the TOTP draft to the active secret and enable TOTP.
    ActivateTotp { user_id: u128 },
    /// Disable TOTP and purge the active secret and any draft.
    DisableTotp { user_id: u128 },
    /// Mark all unused recovery codes of the user as used.
    InvalidateRecoveryCodes { user_id: u128 },
    /// Insert recovery codes by their hashes.
    CreateRecoveryCodes { user_id: u128, hashes: Vec<String> },
    /// Mark the user's unused recovery code with the hash as used.
    ConsumeRecoveryCode { user_id: u128, code_hash: String },
    /// Hash a password.
    HashPassword { password: String },
    /// Verify a password against a hash, or against a dummy hash where there is none.
    VerifyPassword { password: String, hash: Option<String> },
    /// Draw a refresh secret.
    NewSecret,
    /// Draw a token family.
    NewFamily,
    /// The expiry of a refresh token that is issued now.
    RefreshExpiry,
    /// The time.
    CurrentTime,
    /// Issue an access token.
    SignAccess { subject: u128, name: String, jkt: String },
    /// The replacement of a rotated token, if it is still in its grace period.
    GraceLookup { fam: u128, token_hash: String },
    /// Remember the replacement of a rotated token for its grace period.
    GraceStore { fam: u128, token_hash: String, tokens: ReplacementTokens },
    /// Verify a TOTP code.
    VerifyTotp { secret: String, code: String },
    /// Claim a TOTP code for its window.
    ClaimTotp { user_id: u128, code: String },
    /// Draw a TOTP secret and set it up.
    NewTotpSetup { issuer: String, account_name: String },
    /// The setup of a TOTP secret.
    TotpSetupFrom { secret: String, issuer: String, account_name: String },
    /// Draw a set of recovery codes.
    NewRecoveryCodes,
}

/// The answer to a [`Query`].
pub enum Reply {
    /// The statement was executed.
    Done,
    /// The query failed.
    Failed { message: String },
    /// The statement was refused because a unique value is taken.
    Taken { message: String },
    /// A user, if there is one.
    User(Option<UserRow>),
    /// A refresh token, if there is one.
    Token(Option<RefreshTokenRow>),
    /// A TOTP draft, if there is one.
    Pending(Option<String>),
    /// Whether a recovery code was consumed.
    Consumed(bool),
    /// A password hash.
    Hash(String),
    /// Whether a password or a code is right.
    Verdict(bool),
    /// A refresh secret and its hash.
    Secret { secret: String, hash: String },
    /// A token family.
    Family(u128),
    /// The expiry of a refresh token.
    Expiry(i64),
    /// The time.
    Time(i64),
    /// An access token.
    Access(String),
    /// A number of failed attempts.
    Failures(u64),
    /// A replacement, if one is remembered.
    Cached(GraceLookup),
    /// The replacement is remembered.
    Remembered(GraceEntry),
    /// Whether a code was claimed for the first time.
    Fresh(CodeClaim),
    /// A TOTP setup.
    Setup(TotpSetup),
    /// Recovery codes and their hashes.
    Codes { codes: Vec<String>, hashes: Vec<String> },
}

/// The specific category of second-factor credential verified during authentication.
#[derive(Debug, Clone, Copy, PartialEq, Eq, Structural)]
pub enum SecondFactorKind {
    /// A standard time-based one-time password generated by an authenticator
    /// application (RFC 6238).
    Totp,
    /// A single-use backup recovery code that was atomically consumed and invalidated
    /// upon verification.
    RecoveryCode,
}

/// What an operation gives when it succeeds.
pub enum Success {
    /// An access token and a refresh token.
    Tokens(ReplacementTokens),
    /// The password is right, and a second factor is required.
    Requires2fa,
    /// The session is ended.
    LoggedOut,
    /// A TOTP setup.
    Setup(TotpSetup),
    /// Recovery codes, shown once.
    RecoveryCodes(Vec<String>),
    /// The second factor is right.
    SecondFactor(SecondFactorKind),
    /// The second factor is switched off.
    Disabled,
}

/// Why an operation failed.
pub enum Failure {
    /// The credentials are bad.
    Unauthorized,
    /// Users cannot register themselves.
    RegistrationDisabled,
    /// The identifier is taken.
    AlreadyRegistered { kind: String },
    /// The second factor is already enabled.
    TotpAlreadyEnabled,
    /// There is no draft, or it is too old.
    SetupExpired,
    /// The second factor is not enabled.
    TotpNotEnabled,
    /// A query failed.
    Internal { message: String },
    /// A reply did not answer the query.
    OutOfOrder,
}

/// What a registration is about. The value of the identifier is in lower case.
pub struct RegisterForm {
    pub kind: String,
    pub value: String,
    pub name: String,
    pub jkt: String,
    pub client_ip: String,
    pub user_agent: Option<String>,
}

/// What a login is about. The value of the identifier is in lower case.
pub struct LoginForm {
    pub kind: String,
    pub value: String,
    pub password: String,
    pub jkt: String,
    pub client_ip: String,
    pub user_agent: Option<String>,
}

/// What a refresh is about.
pub struct RefreshForm {
    pub token_hash: String,
    pub jkt: String,
    pub user_agent: Option<String>,
}

/// What a verification of a second factor is about: the code, its hash as a recovery
/// code, and whether it has the format of one. Where the second factor is to be switched
/// off, the user of whom.
pub struct CodeForm {
    pub user_id: u128,
    pub code: String,
    pub code_hash: String,
    pub is_recovery: bool,
    pub disabling: Option<u128>,
}

/// Why a session is issued.
pub enum Purpose {
    /// To a new user.
    Register { kind: String, value: String, client_ip: String },
    /// To a user who logged in.
    Login,
    /// In place of a rotated token, whose family and expiry it inherits.
    Rotate { fam: u128, expires_at: i64, old_hash: String },
}

/// A session to be issued.
pub struct Issue {
    pub user: UserRow,
    pub jkt: String,
    pub user_agent: Option<String>,
    pub purpose: Purpose,
}

/// A stage of an operation: what it waits for, and what it knows.
#[allow(inconsistent_fields)]
pub enum Flow {
    /// Registration: waits for the password hash.
    HashingPassword(RegisterForm),
    /// Registration: waits for the transaction.
    BeginningRegistration { form: RegisterForm, password_hash: String },
    /// Registration: waits for the user.
    CreatingUser(RegisterForm),
    /// Registration: waits for the identifier.
    CreatingIdentifier { form: RegisterForm, user: UserRow },
    /// Registration: waits for the login stamp.
    StampingRegistration { form: RegisterForm, user: UserRow },
    /// Login: waits for the time.
    TimingLogin(LoginForm),
    /// Login: waits for the number of failed attempts.
    CountingFailures(LoginForm),
    /// Login: waits for the user.
    FindingLogin(LoginForm),
    /// Login: waits for the verdict on the password.
    CheckingPassword { form: LoginForm, user: Option<UserRow> },
    /// Login: waits for the audit entry of a failed attempt.
    RejectingLogin,
    /// Login: waits for the login stamp.
    StampingLogin { form: LoginForm, user: UserRow },
    /// Login: waits for the audit entry of a successful attempt.
    AuditingLogin { form: LoginForm, user: UserRow },
    /// Session: waits for the refresh secret.
    DrawingSecret(Issue),
    /// Session: waits for the token family.
    DrawingFamily { issue: Issue, secret: String, hash: String },
    /// Session: waits for the expiry.
    DrawingExpiry { issue: Issue, secret: String, hash: String, fam: u128 },
    /// Session: waits for the stored token.
    StoringToken { issue: Issue, secret: String },
    /// Registration: waits for the audit entry.
    AuditingRegistration { issue: Issue, secret: String },
    /// Registration: waits for the commit.
    CommittingRegistration { issue: Issue, secret: String },
    /// Session: waits for the access token.
    SigningAccess { issue: Issue, secret: String },
    /// Refresh: waits for the grace cache.
    CachingGrace { tokens: ReplacementTokens },
    /// Refresh: waits for the commit of the rotation.
    CommittingRotation { tokens: ReplacementTokens },
    /// Refresh: waits for the transaction.
    BeginningRefresh(RefreshForm),
    /// Refresh: waits for the token, which it revokes.
    RevokingToken(RefreshForm),
    /// Refresh: waits for the token that was not active.
    FindingRevoked(RefreshForm),
    /// Refresh: waits for the replacement; knows whether the client has the key that the
    /// token is bound to.
    LookingUpGrace { fam: u128, bound: bool },
    /// Refresh: waits for the revocation of the family.
    RevokingFamily,
    /// Refresh: waits for the commit of the revocation.
    CommittingRevocation,
    /// Refresh: waits for the time.
    CheckingExpiry { form: RefreshForm, row: RefreshTokenRow },
    /// Refresh: waits for the owner of the token.
    FindingOwner { form: RefreshForm, row: RefreshTokenRow },
    /// Logout: waits for the revocation.
    LoggingOut,
    /// Setup: waits for the user.
    FindingForSetup { user_id: u128, issuer: String, account_name: String },
    /// Setup: waits for the draft.
    ReadingDraft { user_id: u128, issuer: String, account_name: String },
    /// Setup: waits for the setup of the draft.
    RebuildingSetup,
    /// Setup: waits for a new setup.
    GeneratingSetup { user_id: u128 },
    /// Setup: waits for the stored draft.
    SavingDraft { setup: TotpSetup },
    /// Confirmation: waits for the user.
    FindingForConfirm { user_id: u128, code: String },
    /// Confirmation: waits for the draft.
    ReadingPending { user_id: u128, code: String },
    /// Confirmation: waits for the verdict on the code.
    CheckingFirstCode { user_id: u128 },
    /// Confirmation: waits for the recovery codes.
    DrawingCodes { user_id: u128 },
    /// Confirmation: waits for the transaction.
    BeginningActivation { user_id: u128, codes: Vec<String>, hashes: Vec<String> },
    /// Confirmation: waits for the activation.
    Activating { user_id: u128, codes: Vec<String>, hashes: Vec<String> },
    /// Confirmation: waits for the old codes to be invalidated.
    InvalidatingOld { user_id: u128, codes: Vec<String>, hashes: Vec<String> },
    /// Confirmation: waits for the stored codes.
    StoringCodes { codes: Vec<String> },
    /// Confirmation: waits for the commit.
    CommittingActivation { codes: Vec<String> },
    /// Second factor: waits for the user.
    FindingForCode(CodeForm),
    /// Second factor: waits for the recovery code.
    ConsumingCode { disabling: Option<u128> },
    /// Second factor: waits for the verdict on the code.
    CheckingCode { user_id: u128, code: String, disabling: Option<u128> },
    /// Second factor: waits for the claim on the code.
    ClaimingCode { disabling: Option<u128> },
    /// Disabling: waits for the user.
    FindingForDisable(CodeForm),
    /// Disabling: waits for the transaction.
    BeginningDisable { user_id: u128 },
    /// Disabling: waits for the user to be changed.
    Disabling { user_id: u128 },
    /// Disabling: waits for the codes to be invalidated.
    InvalidatingCodes,
    /// Disabling: waits for the commit.
    CommittingDisable,
}

/// What comes next.
pub enum Step {
    /// A query, and the stage that waits for its reply.
    Ask(Query, Flow),
    /// The result.
    Done(Result<Success, Failure>),
}

/// The result that refuses.
pub open spec fn refuse(failure: Failure) -> Step {
    Step::Done(Err(failure))
}

/// The insertion of the refresh token of a session.
pub open spec fn token_params(
    issue: Issue,
    hash: String,
    fam: u128,
    expires_at: i64,
) -> CreateRefreshTokenParams {
    CreateRefreshTokenParams {
        user_id: issue.user.id,
        token_hash: hash,
        fam,
        dpop_jkt: issue.jkt,
        user_agent: issue.user_agent,
        expires_at,
    }
}

/// The step that asks for the access token of a session.
pub open spec fn sign(issue: Issue, secret: String) -> Step {
    Step::Ask(
        Query::SignAccess {
            subject: issue.user.public_id,
            name: issue.user.name,
            jkt: issue.jkt,
        },
        Flow::SigningAccess { issue, secret },
    )
}

/// The step after a second factor is verified: the result, or the transaction that
/// switches it off.
pub open spec fn factor_verified(kind: SecondFactorKind, disabling: Option<u128>) -> Step {
    match disabling {
        Some(user_id) => Step::Ask(Query::Begin, Flow::BeginningDisable { user_id }),
        None => Step::Done(Ok(Success::SecondFactor(kind))),
    }
}

/// The step of an operation from a stage and a reply. `expires_in` is the lifetime of
/// access tokens in seconds.
pub open spec fn next(flow: Flow, reply: Reply, expires_in: u64) -> Step {
    match (flow, reply) {
        // Registration.
        (Flow::HashingPassword(form), Reply::Hash(password_hash)) => Step::Ask(
            Query::Begin,
            Flow::BeginningRegistration { form, password_hash },
        ),
        (Flow::BeginningRegistration { form, password_hash }, Reply::Done) => Step::Ask(
            Query::CreateUser { name: form.name, password_hash },
            Flow::CreatingUser(form),
        ),
        (Flow::CreatingUser(form), Reply::User(Some(user))) => Step::Ask(
            Query::CreateIdentifier { user_id: user.id, kind: form.kind, value: form.value },
            Flow::CreatingIdentifier { form, user },
        ),
        (Flow::CreatingIdentifier { form, user }, Reply::Done) => Step::Ask(
            Query::UpdateLastLogin { user_id: user.id },
            Flow::StampingRegistration { form, user },
        ),
        (Flow::CreatingIdentifier { form, user }, Reply::Taken { message }) => refuse(
            Failure::AlreadyRegistered { kind: form.kind },
        ),
        (Flow::StampingRegistration { form, user }, Reply::Done) => Step::Ask(
            Query::NewSecret,
            Flow::DrawingSecret(
                Issue {
                    user,
                    jkt: form.jkt,
                    user_agent: form.user_agent,
                    purpose: Purpose::Register {
                        kind: form.kind,
                        value: form.value,
                        client_ip: form.client_ip,
                    },
                },
            ),
        ),
        // Login.
        (Flow::TimingLogin(form), Reply::Time(now)) => Step::Ask(
            Query::CountFailedAttempts {
                kind: form.kind,
                value: form.value,
                since: window_start(now),
            },
            Flow::CountingFailures(form),
        ),
        (Flow::CountingFailures(form), Reply::Failures(count)) => if count >= LOGIN_FAILURE_LIMIT {
            refuse(Failure::Unauthorized)
        } else {
            Step::Ask(
                Query::FindUserByIdentifier { kind: form.kind, value: form.value },
                Flow::FindingLogin(form),
            )
        },
        (Flow::FindingLogin(form), Reply::User(user)) => Step::Ask(
            Query::VerifyPassword {
                password: form.password,
                hash: match user {
                    Some(user) => Some(user.password_hash),
                    None => None,
                },
            },
            Flow::CheckingPassword { form, user },
        ),
        (Flow::CheckingPassword { form, user: Some(user) }, Reply::Verdict(right)) => if !right {
            Step::Ask(
                Query::RecordLoginAttempt {
                    kind: form.kind,
                    value: form.value,
                    client_ip: form.client_ip,
                    success: false,
                    reason: Some("wrong_password"),
                },
                Flow::RejectingLogin,
            )
        } else if user.totp_enabled {
            Step::Done(Ok(Success::Requires2fa))
        } else {
            Step::Ask(
                Query::UpdateLastLogin { user_id: user.id },
                Flow::StampingLogin { form, user },
            )
        },
        (Flow::CheckingPassword { form, user: None }, Reply::Verdict(right)) => Step::Ask(
            Query::RecordLoginAttempt {
                kind: form.kind,
                value: form.value,
                client_ip: form.client_ip,
                success: false,
                reason: Some("user_not_found"),
            },
            Flow::RejectingLogin,
        ),
        (Flow::RejectingLogin, Reply::Done) => refuse(Failure::Unauthorized),
        (Flow::RejectingLogin, Reply::Failed { message }) => refuse(Failure::Unauthorized),
        (Flow::RejectingLogin, Reply::Taken { message }) => refuse(Failure::Unauthorized),
        (Flow::StampingLogin { form, user }, Reply::Done) => audit_login(form, user),
        (Flow::StampingLogin { form, user }, Reply::Failed { message }) => audit_login(form, user),
        (Flow::StampingLogin { form, user }, Reply::Taken { message }) => audit_login(form, user),
        (Flow::AuditingLogin { form, user }, Reply::Done) => open_session(form, user),
        (Flow::AuditingLogin { form, user }, Reply::Failed { message }) => open_session(form, user),
        (Flow::AuditingLogin { form, user }, Reply::Taken { message }) => open_session(form, user),
        // Sessions.
        (Flow::DrawingSecret(issue), Reply::Secret { secret, hash }) => match issue.purpose {
            Purpose::Rotate { fam, expires_at, old_hash } => Step::Ask(
                Query::CreateRefreshToken(token_params(issue, hash, fam, expires_at)),
                Flow::StoringToken { issue, secret },
            ),
            _ => Step::Ask(Query::NewFamily, Flow::DrawingFamily { issue, secret, hash }),
        },
        (Flow::DrawingFamily { issue, secret, hash }, Reply::Family(fam)) => Step::Ask(
            Query::RefreshExpiry,
            Flow::DrawingExpiry { issue, secret, hash, fam },
        ),
        (Flow::DrawingExpiry { issue, secret, hash, fam }, Reply::Expiry(expires_at)) => Step::Ask(
            Query::CreateRefreshToken(token_params(issue, hash, fam, expires_at)),
            Flow::StoringToken { issue, secret },
        ),
        (Flow::StoringToken { issue, secret }, Reply::Done) => match issue.purpose {
            Purpose::Register { kind, value, client_ip } => Step::Ask(
                Query::RecordLoginAttempt { kind, value, client_ip, success: true, reason: None },
                Flow::AuditingRegistration { issue, secret },
            ),
            _ => sign(issue, secret),
        },
        (Flow::AuditingRegistration { issue, secret }, Reply::Done) => Step::Ask(
            Query::Commit,
            Flow::CommittingRegistration { issue, secret },
        ),
        (Flow::AuditingRegistration { issue, secret }, Reply::Failed { message }) => Step::Ask(
            Query::Commit,
            Flow::CommittingRegistration { issue, secret },
        ),
        (Flow::AuditingRegistration { issue, secret }, Reply::Taken { message }) => Step::Ask(
            Query::Commit,
            Flow::CommittingRegistration { issue, secret },
        ),
        (Flow::CommittingRegistration { issue, secret }, Reply::Done) => sign(issue, secret),
        (Flow::SigningAccess { issue, secret }, Reply::Access(access_token)) => {
            let tokens = ReplacementTokens { access_token, refresh_token: secret, expires_in };
            match issue.purpose {
                Purpose::Rotate { fam, expires_at, old_hash } => Step::Ask(
                    Query::GraceStore { fam, token_hash: old_hash, tokens },
                    Flow::CachingGrace { tokens },
                ),
                _ => Step::Done(Ok(Success::Tokens(tokens))),
            }
        },
        (Flow::CachingGrace { tokens }, Reply::Remembered(entry)) => Step::Ask(
            Query::Commit,
            Flow::CommittingRotation { tokens },
        ),
        (Flow::CommittingRotation { tokens }, Reply::Done) => Step::Done(
            Ok(Success::Tokens(tokens)),
        ),
        // Refresh.
        (Flow::BeginningRefresh(form), Reply::Done) => Step::Ask(
            Query::RevokeTokenIfActive { token_hash: form.token_hash },
            Flow::RevokingToken(form),
        ),
        (Flow::RevokingToken(form), Reply::Token(Some(row))) => Step::Ask(
            Query::CurrentTime,
            Flow::CheckingExpiry { form, row },
        ),
        (Flow::RevokingToken(form), Reply::Token(None)) => Step::Ask(
            Query::FindTokenByHash { token_hash: form.token_hash },
            Flow::FindingRevoked(form),
        ),
        (Flow::FindingRevoked(form), Reply::Token(Some(row))) => Step::Ask(
            Query::GraceLookup { fam: row.fam, token_hash: form.token_hash },
            Flow::LookingUpGrace { fam: row.fam, bound: row.dpop_jkt@ == form.jkt@ },
        ),
        (Flow::FindingRevoked(form), Reply::Token(None)) => refuse(Failure::Unauthorized),
        (Flow::LookingUpGrace { fam, bound }, Reply::Cached(lookup)) => match lookup.tokens() {
            Some(tokens) => if bound {
                Step::Done(Ok(Success::Tokens(tokens)))
            } else {
                refuse(Failure::Unauthorized)
            },
            None => Step::Ask(Query::RevokeTokenFamily { fam }, Flow::RevokingFamily),
        },
        (Flow::RevokingFamily, Reply::Done) => Step::Ask(Query::Commit, Flow::CommittingRevocation),
        (Flow::CommittingRevocation, Reply::Done) => refuse(Failure::Unauthorized),
        (Flow::CheckingExpiry { form, row }, Reply::Time(now)) => if row.expires_at <= now
            || row.dpop_jkt@ != form.jkt@ {
            refuse(Failure::Unauthorized)
        } else {
            Step::Ask(
                Query::FindUserById { user_id: row.user_id },
                Flow::FindingOwner { form, row },
            )
        },
        (Flow::FindingOwner { form, row }, Reply::User(Some(user))) => Step::Ask(
            Query::NewSecret,
            Flow::DrawingSecret(
                Issue {
                    user,
                    jkt: form.jkt,
                    user_agent: form.user_agent,
                    purpose: Purpose::Rotate {
                        fam: row.fam,
                        expires_at: row.expires_at,
                        old_hash: form.token_hash,
                    },
                },
            ),
        ),
        (Flow::FindingOwner { form, row }, Reply::User(None)) => refuse(Failure::Unauthorized),
        // Logout.
        (Flow::LoggingOut, Reply::Done) => Step::Done(Ok(Success::LoggedOut)),
        // Setup of the second factor.
        (Flow::FindingForSetup { user_id, issuer, account_name }, Reply::User(Some(user))) =>
            if user.totp_enabled {
            refuse(Failure::TotpAlreadyEnabled)
        } else {
            Step::Ask(
                Query::GetPendingSecret { user_id },
                Flow::ReadingDraft { user_id, issuer, account_name },
            )
        },
        (Flow::FindingForSetup { user_id, issuer, account_name }, Reply::User(None)) => refuse(
            Failure::Unauthorized,
        ),
        (Flow::ReadingDraft { user_id, issuer, account_name }, Reply::Pending(Some(secret))) =>
            Step::Ask(
            Query::TotpSetupFrom { secret, issuer, account_name },
            Flow::RebuildingSetup,
        ),
        (Flow::ReadingDraft { user_id, issuer, account_name }, Reply::Pending(None)) => Step::Ask(
            Query::NewTotpSetup { issuer, account_name },
            Flow::GeneratingSetup { user_id },
        ),
        (Flow::RebuildingSetup, Reply::Setup(setup)) => Step::Done(Ok(Success::Setup(setup))),
        (Flow::GeneratingSetup { user_id }, Reply::Setup(setup)) => Step::Ask(
            Query::SetPendingSecret { user_id, secret: setup.secret_base32 },
            Flow::SavingDraft { setup },
        ),
        (Flow::SavingDraft { setup }, Reply::Done) => Step::Done(Ok(Success::Setup(setup))),
        // Confirmation of the second factor.
        (Flow::FindingForConfirm { user_id, code }, Reply::User(Some(user))) => if user.totp_enabled {
            refuse(Failure::TotpAlreadyEnabled)
        } else {
            Step::Ask(
                Query::GetPendingSecret { user_id },
                Flow::ReadingPending { user_id: user.id, code },
            )
        },
        (Flow::FindingForConfirm { user_id, code }, Reply::User(None)) => refuse(
            Failure::Unauthorized,
        ),
        (Flow::ReadingPending { user_id, code }, Reply::Pending(Some(secret))) => Step::Ask(
            Query::VerifyTotp { secret, code },
            Flow::CheckingFirstCode { user_id },
        ),
        (Flow::ReadingPending { user_id, code }, Reply::Pending(None)) => refuse(
            Failure::SetupExpired,
        ),
        (Flow::CheckingFirstCode { user_id }, Reply::Verdict(right)) => if right {
            Step::Ask(Query::NewRecoveryCodes, Flow::DrawingCodes { user_id })
        } else {
            refuse(Failure::Unauthorized)
        },
        (Flow::DrawingCodes { user_id }, Reply::Codes { codes, hashes }) => Step::Ask(
            Query::Begin,
            Flow::BeginningActivation { user_id, codes, hashes },
        ),
        (Flow::BeginningActivation { user_id, codes, hashes }, Reply::Done) => Step::Ask(
            Query::ActivateTotp { user_id },
            Flow::Activating { user_id, codes, hashes },
        ),
        (Flow::Activating { user_id, codes, hashes }, Reply::Done) => Step::Ask(
            Query::InvalidateRecoveryCodes { user_id },
            Flow::InvalidatingOld { user_id, codes, hashes },
        ),
        (Flow::InvalidatingOld { user_id, codes, hashes }, Reply::Done) => Step::Ask(
            Query::CreateRecoveryCodes { user_id, hashes },
            Flow::StoringCodes { codes },
        ),
        (Flow::StoringCodes { codes }, Reply::Done) => Step::Ask(
            Query::Commit,
            Flow::CommittingActivation { codes },
        ),
        (Flow::CommittingActivation { codes }, Reply::Done) => Step::Done(
            Ok(Success::RecoveryCodes(codes)),
        ),
        // Verification of the second factor.
        (Flow::FindingForCode(form), Reply::User(Some(user))) => if !user.totp_enabled {
            refuse(Failure::TotpNotEnabled)
        } else if form.is_recovery {
            Step::Ask(
                Query::ConsumeRecoveryCode { user_id: user.id, code_hash: form.code_hash },
                Flow::ConsumingCode { disabling: form.disabling },
            )
        } else {
            match user.totp_secret {
                Some(secret) => Step::Ask(
                    Query::VerifyTotp { secret, code: form.code },
                    Flow::CheckingCode {
                        user_id: user.id,
                        code: form.code,
                        disabling: form.disabling,
                    },
                ),
                None => refuse(Failure::Unauthorized),
            }
        },
        (Flow::FindingForCode(form), Reply::User(None)) => refuse(Failure::Unauthorized),
        (Flow::ConsumingCode { disabling }, Reply::Consumed(consumed)) => if consumed {
            factor_verified(SecondFactorKind::RecoveryCode, disabling)
        } else {
            refuse(Failure::Unauthorized)
        },
        (Flow::CheckingCode { user_id, code, disabling }, Reply::Verdict(right)) => if right {
            Step::Ask(Query::ClaimTotp { user_id, code }, Flow::ClaimingCode { disabling })
        } else {
            refuse(Failure::Unauthorized)
        },
        (Flow::ClaimingCode { disabling }, Reply::Fresh(claim)) => if claim.fresh() {
            factor_verified(SecondFactorKind::Totp, disabling)
        } else {
            refuse(Failure::Unauthorized)
        },
        // Disabling the second factor.
        (Flow::FindingForDisable(form), Reply::User(Some(user))) => if !user.totp_enabled {
            refuse(Failure::TotpNotEnabled)
        } else {
            Step::Ask(
                Query::FindUserById { user_id: form.user_id },
                Flow::FindingForCode(CodeForm { disabling: Some(user.id), ..form }),
            )
        },
        (Flow::FindingForDisable(form), Reply::User(None)) => refuse(Failure::Unauthorized),
        (Flow::BeginningDisable { user_id }, Reply::Done) => Step::Ask(
            Query::DisableTotp { user_id },
            Flow::Disabling { user_id },
        ),
        (Flow::Disabling { user_id }, Reply::Done) => Step::Ask(
            Query::InvalidateRecoveryCodes { user_id },
            Flow::InvalidatingCodes,
        ),
        (Flow::InvalidatingCodes, Reply::Done) => Step::Ask(Query::Commit, Flow::CommittingDisable),
        (Flow::CommittingDisable, Reply::Done) => Step::Done(Ok(Success::Disabled)),
        // Failures.
        (_, Reply::Failed { message }) => refuse(Failure::Internal { message }),
        (_, Reply::Taken { message }) => refuse(Failure::Internal { message }),
        _ => refuse(Failure::OutOfOrder),
    }
}

/// The start of the window of throttling that ends at the given time.
pub open spec fn window_start(now: i64) -> i64 {
    if now >= i64::MIN + LOGIN_WINDOW_MICROS {
        (now - LOGIN_WINDOW_MICROS) as i64
    } else {
        i64::MIN
    }
}

/// The audit entry of a login, after its stamp.
pub open spec fn audit_login(form: LoginForm, user: UserRow) -> Step {
    Step::Ask(
        Query::RecordLoginAttempt {
            kind: form.kind,
            value: form.value,
            client_ip: form.client_ip,
            success: true,
            reason: None,
        },
        Flow::AuditingLogin { form, user },
    )
}

/// The session of a login, after its audit entry.
pub open spec fn open_session(form: LoginForm, user: UserRow) -> Step {
    Step::Ask(
        Query::NewSecret,
        Flow::DrawingSecret(
            Issue {
                user,
                jkt: form.jkt,
                user_agent: form.user_agent,
                purpose: Purpose::Login,
            },
        ),
    )
}

/// A copy of an optional text.
pub(crate) fn copy_text(text: &Option<String>) -> (copy: Option<String>)
    ensures
        copy == *text,
{
    match text {
        Some(text) => Some(text.clone()),
        None => None,
    }
}

/// The step that asks for the insertion of the refresh token of a session.
fn store_token(issue: Issue, secret: String, hash: String, fam: u128, expires_at: i64) -> (step: Step)
    ensures
        step == Step::Ask(
            Query::CreateRefreshToken(token_params(issue, hash, fam, expires_at)),
            Flow::StoringToken { issue, secret },
        ),
{
    let params = CreateRefreshTokenParams {
        user_id: issue.user.id,
        token_hash: hash,
        fam,
        dpop_jkt: issue.jkt.clone(),
        user_agent: copy_text(&issue.user_agent),
        expires_at,
    };
    Step::Ask(Query::CreateRefreshToken(params), Flow::StoringToken { issue, secret })
}

/// The step that asks for the access token of a session.
fn sign_access(issue: Issue, secret: String) -> (step: Step)
    ensures
        step == sign(issue, secret),
{
    let query = Query::SignAccess {
        subject: issue.user.public_id,
        name: issue.user.name.clone(),
        jkt: issue.jkt.clone(),
    };
    Step::Ask(query, Flow::SigningAccess { issue, secret })
}

/// The step after a second factor is verified.
fn verified(kind: SecondFactorKind, disabling: Option<u128>) -> (step: Step)
    ensures
        step == factor_verified(kind, disabling),
{
    match disabling {
        Some(user_id) => Step::Ask(Query::Begin, Flow::BeginningDisable { user_id }),
        None => Step::Done(Ok(Success::SecondFactor(kind))),
    }
}

/// The step that records a login attempt.
fn record(form: &LoginForm, success: bool, reason: Option<&'static str>, flow: Flow) -> (step: Step)
    ensures
        step == Step::Ask(
            Query::RecordLoginAttempt {
                kind: form.kind,
                value: form.value,
                client_ip: form.client_ip,
                success,
                reason,
            },
            flow,
        ),
{
    let query = Query::RecordLoginAttempt {
        kind: form.kind.clone(),
        value: form.value.clone(),
        client_ip: form.client_ip.clone(),
        success,
        reason,
    };
    Step::Ask(query, flow)
}

/// The steps of a registration.
fn advance_registration(flow: Flow, reply: Reply, expires_in: u64) -> (step: Step)
    requires
        is_registration(flow),
    ensures
        step == next(flow, reply, expires_in),
{
    match (flow, reply) {
        (Flow::HashingPassword(form), Reply::Hash(password_hash)) => Step::Ask(
            Query::Begin,
            Flow::BeginningRegistration { form, password_hash },
        ),
        (Flow::BeginningRegistration { form, password_hash }, Reply::Done) => Step::Ask(
            Query::CreateUser { name: form.name.clone(), password_hash },
            Flow::CreatingUser(form),
        ),
        (Flow::CreatingUser(form), Reply::User(Some(user))) => Step::Ask(
            Query::CreateIdentifier {
                user_id: user.id,
                kind: form.kind.clone(),
                value: form.value.clone(),
            },
            Flow::CreatingIdentifier { form, user },
        ),
        (Flow::CreatingIdentifier { form, user }, Reply::Done) => Step::Ask(
            Query::UpdateLastLogin { user_id: user.id },
            Flow::StampingRegistration { form, user },
        ),
        (Flow::CreatingIdentifier { form, .. }, Reply::Taken { .. }) => Step::Done(
            Err(Failure::AlreadyRegistered { kind: form.kind }),
        ),
        (Flow::StampingRegistration { form, user }, Reply::Done) => Step::Ask(
            Query::NewSecret,
            Flow::DrawingSecret(
                Issue {
                    user,
                    jkt: form.jkt,
                    user_agent: form.user_agent,
                    purpose: Purpose::Register {
                        kind: form.kind,
                        value: form.value,
                        client_ip: form.client_ip,
                    },
                },
            ),
        ),
        (_, reply) => fail(reply),
    }
}

/// The steps of a login, up to its session.
fn advance_login(flow: Flow, reply: Reply, expires_in: u64) -> (step: Step)
    requires
        is_login(flow),
    ensures
        step == next(flow, reply, expires_in),
{
    match (flow, reply) {
        (Flow::TimingLogin(form), Reply::Time(now)) => {
            let since: i64 = if now >= i64::MIN + LOGIN_WINDOW_MICROS {
                now - LOGIN_WINDOW_MICROS
            } else {
                i64::MIN
            };
            Step::Ask(
                Query::CountFailedAttempts {
                    kind: form.kind.clone(),
                    value: form.value.clone(),
                    since,
                },
                Flow::CountingFailures(form),
            )
        },
        (Flow::CountingFailures(form), Reply::Failures(count)) => if count >= LOGIN_FAILURE_LIMIT {
            Step::Done(Err(Failure::Unauthorized))
        } else {
            Step::Ask(
                Query::FindUserByIdentifier { kind: form.kind.clone(), value: form.value.clone() },
                Flow::FindingLogin(form),
            )
        },
        (Flow::FindingLogin(form), Reply::User(user)) => {
            let hash = match &user {
                Some(user) => Some(user.password_hash.clone()),
                None => None,
            };
            Step::Ask(
                Query::VerifyPassword { password: form.password.clone(), hash },
                Flow::CheckingPassword { form, user },
            )
        },
        (Flow::CheckingPassword { form, user: Some(user) }, Reply::Verdict(right)) => if !right {
            record(&form, false, Some("wrong_password"), Flow::RejectingLogin)
        } else if user.totp_enabled {
            Step::Done(Ok(Success::Requires2fa))
        } else {
            Step::Ask(
                Query::UpdateLastLogin { user_id: user.id },
                Flow::StampingLogin { form, user },
            )
        },
        (Flow::CheckingPassword { form, user: None }, Reply::Verdict(_)) => record(
            &form,
            false,
            Some("user_not_found"),
            Flow::RejectingLogin,
        ),
        (Flow::RejectingLogin, Reply::Done) => Step::Done(Err(Failure::Unauthorized)),
        (Flow::RejectingLogin, Reply::Failed { .. }) => Step::Done(Err(Failure::Unauthorized)),
        (Flow::RejectingLogin, Reply::Taken { .. }) => Step::Done(Err(Failure::Unauthorized)),
        (Flow::StampingLogin { form, user }, Reply::Done) => stamp_done(form, user),
        (Flow::StampingLogin { form, user }, Reply::Failed { .. }) => stamp_done(form, user),
        (Flow::StampingLogin { form, user }, Reply::Taken { .. }) => stamp_done(form, user),
        (Flow::AuditingLogin { form, user }, Reply::Done) => audit_done(form, user),
        (Flow::AuditingLogin { form, user }, Reply::Failed { .. }) => audit_done(form, user),
        (Flow::AuditingLogin { form, user }, Reply::Taken { .. }) => audit_done(form, user),
        (_, reply) => fail(reply),
    }
}

/// The audit entry of a login, after its stamp.
fn stamp_done(form: LoginForm, user: UserRow) -> (step: Step)
    ensures
        step == audit_login(form, user),
{
    let query = Query::RecordLoginAttempt {
        kind: form.kind.clone(),
        value: form.value.clone(),
        client_ip: form.client_ip.clone(),
        success: true,
        reason: None,
    };
    Step::Ask(query, Flow::AuditingLogin { form, user })
}

/// The session of a login, after its audit entry.
fn audit_done(form: LoginForm, user: UserRow) -> (step: Step)
    ensures
        step == open_session(form, user),
{
    Step::Ask(
        Query::NewSecret,
        Flow::DrawingSecret(
            Issue {
                user,
                jkt: form.jkt,
                user_agent: form.user_agent,
                purpose: Purpose::Login,
            },
        ),
    )
}

/// The steps of issuing a session.
fn advance_session(flow: Flow, reply: Reply, expires_in: u64) -> (step: Step)
    requires
        is_session(flow),
    ensures
        step == next(flow, reply, expires_in),
{
    match (flow, reply) {
        (Flow::DrawingSecret(issue), Reply::Secret { secret, hash }) => match &issue.purpose {
            Purpose::Rotate { fam, expires_at, .. } => {
                let (fam, expires_at): (u128, i64) = (*fam, *expires_at);
                store_token(issue, secret, hash, fam, expires_at)
            },
            _ => Step::Ask(Query::NewFamily, Flow::DrawingFamily { issue, secret, hash }),
        },
        (Flow::DrawingFamily { issue, secret, hash }, Reply::Family(fam)) => Step::Ask(
            Query::RefreshExpiry,
            Flow::DrawingExpiry { issue, secret, hash, fam },
        ),
        (Flow::DrawingExpiry { issue, secret, hash, fam }, Reply::Expiry(expires_at)) =>
            store_token(issue, secret, hash, fam, expires_at),
        (Flow::StoringToken { issue, secret }, Reply::Done) => {
            let audit = match &issue.purpose {
                Purpose::Register { kind, value, client_ip } => Some(
                    Query::RecordLoginAttempt {
                        kind: kind.clone(),
                        value: value.clone(),
                        client_ip: client_ip.clone(),
                        success: true,
                        reason: None,
                    },
                ),
                _ => None,
            };
            match audit {
                Some(query) => Step::Ask(query, Flow::AuditingRegistration { issue, secret }),
                None => sign_access(issue, secret),
            }
        },
        (Flow::AuditingRegistration { issue, secret }, Reply::Done) => Step::Ask(
            Query::Commit,
            Flow::CommittingRegistration { issue, secret },
        ),
        (Flow::AuditingRegistration { issue, secret }, Reply::Failed { .. }) => Step::Ask(
            Query::Commit,
            Flow::CommittingRegistration { issue, secret },
        ),
        (Flow::AuditingRegistration { issue, secret }, Reply::Taken { .. }) => Step::Ask(
            Query::Commit,
            Flow::CommittingRegistration { issue, secret },
        ),
        (Flow::CommittingRegistration { issue, secret }, Reply::Done) => sign_access(issue, secret),
        (Flow::SigningAccess { issue, secret }, Reply::Access(access_token)) => {
            let tokens = ReplacementTokens { access_token, refresh_token: secret, expires_in };
            match issue.purpose {
                Purpose::Rotate { fam, old_hash, .. } => Step::Ask(
                    Query::GraceStore { fam, token_hash: old_hash, tokens: tokens.clone() },
                    Flow::CachingGrace { tokens },
                ),
                _ => Step::Done(Ok(Success::Tokens(tokens))),
            }
        },
        (Flow::CachingGrace { tokens }, Reply::Remembered(_)) => Step::Ask(
            Query::Commit,
            Flow::CommittingRotation { tokens },
        ),
        (Flow::CommittingRotation { tokens }, Reply::Done) => Step::Done(
            Ok(Success::Tokens(tokens)),
        ),
        (_, reply) => fail(reply),
    }
}

/// The steps of a refresh, up to the session that replaces the token.
fn advance_refresh(flow: Flow, reply: Reply, expires_in: u64) -> (step: Step)
    requires
        is_refresh(flow),
    ensures
        step == next(flow, reply, expires_in),
{
    match (flow, reply) {
        (Flow::BeginningRefresh(form), Reply::Done) => Step::Ask(
            Query::RevokeTokenIfActive { token_hash: form.token_hash.clone() },
            Flow::RevokingToken(form),
        ),
        (Flow::RevokingToken(form), Reply::Token(Some(row))) => Step::Ask(
            Query::CurrentTime,
            Flow::CheckingExpiry { form, row },
        ),
        (Flow::RevokingToken(form), Reply::Token(None)) => Step::Ask(
            Query::FindTokenByHash { token_hash: form.token_hash.clone() },
            Flow::FindingRevoked(form),
        ),
        (Flow::FindingRevoked(form), Reply::Token(Some(row))) => {
            let bound = same(&row.dpop_jkt, &form.jkt);
            Step::Ask(
                Query::GraceLookup { fam: row.fam, token_hash: form.token_hash },
                Flow::LookingUpGrace { fam: row.fam, bound },
            )
        },
        (Flow::FindingRevoked(_), Reply::Token(None)) => Step::Done(Err(Failure::Unauthorized)),
        (Flow::LookingUpGrace { fam, bound }, Reply::Cached(lookup)) => match lookup.into_tokens() {
            Some(tokens) => if bound {
                Step::Done(Ok(Success::Tokens(tokens)))
            } else {
                Step::Done(Err(Failure::Unauthorized))
            },
            None => Step::Ask(Query::RevokeTokenFamily { fam }, Flow::RevokingFamily),
        },
        (Flow::RevokingFamily, Reply::Done) => Step::Ask(Query::Commit, Flow::CommittingRevocation),
        (Flow::CommittingRevocation, Reply::Done) => Step::Done(Err(Failure::Unauthorized)),
        (Flow::CheckingExpiry { form, row }, Reply::Time(now)) => if row.expires_at <= now
            || !same(&row.dpop_jkt, &form.jkt) {
            Step::Done(Err(Failure::Unauthorized))
        } else {
            Step::Ask(
                Query::FindUserById { user_id: row.user_id },
                Flow::FindingOwner { form, row },
            )
        },
        (Flow::FindingOwner { form, row }, Reply::User(Some(user))) => Step::Ask(
            Query::NewSecret,
            Flow::DrawingSecret(
                Issue {
                    user,
                    jkt: form.jkt,
                    user_agent: form.user_agent,
                    purpose: Purpose::Rotate {
                        fam: row.fam,
                        expires_at: row.expires_at,
                        old_hash: form.token_hash,
                    },
                },
            ),
        ),
        (Flow::FindingOwner { .. }, Reply::User(None)) => Step::Done(Err(Failure::Unauthorized)),
        (Flow::LoggingOut, Reply::Done) => Step::Done(Ok(Success::LoggedOut)),
        (_, reply) => fail(reply),
    }
}

/// The steps of setting up and confirming the second factor.
fn advance_enrollment(flow: Flow, reply: Reply, expires_in: u64) -> (step: Step)
    requires
        is_enrollment(flow),
    ensures
        step == next(flow, reply, expires_in),
{
    match (flow, reply) {
        (Flow::FindingForSetup { user_id, issuer, account_name }, Reply::User(Some(user))) =>
            if user.totp_enabled {
            Step::Done(Err(Failure::TotpAlreadyEnabled))
        } else {
            Step::Ask(
                Query::GetPendingSecret { user_id },
                Flow::ReadingDraft { user_id, issuer, account_name },
            )
        },
        (Flow::FindingForSetup { .. }, Reply::User(None)) => Step::Done(Err(Failure::Unauthorized)),
        (Flow::ReadingDraft { issuer, account_name, .. }, Reply::Pending(Some(secret))) =>
            Step::Ask(
            Query::TotpSetupFrom { secret, issuer, account_name },
            Flow::RebuildingSetup,
        ),
        (Flow::ReadingDraft { user_id, issuer, account_name }, Reply::Pending(None)) => Step::Ask(
            Query::NewTotpSetup { issuer, account_name },
            Flow::GeneratingSetup { user_id },
        ),
        (Flow::RebuildingSetup, Reply::Setup(setup)) => Step::Done(Ok(Success::Setup(setup))),
        (Flow::GeneratingSetup { user_id }, Reply::Setup(setup)) => Step::Ask(
            Query::SetPendingSecret { user_id, secret: setup.secret_base32.clone() },
            Flow::SavingDraft { setup },
        ),
        (Flow::SavingDraft { setup }, Reply::Done) => Step::Done(Ok(Success::Setup(setup))),
        (Flow::FindingForConfirm { user_id, code }, Reply::User(Some(user))) => if user.totp_enabled {
            Step::Done(Err(Failure::TotpAlreadyEnabled))
        } else {
            Step::Ask(
                Query::GetPendingSecret { user_id },
                Flow::ReadingPending { user_id: user.id, code },
            )
        },
        (Flow::FindingForConfirm { .. }, Reply::User(None)) => Step::Done(
            Err(Failure::Unauthorized),
        ),
        (Flow::ReadingPending { user_id, code }, Reply::Pending(Some(secret))) => Step::Ask(
            Query::VerifyTotp { secret, code },
            Flow::CheckingFirstCode { user_id },
        ),
        (Flow::ReadingPending { .. }, Reply::Pending(None)) => Step::Done(
            Err(Failure::SetupExpired),
        ),
        (Flow::CheckingFirstCode { user_id }, Reply::Verdict(right)) => if right {
            Step::Ask(Query::NewRecoveryCodes, Flow::DrawingCodes { user_id })
        } else {
            Step::Done(Err(Failure::Unauthorized))
        },
        (Flow::DrawingCodes { user_id }, Reply::Codes { codes, hashes }) => Step::Ask(
            Query::Begin,
            Flow::BeginningActivation { user_id, codes, hashes },
        ),
        (Flow::BeginningActivation { user_id, codes, hashes }, Reply::Done) => Step::Ask(
            Query::ActivateTotp { user_id },
            Flow::Activating { user_id, codes, hashes },
        ),
        (Flow::Activating { user_id, codes, hashes }, Reply::Done) => Step::Ask(
            Query::InvalidateRecoveryCodes { user_id },
            Flow::InvalidatingOld { user_id, codes, hashes },
        ),
        (Flow::InvalidatingOld { user_id, codes, hashes }, Reply::Done) => Step::Ask(
            Query::CreateRecoveryCodes { user_id, hashes },
            Flow::StoringCodes { codes },
        ),
        (Flow::StoringCodes { codes }, Reply::Done) => Step::Ask(
            Query::Commit,
            Flow::CommittingActivation { codes },
        ),
        (Flow::CommittingActivation { codes }, Reply::Done) => Step::Done(
            Ok(Success::RecoveryCodes(codes)),
        ),
        (_, reply) => fail(reply),
    }
}

/// The steps of verifying and disabling the second factor.
fn advance_factor(flow: Flow, reply: Reply, expires_in: u64) -> (step: Step)
    requires
        is_factor(flow),
    ensures
        step == next(flow, reply, expires_in),
{
    match (flow, reply) {
        (Flow::FindingForCode(form), Reply::User(Some(user))) => if !user.totp_enabled {
            Step::Done(Err(Failure::TotpNotEnabled))
        } else if form.is_recovery {
            Step::Ask(
                Query::ConsumeRecoveryCode { user_id: user.id, code_hash: form.code_hash },
                Flow::ConsumingCode { disabling: form.disabling },
            )
        } else {
            match user.totp_secret {
                Some(secret) => Step::Ask(
                    Query::VerifyTotp { secret, code: form.code.clone() },
                    Flow::CheckingCode {
                        user_id: user.id,
                        code: form.code,
                        disabling: form.disabling,
                    },
                ),
                None => Step::Done(Err(Failure::Unauthorized)),
            }
        },
        (Flow::FindingForCode(_), Reply::User(None)) => Step::Done(Err(Failure::Unauthorized)),
        (Flow::ConsumingCode { disabling }, Reply::Consumed(consumed)) => if consumed {
            verified(SecondFactorKind::RecoveryCode, disabling)
        } else {
            Step::Done(Err(Failure::Unauthorized))
        },
        (Flow::CheckingCode { user_id, code, disabling }, Reply::Verdict(right)) => if right {
            Step::Ask(Query::ClaimTotp { user_id, code }, Flow::ClaimingCode { disabling })
        } else {
            Step::Done(Err(Failure::Unauthorized))
        },
        (Flow::ClaimingCode { disabling }, Reply::Fresh(claim)) => if claim.is_fresh() {
            verified(SecondFactorKind::Totp, disabling)
        } else {
            Step::Done(Err(Failure::Unauthorized))
        },
        (Flow::FindingForDisable(form), Reply::User(Some(user))) => if !user.totp_enabled {
            Step::Done(Err(Failure::TotpNotEnabled))
        } else {
            Step::Ask(
                Query::FindUserById { user_id: form.user_id },
                Flow::FindingForCode(CodeForm { disabling: Some(user.id), ..form }),
            )
        },
        (Flow::FindingForDisable(_), Reply::User(None)) => Step::Done(Err(Failure::Unauthorized)),
        (Flow::BeginningDisable { user_id }, Reply::Done) => Step::Ask(
            Query::DisableTotp { user_id },
            Flow::Disabling { user_id },
        ),
        (Flow::Disabling { user_id }, Reply::Done) => Step::Ask(
            Query::InvalidateRecoveryCodes { user_id },
            Flow::InvalidatingCodes,
        ),
        (Flow::InvalidatingCodes, Reply::Done) => Step::Ask(Query::Commit, Flow::CommittingDisable),
        (Flow::CommittingDisable, Reply::Done) => Step::Done(Ok(Success::Disabled)),
        (_, reply) => fail(reply),
    }
}

/// The step after a reply that no stage waits for.
pub open spec fn failed(reply: Reply) -> Step {
    match reply {
        Reply::Failed { message } => refuse(Failure::Internal { message }),
        Reply::Taken { message } => refuse(Failure::Internal { message }),
        _ => refuse(Failure::OutOfOrder),
    }
}

/// The step after a reply that no stage waits for.
fn fail(reply: Reply) -> (step: Step)
    ensures
        step == failed(reply),
{
    match reply {
        Reply::Failed { message } => Step::Done(Err(Failure::Internal { message })),
        Reply::Taken { message } => Step::Done(Err(Failure::Internal { message })),
        _ => Step::Done(Err(Failure::OutOfOrder)),
    }
}

/// The stages of a registration, up to its session.
pub open spec fn is_registration(flow: Flow) -> bool {
    flow is HashingPassword || flow is BeginningRegistration || flow is CreatingUser
        || flow is CreatingIdentifier || flow is StampingRegistration
}

/// The stages of a login, up to its session.
pub open spec fn is_login(flow: Flow) -> bool {
    flow is TimingLogin || flow is CountingFailures || flow is FindingLogin
        || flow is CheckingPassword || flow is RejectingLogin
        || flow is StampingLogin || flow is AuditingLogin
}

/// The stages of issuing a session.
pub open spec fn is_session(flow: Flow) -> bool {
    flow is DrawingSecret || flow is DrawingFamily || flow is DrawingExpiry || flow is StoringToken
        || flow is AuditingRegistration || flow is CommittingRegistration || flow is SigningAccess
        || flow is CachingGrace || flow is CommittingRotation
}

/// The stages of a refresh, up to its session, and of a logout.
pub open spec fn is_refresh(flow: Flow) -> bool {
    flow is BeginningRefresh || flow is RevokingToken || flow is FindingRevoked
        || flow is LookingUpGrace || flow is RevokingFamily || flow is CommittingRevocation
        || flow is CheckingExpiry || flow is FindingOwner || flow is LoggingOut
}

/// The stages of setting up and confirming the second factor.
pub open spec fn is_enrollment(flow: Flow) -> bool {
    flow is FindingForSetup || flow is ReadingDraft || flow is RebuildingSetup
        || flow is GeneratingSetup || flow is SavingDraft || flow is FindingForConfirm
        || flow is ReadingPending || flow is CheckingFirstCode || flow is DrawingCodes
        || flow is BeginningActivation || flow is Activating || flow is InvalidatingOld
        || flow is StoringCodes || flow is CommittingActivation
}

/// The stages of verifying and disabling the second factor.
pub open spec fn is_factor(flow: Flow) -> bool {
    flow is FindingForCode || flow is ConsumingCode || flow is CheckingCode
        || flow is ClaimingCode || flow is FindingForDisable || flow is BeginningDisable
        || flow is Disabling || flow is InvalidatingCodes || flow is CommittingDisable
}

/// The operation that a stage belongs to.
#[derive(Clone, Copy, PartialEq, Eq, Structural)]
enum Part {
    Registration,
    Login,
    Session,
    Refresh,
    Enrollment,
    Factor,
}

/// The operation that a stage belongs to.
fn part_of(flow: &Flow) -> (part: Part)
    ensures
        match part {
            Part::Registration => is_registration(*flow),
            Part::Login => is_login(*flow),
            Part::Session => is_session(*flow),
            Part::Refresh => is_refresh(*flow),
            Part::Enrollment => is_enrollment(*flow),
            Part::Factor => is_factor(*flow),
        },
{
    match flow {
        Flow::HashingPassword(_) => Part::Registration,
        Flow::BeginningRegistration { .. } => Part::Registration,
        Flow::CreatingUser(_) => Part::Registration,
        Flow::CreatingIdentifier { .. } => Part::Registration,
        Flow::StampingRegistration { .. } => Part::Registration,
        Flow::TimingLogin(_) => Part::Login,
        Flow::CountingFailures(_) => Part::Login,
        Flow::FindingLogin(_) => Part::Login,
        Flow::CheckingPassword { .. } => Part::Login,
        Flow::RejectingLogin => Part::Login,
        Flow::StampingLogin { .. } => Part::Login,
        Flow::AuditingLogin { .. } => Part::Login,
        Flow::DrawingSecret(_) => Part::Session,
        Flow::DrawingFamily { .. } => Part::Session,
        Flow::DrawingExpiry { .. } => Part::Session,
        Flow::StoringToken { .. } => Part::Session,
        Flow::AuditingRegistration { .. } => Part::Session,
        Flow::CommittingRegistration { .. } => Part::Session,
        Flow::SigningAccess { .. } => Part::Session,
        Flow::CachingGrace { .. } => Part::Session,
        Flow::CommittingRotation { .. } => Part::Session,
        Flow::BeginningRefresh(_) => Part::Refresh,
        Flow::RevokingToken(_) => Part::Refresh,
        Flow::FindingRevoked(_) => Part::Refresh,
        Flow::LookingUpGrace { .. } => Part::Refresh,
        Flow::RevokingFamily => Part::Refresh,
        Flow::CommittingRevocation => Part::Refresh,
        Flow::CheckingExpiry { .. } => Part::Refresh,
        Flow::FindingOwner { .. } => Part::Refresh,
        Flow::LoggingOut => Part::Refresh,
        Flow::FindingForSetup { .. } => Part::Enrollment,
        Flow::ReadingDraft { .. } => Part::Enrollment,
        Flow::RebuildingSetup => Part::Enrollment,
        Flow::GeneratingSetup { .. } => Part::Enrollment,
        Flow::SavingDraft { .. } => Part::Enrollment,
        Flow::FindingForConfirm { .. } => Part::Enrollment,
        Flow::ReadingPending { .. } => Part::Enrollment,
        Flow::CheckingFirstCode { .. } => Part::Enrollment,
        Flow::DrawingCodes { .. } => Part::Enrollment,
        Flow::BeginningActivation { .. } => Part::Enrollment,
        Flow::Activating { .. } => Part::Enrollment,
        Flow::InvalidatingOld { .. } => Part::Enrollment,
        Flow::StoringCodes { .. } => Part::Enrollment,
        Flow::CommittingActivation { .. } => Part::Enrollment,
        Flow::FindingForCode(_) => Part::Factor,
        Flow::ConsumingCode { .. } => Part::Factor,
        Flow::CheckingCode { .. } => Part::Factor,
        Flow::ClaimingCode { .. } => Part::Factor,
        Flow::FindingForDisable(_) => Part::Factor,
        Flow::BeginningDisable { .. } => Part::Factor,
        Flow::Disabling { .. } => Part::Factor,
        Flow::InvalidatingCodes => Part::Factor,
        Flow::CommittingDisable => Part::Factor,
    }
}

/// Takes the step of an operation from a stage and a reply. `expires_in` is the lifetime
/// of access tokens in seconds.
pub fn advance(flow: Flow, reply: Reply, expires_in: u64) -> (step: Step)
    ensures
        step == next(flow, reply, expires_in),
{
    match part_of(&flow) {
        Part::Registration => advance_registration(flow, reply, expires_in),
        Part::Login => advance_login(flow, reply, expires_in),
        Part::Session => advance_session(flow, reply, expires_in),
        Part::Refresh => advance_refresh(flow, reply, expires_in),
        Part::Enrollment => advance_enrollment(flow, reply, expires_in),
        Part::Factor => advance_factor(flow, reply, expires_in),
    }
}

/// How many queries an operation can ask from a stage on, the one that it waits for
/// counted in.
pub open spec fn queries_left(flow: Flow) -> nat {
    match flow {
        Flow::HashingPassword(_) => 14,
        Flow::BeginningRegistration { .. } => 13,
        Flow::CreatingUser(_) => 12,
        Flow::CreatingIdentifier { .. } => 11,
        Flow::StampingRegistration { .. } => 10,
        Flow::TimingLogin(_) => 15,
        Flow::CountingFailures(_) => 14,
        Flow::FindingLogin(_) => 13,
        Flow::CheckingPassword { .. } => 12,
        Flow::RejectingLogin => 1,
        Flow::StampingLogin { .. } => 11,
        Flow::AuditingLogin { .. } => 10,
        Flow::DrawingSecret(_) => 9,
        Flow::DrawingFamily { .. } => 8,
        Flow::DrawingExpiry { .. } => 7,
        Flow::StoringToken { .. } => 6,
        Flow::AuditingRegistration { .. } => 5,
        Flow::CommittingRegistration { .. } => 4,
        Flow::SigningAccess { .. } => 3,
        Flow::CachingGrace { .. } => 2,
        Flow::CommittingRotation { .. } => 1,
        Flow::BeginningRefresh(_) => 13,
        Flow::RevokingToken(_) => 12,
        Flow::FindingRevoked(_) => 4,
        Flow::LookingUpGrace { .. } => 3,
        Flow::RevokingFamily => 2,
        Flow::CommittingRevocation => 1,
        Flow::CheckingExpiry { .. } => 11,
        Flow::FindingOwner { .. } => 10,
        Flow::LoggingOut => 1,
        Flow::FindingForSetup { .. } => 4,
        Flow::ReadingDraft { .. } => 3,
        Flow::RebuildingSetup => 1,
        Flow::GeneratingSetup { .. } => 2,
        Flow::SavingDraft { .. } => 1,
        Flow::FindingForConfirm { .. } => 9,
        Flow::ReadingPending { .. } => 8,
        Flow::CheckingFirstCode { .. } => 7,
        Flow::DrawingCodes { .. } => 6,
        Flow::BeginningActivation { .. } => 5,
        Flow::Activating { .. } => 4,
        Flow::InvalidatingOld { .. } => 3,
        Flow::StoringCodes { .. } => 2,
        Flow::CommittingActivation { .. } => 1,
        Flow::FindingForCode(_) => 7,
        Flow::ConsumingCode { .. } => 5,
        Flow::CheckingCode { .. } => 6,
        Flow::ClaimingCode { .. } => 5,
        Flow::FindingForDisable(_) => 8,
        Flow::BeginningDisable { .. } => 4,
        Flow::Disabling { .. } => 3,
        Flow::InvalidatingCodes => 2,
        Flow::CommittingDisable => 1,
    }
}

/// How many queries are left when a step is taken.
pub open spec fn step_queries(step: Step) -> nat {
    match step {
        Step::Ask(_, flow) => queries_left(flow),
        Step::Done(_) => 0,
    }
}

/// Every operation ends: each step leaves fewer queries to ask, whatever the reply.
pub proof fn law_operations_end(flow: Flow, reply: Reply, expires_in: u64)
    ensures
        step_queries(next(flow, reply, expires_in)) < queries_left(flow),
{
}

/// Whether a transaction is open while a stage waits for its reply.
pub open spec fn is_open_in(flow: Flow) -> bool {
    match flow {
        Flow::DrawingSecret(issue) => !(issue.purpose is Login),
        Flow::DrawingFamily { issue, .. } => !(issue.purpose is Login),
        Flow::DrawingExpiry { issue, .. } => !(issue.purpose is Login),
        Flow::StoringToken { issue, .. } => !(issue.purpose is Login),
        Flow::SigningAccess { issue, .. } => issue.purpose is Rotate,
        _ => {
            ||| flow is CreatingUser || flow is CreatingIdentifier || flow is StampingRegistration
            ||| flow is AuditingRegistration || flow is CommittingRegistration
            ||| flow is CachingGrace || flow is CommittingRotation
            ||| flow is RevokingToken || flow is FindingRevoked || flow is LookingUpGrace
            ||| flow is RevokingFamily || flow is CommittingRevocation
            ||| flow is CheckingExpiry || flow is FindingOwner
            ||| flow is Activating || flow is InvalidatingOld || flow is StoringCodes
            ||| flow is CommittingActivation
            ||| flow is Disabling || flow is InvalidatingCodes || flow is CommittingDisable
        },
    }
}

/// Whether a stage waits for a transaction to be opened.
pub open spec fn is_beginning(flow: Flow) -> bool {
    flow is BeginningRegistration || flow is BeginningRefresh || flow is BeginningActivation
        || flow is BeginningDisable
}

/// Whether a stage waits for the commit.
pub open spec fn is_committing(flow: Flow) -> bool {
    flow is CommittingRegistration || flow is CommittingRotation || flow is CommittingRevocation
        || flow is CommittingActivation || flow is CommittingDisable
}

/// Whether a query changes what has to change as a whole: a user with the identifier, a
/// rotated token with its replacement, a family of tokens, or the second factor with the
/// recovery codes.
pub open spec fn belongs_in_transaction(query: Query) -> bool {
    query is CreateUser || query is CreateIdentifier || query is RevokeTokenIfActive
        || query is RevokeTokenFamily || query is ActivateTotp || query is InvalidateRecoveryCodes
        || query is CreateRecoveryCodes || query is DisableTotp
}

/// What has to change as a whole changes in one transaction: each such query is asked
/// between the opening of a transaction and its commit, whatever the replies are. An
/// operation that rotates a token or that changes the second factor succeeds after its
/// commit alone.
pub proof fn law_changes_stay_in_their_transaction(flow: Flow, reply: Reply, expires_in: u64)
    requires
        flow matches Flow::AuditingRegistration { issue, .. } ==> issue.purpose is Register,
        flow matches Flow::CommittingRegistration { issue, .. } ==> issue.purpose is Register,
    ensures
        next(flow, reply, expires_in) matches Step::Ask(query, then) ==> {
            &&& query is Begin <==> is_beginning(then)
            &&& query is Commit <==> is_committing(then)
            &&& belongs_in_transaction(query) ==> is_open_in(then)
            &&& query is CreateRefreshToken ==> (is_open_in(then) <==> is_open_in(flow))
            &&& is_open_in(then) ==> is_beginning(flow) || (is_open_in(flow) && !is_committing(
                flow,
            ))
            &&& is_beginning(flow) || (is_open_in(flow) && !is_committing(flow)) ==> is_open_in(
                then,
            )
        },
        next(flow, reply, expires_in) matches Step::Done(Ok(success)) ==> {
            &&& success is RecoveryCodes ==> flow is CommittingActivation
            &&& success is Disabled ==> flow is CommittingDisable
            &&& success is Tokens && is_open_in(flow) ==> flow is CommittingRotation
                || flow is LookingUpGrace
        },
{
}

/// The audit log and the login stamp are no reason to refuse: where they fail, a login or a
/// registration goes on as if they had not.
pub proof fn law_audit_failure_changes_nothing(flow: Flow, message: String, expires_in: u64)
    requires
        flow is RejectingLogin || flow is StampingLogin || flow is AuditingLogin
            || flow is AuditingRegistration,
    ensures
        next(flow, Reply::Failed { message }, expires_in) == next(flow, Reply::Done, expires_in),
        next(flow, Reply::Taken { message }, expires_in) == next(flow, Reply::Done, expires_in),
        flow is RejectingLogin ==> next(flow, Reply::Done, expires_in) == Step::Done(
            Err(Failure::Unauthorized),
        ),
        !(flow is RejectingLogin) ==> next(flow, Reply::Done, expires_in) is Ask,
{
}

/// No failure of the store is taken for success: where a query fails, the operation ends
/// with an error, except where the query only stamps or audits a login.
pub proof fn law_failed_query_fails_the_operation(flow: Flow, message: String, expires_in: u64)
    requires
        !(flow is RejectingLogin || flow is StampingLogin || flow is AuditingLogin
            || flow is AuditingRegistration),
    ensures
        next(flow, Reply::Failed { message }, expires_in) == Step::Done(
            Err(Failure::Internal { message }),
        ),
{
}

} // verus!
