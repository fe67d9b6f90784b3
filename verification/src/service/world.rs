//! What the store and the caches make of the queries, and what holds of whole operations.
//!
//! The tables are modelled as maps and sequences of rows. A transaction works on a copy of
//! the committed tables, which replaces them at the commit and is dropped where an
//! operation ends without one.

use vstd::prelude::*;

use crate::cache::{CodeClaim, TotpReplayCache};
use crate::error::DpopErrorView;
use crate::service::flow::{
    law_operations_end, next, step_queries, Failure, Flow, Issue, Purpose, Query, RefreshForm,
    Reply, Step, Success,
};
use crate::service::grace::{GraceCache, GraceEntry, GraceLookup, ReplacementTokens};
use crate::store::models::{
    CreateRefreshTokenParams, RecoveryCodeRow, RefreshTokenRow, UserRow,
};
use crate::text::optional;
use crate::totp::{is_setup_of, setup_outcome, TotpSetup};

verus! {

/// A login identifier: its kind, its value in lower case, and whose it is.
#[verifier::ext_equal]
pub struct Identifier {
    pub kind: Seq<char>,
    pub value: Seq<char>,
    pub user_id: u128,
}

/// An entry of the audit log: a login or a registration, and what came of it.
#[verifier::ext_equal]
pub struct Attempt {
    pub kind: Seq<char>,
    pub value: Seq<char>,
    pub client_ip: Seq<char>,
    pub success: bool,
    pub reason: Option<&'static str>,
    pub at: i64,
}

/// The tables of the store.
#[verifier::ext_equal]
pub struct Tables {
    pub users: Map<u128, UserRow>,
    pub identifiers: Seq<Identifier>,
    pub tokens: Seq<RefreshTokenRow>,
    pub codes: Seq<RecoveryCodeRow>,
    pub attempts: Seq<Attempt>,
}

/// The store and the caches.
#[verifier::ext_equal]
pub struct World {
    /// What is committed.
    pub committed: Tables,
    /// The tables as the open transaction sees them.
    pub open: Option<Tables>,
    /// The replacements in their grace period, by family and hash of the rotated token.
    pub grace: Map<(u128, Seq<char>), ReplacementTokens>,
    /// The used codes in their window, by user.
    pub used: Set<(u128, Seq<char>)>,
    /// The time.
    pub now: i64,
}

/// What an operation draws and is told while it runs.
pub struct Draws {
    /// A user row as the store fills it in, but for the name and the password hash.
    pub user: UserRow,
    /// The identifier of an inserted row.
    pub id: u128,
    /// The message of a refused statement or a failed call.
    pub message: String,
    /// The hash of a password.
    pub password_hash: spec_fn(Seq<char>) -> String,
    /// Whether a password is right for a hash, or for the dummy hash where there is none.
    pub password_right: spec_fn(Seq<char>, Option<Seq<char>>) -> bool,
    /// A refresh secret.
    pub secret: String,
    /// The hash of the refresh secret.
    pub secret_hash: String,
    /// A token family.
    pub fam: u128,
    /// The expiry of a new refresh token.
    pub expiry: i64,
    /// The access token for a subject and a name that is bound to a key.
    pub access: spec_fn(u128, Seq<char>, Seq<char>) -> String,
    /// Whether a code is right for a secret.
    pub code_right: spec_fn(Seq<char>, Seq<char>) -> bool,
    /// A TOTP setup. One that is not what the query asks for stands for a failed call.
    pub setup: TotpSetup,
    /// Recovery codes.
    pub codes: Vec<String>,
    /// Their hashes.
    pub code_hashes: Vec<String>,
    /// The cache of replacements.
    pub grace_cache: GraceCache,
    /// The cache of used codes.
    pub code_cache: TotpReplayCache,
}

/// Microseconds in the ten minutes that a TOTP draft lives.
pub const DRAFT_MICROS: i64 = 600_000_000;

/// The tables that a query sees.
pub open spec fn seen(world: World) -> Tables {
    match world.open {
        Some(tables) => tables,
        None => world.committed,
    }
}

/// The world after a query has changed the tables that it sees.
pub open spec fn changed(world: World, tables: Tables) -> World {
    match world.open {
        Some(_) => World { open: Some(tables), ..world },
        None => World { committed: tables, ..world },
    }
}

/// The user with the primary key, unless deleted.
pub open spec fn active_user(tables: Tables, user_id: u128) -> Option<UserRow> {
    if tables.users.dom().contains(user_id) && tables.users[user_id].deleted_at is None {
        Some(tables.users[user_id])
    } else {
        None
    }
}

/// Whether an identifier stands at a place.
pub open spec fn is_identifier(
    tables: Tables,
    i: int,
    kind: Seq<char>,
    value: Seq<char>,
) -> bool {
    0 <= i < tables.identifiers.len() && tables.identifiers[i].kind == kind
        && tables.identifiers[i].value == value
}

/// Whether an identifier is taken.
pub open spec fn is_taken(tables: Tables, kind: Seq<char>, value: Seq<char>) -> bool {
    exists|i: int| is_identifier(tables, i, kind, value)
}

/// The user that an identifier leads to, unless deleted.
pub open spec fn identified_user(tables: Tables, kind: Seq<char>, value: Seq<char>) -> Option<
    UserRow,
> {
    if is_taken(tables, kind, value) {
        let i = choose|i: int| is_identifier(tables, i, kind, value);
        active_user(tables, tables.identifiers[i].user_id)
    } else {
        None
    }
}

/// Whether an attempt failed under the identifier, not before the given time.
pub open spec fn is_recent_failure(
    attempt: Attempt,
    kind: Seq<char>,
    value: Seq<char>,
    since: i64,
) -> bool {
    attempt.kind == kind && attempt.value == value && !attempt.success && attempt.at >= since
}

/// How many attempts failed under the identifier, not before the given time.
pub open spec fn failures_since(
    attempts: Seq<Attempt>,
    kind: Seq<char>,
    value: Seq<char>,
    since: i64,
) -> nat
    decreases attempts.len(),
{
    if attempts.len() == 0 {
        0
    } else {
        failures_since(attempts.drop_last(), kind, value, since) + if is_recent_failure(
            attempts.last(),
            kind,
            value,
            since,
        ) {
            1nat
        } else {
            0nat
        }
    }
}

/// A count as a number of 64 bits: the largest one stands for all beyond it.
pub open spec fn bounded(count: nat) -> u64 {
    if count <= u64::MAX {
        count as u64
    } else {
        u64::MAX
    }
}

/// Whether a token with the hash stands at a place.
pub open spec fn is_token(tokens: Seq<RefreshTokenRow>, i: int, hash: Seq<char>) -> bool {
    0 <= i < tokens.len() && tokens[i].token_hash@ == hash
}

/// Whether a token with the hash stands at a place and is not revoked.
pub open spec fn is_active_token(tokens: Seq<RefreshTokenRow>, i: int, hash: Seq<char>) -> bool {
    is_token(tokens, i, hash) && tokens[i].revoked_at is None
}

/// A token as it is when it is revoked.
pub open spec fn revoked(row: RefreshTokenRow, now: i64) -> RefreshTokenRow {
    match row.revoked_at {
        Some(_) => row,
        None => RefreshTokenRow { revoked_at: Some(now), ..row },
    }
}

/// The tokens after those of a family are revoked.
pub open spec fn family_revoked(
    tokens: Seq<RefreshTokenRow>,
    fam: u128,
    now: i64,
) -> Seq<RefreshTokenRow> {
    Seq::new(
        tokens.len(),
        |i: int|
            if tokens[i].fam == fam {
                revoked(tokens[i], now)
            } else {
                tokens[i]
            },
    )
}

/// The tokens after the one with the hash is revoked.
pub open spec fn hash_revoked(
    tokens: Seq<RefreshTokenRow>,
    hash: Seq<char>,
    now: i64,
) -> Seq<RefreshTokenRow> {
    Seq::new(
        tokens.len(),
        |i: int|
            if tokens[i].token_hash@ == hash {
                revoked(tokens[i], now)
            } else {
                tokens[i]
            },
    )
}

/// The row of an inserted token.
pub open spec fn token_row(params: CreateRefreshTokenParams, id: u128, now: i64) -> RefreshTokenRow {
    RefreshTokenRow {
        id,
        user_id: params.user_id,
        token_hash: params.token_hash,
        fam: params.fam,
        dpop_jkt: params.dpop_jkt,
        user_agent: params.user_agent,
        expires_at: params.expires_at,
        revoked_at: None,
        created_at: now,
    }
}

/// Whether an unused recovery code stands at a place.
pub open spec fn is_unused_code(
    codes: Seq<RecoveryCodeRow>,
    i: int,
    user_id: u128,
    hash: Seq<char>,
) -> bool {
    0 <= i < codes.len() && codes[i].user_id == user_id && codes[i].code_hash@ == hash
        && codes[i].used_at is None
}

/// A recovery code as it is when it is used.
pub open spec fn used_code(row: RecoveryCodeRow, now: i64) -> RecoveryCodeRow {
    match row.used_at {
        Some(_) => row,
        None => RecoveryCodeRow { used_at: Some(now), ..row },
    }
}

/// The recovery codes after the unused ones of a user with the hash are used.
pub open spec fn codes_consumed(
    codes: Seq<RecoveryCodeRow>,
    user_id: u128,
    hash: Seq<char>,
    now: i64,
) -> Seq<RecoveryCodeRow> {
    Seq::new(
        codes.len(),
        |i: int|
            if codes[i].user_id == user_id && codes[i].code_hash@ == hash {
                used_code(codes[i], now)
            } else {
                codes[i]
            },
    )
}

/// The recovery codes after those of a user are invalidated.
pub open spec fn codes_invalidated(
    codes: Seq<RecoveryCodeRow>,
    user_id: u128,
    now: i64,
) -> Seq<RecoveryCodeRow> {
    Seq::new(
        codes.len(),
        |i: int|
            if codes[i].user_id == user_id {
                used_code(codes[i], now)
            } else {
                codes[i]
            },
    )
}

/// The rows of inserted recovery codes.
pub open spec fn code_rows(user_id: u128, hashes: Seq<String>, id: u128, now: i64) -> Seq<
    RecoveryCodeRow,
> {
    Seq::new(
        hashes.len(),
        |i: int|
            RecoveryCodeRow {
                id,
                user_id,
                code_hash: hashes[i],
                used_at: None,
                created_at: now,
            },
    )
}

/// The user's TOTP draft, unless TOTP is enabled or the draft is too old.
pub open spec fn live_draft(tables: Tables, user_id: u128, now: i64) -> Option<String> {
    match active_user(tables, user_id) {
        Some(user) => match user.totp_pending_at {
            Some(at) if !user.totp_enabled && at > now - DRAFT_MICROS => user.totp_pending_secret,
            _ => None,
        },
        None => None,
    }
}

/// A user with TOTP switched on.
pub open spec fn enrolled(user: UserRow, now: i64) -> UserRow {
    UserRow {
        totp_secret: user.totp_pending_secret,
        totp_enabled: true,
        totp_enabled_at: Some(now),
        totp_pending_secret: None,
        totp_pending_at: None,
        ..user
    }
}

/// A user with TOTP switched off.
pub open spec fn unenrolled(user: UserRow) -> UserRow {
    UserRow {
        totp_secret: None,
        totp_enabled: false,
        totp_enabled_at: None,
        totp_pending_secret: None,
        totp_pending_at: None,
        ..user
    }
}

/// The tables with one user replaced.
pub open spec fn with_user(tables: Tables, user: UserRow) -> Tables {
    Tables { users: tables.users.insert(user.id, user), ..tables }
}

/// The replacement of a rotated token, if it is still in its grace period.
pub open spec fn remembered(world: World, fam: u128, hash: Seq<char>) -> Option<ReplacementTokens> {
    if world.grace.dom().contains((fam, hash)) {
        Some(world.grace[(fam, hash)])
    } else {
        None
    }
}

/// The reply to a query, and the world after it.
pub open spec fn perform(world: World, query: Query, draws: Draws) -> (Reply, World) {
    let tables = seen(world);
    match query {
        Query::Begin => (Reply::Done, World { open: Some(world.committed), ..world }),
        Query::Commit => (Reply::Done, World { committed: tables, open: None, ..world }),
        Query::FindUserByIdentifier { kind, value } => (
            Reply::User(identified_user(tables, kind@, value@)),
            world,
        ),
        Query::FindUserById { user_id } => (Reply::User(active_user(tables, user_id)), world),
        Query::CreateUser { name, password_hash } => {
            let user = UserRow { name, password_hash, ..draws.user };
            (Reply::User(Some(user)), changed(world, with_user(tables, user)))
        },
        Query::CreateIdentifier { user_id, kind, value } => if is_taken(tables, kind@, value@) {
            (Reply::Taken { message: draws.message }, world)
        } else {
            let identifier = Identifier { kind: kind@, value: value@, user_id };
            (
                Reply::Done,
                changed(
                    world,
                    Tables { identifiers: tables.identifiers.push(identifier), ..tables },
                ),
            )
        },
        Query::UpdateLastLogin { user_id } => (
            Reply::Done,
            if tables.users.dom().contains(user_id) {
                let user = UserRow {
                    last_login_at: Some(world.now),
                    ..tables.users[user_id]
                };
                changed(world, Tables { users: tables.users.insert(user_id, user), ..tables })
            } else {
                world
            },
        ),
        Query::CreateRefreshToken(params) => (
            Reply::Done,
            changed(
                world,
                Tables { tokens: tables.tokens.push(token_row(params, draws.id, world.now)), ..tables },
            ),
        ),
        Query::RevokeTokenIfActive { token_hash } => if exists|i: int|
            is_active_token(tables.tokens, i, token_hash@) {
            let i = choose|i: int| is_active_token(tables.tokens, i, token_hash@);
            let row = revoked(tables.tokens[i], world.now);
            (
                Reply::Token(Some(row)),
                changed(world, Tables { tokens: tables.tokens.update(i, row), ..tables }),
            )
        } else {
            (Reply::Token(None), world)
        },
        Query::FindTokenByHash { token_hash } => if exists|i: int|
            is_token(tables.tokens, i, token_hash@) {
            let i = choose|i: int| is_token(tables.tokens, i, token_hash@);
            (Reply::Token(Some(tables.tokens[i])), world)
        } else {
            (Reply::Token(None), world)
        },
        Query::RevokeTokenFamily { fam } => (
            Reply::Done,
            changed(
                world,
                Tables { tokens: family_revoked(tables.tokens, fam, world.now), ..tables },
            ),
        ),
        Query::RevokeTokenByHash { token_hash } => (
            Reply::Done,
            changed(
                world,
                Tables { tokens: hash_revoked(tables.tokens, token_hash@, world.now), ..tables },
            ),
        ),
        Query::RecordLoginAttempt { kind, value, client_ip, success, reason } => {
            let attempt = Attempt {
                kind: kind@,
                value: value@,
                client_ip: client_ip@,
                success,
                reason,
                at: world.now,
            };
            (
                Reply::Done,
                changed(world, Tables { attempts: tables.attempts.push(attempt), ..tables }),
            )
        },
        Query::CountFailedAttempts { kind, value, since } => (
            Reply::Failures(bounded(failures_since(tables.attempts, kind@, value@, since))),
            world,
        ),
        Query::GetPendingSecret { user_id } => (
            Reply::Pending(live_draft(tables, user_id, world.now)),
            world,
        ),
        Query::SetPendingSecret { user_id, secret } => (
            Reply::Done,
            match active_user(tables, user_id) {
                Some(user) if !user.totp_enabled => {
                    let user = UserRow {
                        totp_pending_secret: Some(secret),
                        totp_pending_at: Some(world.now),
                        ..user
                    };
                    changed(world, Tables { users: tables.users.insert(user_id, user), ..tables })
                },
                _ => world,
            },
        ),
        Query::ActivateTotp { user_id } => (
            Reply::Done,
            match active_user(tables, user_id) {
                Some(user) if user.totp_pending_secret is Some => changed(
                    world,
                    Tables {
                        users: tables.users.insert(user_id, enrolled(user, world.now)),
                        ..tables
                    },
                ),
                _ => world,
            },
        ),
        Query::DisableTotp { user_id } => (
            Reply::Done,
            match active_user(tables, user_id) {
                Some(user) if user.totp_enabled => changed(
                    world,
                    Tables { users: tables.users.insert(user_id, unenrolled(user)), ..tables },
                ),
                _ => world,
            },
        ),
        Query::InvalidateRecoveryCodes { user_id } => (
            Reply::Done,
            changed(
                world,
                Tables { codes: codes_invalidated(tables.codes, user_id, world.now), ..tables },
            ),
        ),
        Query::CreateRecoveryCodes { user_id, hashes } => (
            Reply::Done,
            changed(
                world,
                Tables {
                    codes: tables.codes + code_rows(user_id, hashes@, draws.id, world.now),
                    ..tables
                },
            ),
        ),
        Query::ConsumeRecoveryCode { user_id, code_hash } => if exists|i: int|
            is_unused_code(tables.codes, i, user_id, code_hash@) {
            (
                Reply::Consumed(true),
                changed(
                    world,
                    Tables {
                        codes: codes_consumed(tables.codes, user_id, code_hash@, world.now),
                        ..tables
                    },
                ),
            )
        } else {
            (Reply::Consumed(false), world)
        },
        Query::HashPassword { password } => (
            Reply::Hash((draws.password_hash)(password@)),
            world,
        ),
        Query::VerifyPassword { password, hash } => (
            Reply::Verdict((draws.password_right)(password@, optional(hash))),
            world,
        ),
        Query::NewSecret => (
            Reply::Secret { secret: draws.secret, hash: draws.secret_hash },
            world,
        ),
        Query::NewFamily => (Reply::Family(draws.fam), world),
        Query::RefreshExpiry => (Reply::Expiry(draws.expiry), world),
        Query::CurrentTime => (Reply::Time(world.now), world),
        Query::SignAccess { subject, name, jkt } => (
            Reply::Access((draws.access)(subject, name@, jkt@)),
            world,
        ),
        Query::GraceLookup { fam, token_hash } => (
            Reply::Cached(
                GraceLookup::made(
                    draws.grace_cache,
                    fam,
                    token_hash,
                    remembered(world, fam, token_hash@),
                ),
            ),
            world,
        ),
        Query::GraceStore { fam, token_hash, tokens } => (
            Reply::Remembered(GraceEntry::made(draws.grace_cache, fam, token_hash, tokens)),
            World { grace: world.grace.insert((fam, token_hash@), tokens), ..world },
        ),
        Query::VerifyTotp { secret, code } => (
            Reply::Verdict((draws.code_right)(secret@, code@)),
            world,
        ),
        Query::ClaimTotp { user_id, code } => {
            let key = (user_id, code@);
            (
                Reply::Fresh(
                    CodeClaim::made(draws.code_cache, user_id, code, !world.used.contains(key)),
                ),
                World { used: world.used.insert(key), ..world },
            )
        },
        Query::NewTotpSetup { issuer, account_name } => (
            if is_setup_of(draws.setup@, issuer@, account_name@) {
                Reply::Setup(draws.setup)
            } else {
                Reply::Failed { message: draws.message }
            },
            world,
        ),
        Query::TotpSetupFrom { secret, issuer, account_name } => (
            if setup_outcome(secret@, issuer@, account_name@) == Ok::<_, DpopErrorView>(
                draws.setup@,
            ) {
                Reply::Setup(draws.setup)
            } else {
                Reply::Failed { message: draws.message }
            },
            world,
        ),
        Query::NewRecoveryCodes => (
            Reply::Codes { codes: draws.codes, hashes: draws.code_hashes },
            world,
        ),
    }
}

/// The result of an operation from a step on, and the world after it.
pub open spec fn run(world: World, step: Step, draws: Draws, expires_in: u64) -> (
    Result<Success, Failure>,
    World,
)
    decreases step_queries(step),
{
    match step {
        Step::Done(result) => (result, World { open: None, ..world }),
        Step::Ask(query, flow) => {
            let (reply, after) = perform(world, query, draws);
            proof {
                law_operations_end(flow, reply, expires_in);
            }
            run(after, next(flow, reply, expires_in), draws, expires_in)
        },
    }
}

/// A run takes one step after another.
pub proof fn lemma_run_step(
    world: World,
    query: Query,
    flow: Flow,
    reply: Reply,
    after: World,
    draws: Draws,
    expires_in: u64,
)
    requires
        perform(world, query, draws) == (reply, after),
    ensures
        run(world, Step::Ask(query, flow), draws, expires_in) == run(
            after,
            next(flow, reply, expires_in),
            draws,
            expires_in,
        ),
{
    reveal_with_fuel(run, 1);
}

/// The result of an operation from a step on, and the world after it: what [`run`] gives,
/// taken as a whole.
#[verifier::opaque]
pub open spec fn end_of(world: World, step: Step, draws: Draws, expires_in: u64) -> (
    Result<Success, Failure>,
    World,
) {
    run(world, step, draws, expires_in)
}

/// A step does not change what an operation comes to.
pub proof fn lemma_step(
    world: World,
    query: Query,
    flow: Flow,
    reply: Reply,
    after: World,
    then: Step,
    draws: Draws,
    expires_in: u64,
)
    requires
        perform(world, query, draws) == (reply, after),
        next(flow, reply, expires_in) == then,
    ensures
        end_of(world, Step::Ask(query, flow), draws, expires_in) == end_of(
            after,
            then,
            draws,
            expires_in,
        ),
{
    reveal(end_of);
    reveal_with_fuel(run, 1);
}

/// An operation that is done comes to its result, and an open transaction is dropped.
pub proof fn lemma_done(
    world: World,
    result: Result<Success, Failure>,
    draws: Draws,
    expires_in: u64,
)
    ensures
        end_of(world, Step::Done(result), draws, expires_in) == (
            result,
            World { open: None, ..world },
        ),
{
    reveal(end_of);
}

/// What an operation comes to is what its run gives.
pub proof fn lemma_end_of_run(world: World, step: Step, draws: Draws, expires_in: u64)
    ensures
        end_of(world, step, draws, expires_in) == run(world, step, draws, expires_in),
{
    reveal(end_of);
}

/// The tables with a token added at the end.
pub open spec fn with_token(tables: Tables, row: RefreshTokenRow) -> Tables {
    Tables { tokens: tables.tokens.push(row), ..tables }
}

/// The replacement of a token comes to the pair, which the grace cache remembers, and to
/// the commit.
proof fn lemma_rotation_ends(
    world: World,
    tables: Tables,
    issue: Issue,
    fam: u128,
    expires_at: i64,
    old_hash: String,
    draws: Draws,
    expires_in: u64,
)
    requires
        world.open == Some(tables),
        issue.purpose == (Purpose::Rotate { fam, expires_at, old_hash }),
    ensures
        ({
            let pair = issued_pair(draws, issue.user, issue.jkt@, expires_in);
            end_of(
                world,
                Step::Ask(Query::NewSecret, Flow::DrawingSecret(issue)),
                draws,
                expires_in,
            ) == (
                Ok::<_, Failure>(Success::Tokens(pair)),
                World {
                    committed: with_token(
                        tables,
                        RefreshTokenRow {
                            id: draws.id,
                            user_id: issue.user.id,
                            token_hash: draws.secret_hash,
                            fam,
                            dpop_jkt: issue.jkt,
                            user_agent: issue.user_agent,
                            expires_at,
                            revoked_at: None,
                            created_at: world.now,
                        },
                    ),
                    open: None,
                    grace: world.grace.insert((fam, old_hash@), pair),
                    ..world
                },
            )
        }),
{
    let (secret, hash) = (draws.secret, draws.secret_hash);
    let pair = issued_pair(draws, issue.user, issue.jkt@, expires_in);
    let params = CreateRefreshTokenParams {
        user_id: issue.user.id,
        token_hash: hash,
        fam,
        dpop_jkt: issue.jkt,
        user_agent: issue.user_agent,
        expires_at,
    };
    let full = with_token(tables, token_row(params, draws.id, world.now));
    let stored = World { open: Some(full), ..world };
    let cached = World { grace: world.grace.insert((fam, old_hash@), pair), ..stored };
    let done = World { committed: full, open: None, ..cached };
    let storing = Step::Ask(
        Query::CreateRefreshToken(params),
        Flow::StoringToken { issue, secret },
    );
    let signing = Query::SignAccess {
        subject: issue.user.public_id,
        name: issue.user.name,
        jkt: issue.jkt,
    };
    let caching = Query::GraceStore { fam, token_hash: old_hash, tokens: pair };
    let drawing = Step::Ask(Query::NewSecret, Flow::DrawingSecret(issue));
    assert(end_of(world, drawing, draws, expires_in) == end_of(world, storing, draws, expires_in))
        by {
        lemma_step(
            world,
            Query::NewSecret,
            Flow::DrawingSecret(issue),
            Reply::Secret { secret, hash },
            world,
            storing,
            draws,
            expires_in,
        );
    }
    let asking = Step::Ask(signing, Flow::SigningAccess { issue, secret });
    assert(end_of(world, storing, draws, expires_in) == end_of(stored, asking, draws, expires_in))
        by {
        lemma_step(
            world,
            Query::CreateRefreshToken(params),
            Flow::StoringToken { issue, secret },
            Reply::Done,
            stored,
            asking,
            draws,
            expires_in,
        );
    }
    let keeping = Step::Ask(caching, Flow::CachingGrace { tokens: pair });
    assert(end_of(stored, asking, draws, expires_in) == end_of(stored, keeping, draws, expires_in))
        by {
        lemma_step(
            stored,
            signing,
            Flow::SigningAccess { issue, secret },
            Reply::Access(pair.access_token),
            stored,
            keeping,
            draws,
            expires_in,
        );
    }
    let committing = Step::Ask(Query::Commit, Flow::CommittingRotation { tokens: pair });
    assert(end_of(stored, keeping, draws, expires_in) == end_of(
        cached,
        committing,
        draws,
        expires_in,
    )) by {
        lemma_step(
            stored,
            caching,
            Flow::CachingGrace { tokens: pair },
            Reply::Remembered(GraceEntry::made(draws.grace_cache, fam, old_hash, pair)),
            cached,
            committing,
            draws,
            expires_in,
        );
    }
    let end = Step::Done(Ok(Success::Tokens(pair)));
    assert(end_of(cached, committing, draws, expires_in) == end_of(done, end, draws, expires_in))
        by {
        lemma_step(
            cached,
            Query::Commit,
            Flow::CommittingRotation { tokens: pair },
            Reply::Done,
            done,
            end,
            draws,
            expires_in,
        );
    }
    lemma_done(done, Ok(Success::Tokens(pair)), draws, expires_in);
}

/// Whether no two tokens have one hash.
pub open spec fn hashes_differ(tokens: Seq<RefreshTokenRow>) -> bool {
    forall|i: int, j: int|
        0 <= i < tokens.len() && 0 <= j < tokens.len() && (#[trigger] tokens[i]).token_hash@ == (
        #[trigger] tokens[j]).token_hash@ ==> i == j
}

/// The first step of a refresh.
pub open spec fn refresh_step(form: RefreshForm) -> Step {
    Step::Ask(Query::Begin, Flow::BeginningRefresh(form))
}

/// The pair that is issued to a user with a key: the access token has the public identifier
/// and the name of the user, and is bound to the key.
pub open spec fn issued_pair(
    draws: Draws,
    user: UserRow,
    jkt: Seq<char>,
    expires_in: u64,
) -> ReplacementTokens {
    ReplacementTokens {
        access_token: (draws.access)(user.public_id, user.name@, jkt),
        refresh_token: draws.secret,
        expires_in,
    }
}

/// The row that replaces a rotated token: it inherits the owner, the family and the
/// expiry, and is bound to the key that it was asked for with.
pub open spec fn replacement_row(
    row: RefreshTokenRow,
    user: UserRow,
    form: RefreshForm,
    draws: Draws,
    now: i64,
) -> RefreshTokenRow {
    RefreshTokenRow {
        id: draws.id,
        user_id: user.id,
        token_hash: draws.secret_hash,
        fam: row.fam,
        dpop_jkt: form.jkt,
        user_agent: form.user_agent,
        expires_at: row.expires_at,
        revoked_at: None,
        created_at: now,
    }
}

/// Rotation: an active token that is not expired and is presented with its key is
/// revoked, and a token of the same family with the same expiry takes its place. Nothing
/// else changes but the grace cache, which remembers the new pair.
pub proof fn law_refresh_rotates(
    world: World,
    form: RefreshForm,
    i: int,
    draws: Draws,
    expires_in: u64,
)
    requires
        world.open is None,
        hashes_differ(world.committed.tokens),
        is_active_token(world.committed.tokens, i, form.token_hash@),
        world.committed.tokens[i].expires_at > world.now,
        world.committed.tokens[i].dpop_jkt@ == form.jkt@,
        active_user(world.committed, world.committed.tokens[i].user_id) is Some,
    ensures
        ({
            let old = world.committed.tokens[i];
            let user = active_user(world.committed, old.user_id)->0;
            let pair = issued_pair(draws, user, form.jkt@, expires_in);
            let (result, after) = run(world, refresh_step(form), draws, expires_in);
            &&& result == Ok::<_, Failure>(Success::Tokens(pair))
            &&& after.committed == Tables {
                tokens: world.committed.tokens.update(i, revoked(old, world.now)).push(
                    replacement_row(old, user, form, draws, world.now),
                ),
                ..world.committed
            }
            &&& after.open is None
            &&& after.grace == world.grace.insert((old.fam, form.token_hash@), pair)
            &&& after.used == world.used
            &&& after.now == world.now
        }),
{
    let tokens = world.committed.tokens;
    assert(is_active_token(tokens, i, form.token_hash@));
    let k = choose|k: int| is_active_token(tokens, k, form.token_hash@);
    assert(tokens[k].token_hash@ == tokens[i].token_hash@);
    assert(k == i);
    lemma_refresh_of_active(world, form, i, draws, expires_in);
    let old = tokens[i];
    let user = active_user(world.committed, old.user_id)->0;
    let gone = Tables { tokens: tokens.update(i, revoked(old, world.now)), ..world.committed };
    lemma_rotation_ends(
        World { open: Some(gone), ..world },
        gone,
        Issue {
            user,
            jkt: form.jkt,
            user_agent: form.user_agent,
            purpose: Purpose::Rotate {
                fam: old.fam,
                expires_at: old.expires_at,
                old_hash: form.token_hash,
            },
        },
        old.fam,
        old.expires_at,
        form.token_hash,
        draws,
        expires_in,
    );
    lemma_end_of_run(world, refresh_step(form), draws, expires_in);
}

/// A refresh with an active token that is not expired and is presented with its key comes
/// to the session that replaces it.
proof fn lemma_refresh_of_active(
    world: World,
    form: RefreshForm,
    i: int,
    draws: Draws,
    expires_in: u64,
)
    requires
        world.open is None,
        is_active_token(world.committed.tokens, i, form.token_hash@),
        i == (choose|k: int| is_active_token(world.committed.tokens, k, form.token_hash@)),
        world.committed.tokens[i].expires_at > world.now,
        world.committed.tokens[i].dpop_jkt@ == form.jkt@,
        active_user(world.committed, world.committed.tokens[i].user_id) is Some,
    ensures
        ({
            let old = world.committed.tokens[i];
            let gone = Tables {
                tokens: world.committed.tokens.update(i, revoked(old, world.now)),
                ..world.committed
            };
            end_of(world, refresh_step(form), draws, expires_in) == end_of(
                World { open: Some(gone), ..world },
                Step::Ask(
                    Query::NewSecret,
                    Flow::DrawingSecret(
                        Issue {
                            user: active_user(world.committed, old.user_id)->0,
                            jkt: form.jkt,
                            user_agent: form.user_agent,
                            purpose: Purpose::Rotate {
                                fam: old.fam,
                                expires_at: old.expires_at,
                                old_hash: form.token_hash,
                            },
                        },
                    ),
                ),
                draws,
                expires_in,
            )
        }),
{
    let old = world.committed.tokens[i];
    let row = revoked(old, world.now);
    let user = active_user(world.committed, old.user_id)->0;
    let gone = Tables { tokens: world.committed.tokens.update(i, row), ..world.committed };
    let begun = World { open: Some(world.committed), ..world };
    let revoking = World { open: Some(gone), ..world };
    let token_hash = form.token_hash;
    let asking = Step::Ask(Query::RevokeTokenIfActive { token_hash }, Flow::RevokingToken(form));
    assert(end_of(world, refresh_step(form), draws, expires_in) == end_of(
        begun,
        asking,
        draws,
        expires_in,
    )) by {
        lemma_step(
            world,
            Query::Begin,
            Flow::BeginningRefresh(form),
            Reply::Done,
            begun,
            asking,
            draws,
            expires_in,
        );
    }
    let timing = Step::Ask(Query::CurrentTime, Flow::CheckingExpiry { form, row });
    assert(end_of(begun, asking, draws, expires_in) == end_of(revoking, timing, draws, expires_in))
        by {
        lemma_step(
            begun,
            Query::RevokeTokenIfActive { token_hash },
            Flow::RevokingToken(form),
            Reply::Token(Some(row)),
            revoking,
            timing,
            draws,
            expires_in,
        );
    }
    let finding = Step::Ask(
        Query::FindUserById { user_id: row.user_id },
        Flow::FindingOwner { form, row },
    );
    assert(end_of(revoking, timing, draws, expires_in) == end_of(
        revoking,
        finding,
        draws,
        expires_in,
    )) by {
        lemma_step(
            revoking,
            Query::CurrentTime,
            Flow::CheckingExpiry { form, row },
            Reply::Time(world.now),
            revoking,
            finding,
            draws,
            expires_in,
        );
    }
    let issue = Issue {
        user,
        jkt: form.jkt,
        user_agent: form.user_agent,
        purpose: Purpose::Rotate {
            fam: old.fam,
            expires_at: old.expires_at,
            old_hash: form.token_hash,
        },
    };
    let drawing = Step::Ask(Query::NewSecret, Flow::DrawingSecret(issue));
    assert(end_of(revoking, finding, draws, expires_in) == end_of(
        revoking,
        drawing,
        draws,
        expires_in,
    )) by {
        lemma_step(
            revoking,
            Query::FindUserById { user_id: row.user_id },
            Flow::FindingOwner { form, row },
            Reply::User(Some(user)),
            revoking,
            drawing,
            draws,
            expires_in,
        );
    }
}

/// A token that is not active and whose replacement is not remembered is a reuse: the
/// request is refused, and every token of the family is revoked.
pub proof fn law_reuse_revokes_the_family(
    world: World,
    form: RefreshForm,
    i: int,
    draws: Draws,
    expires_in: u64,
)
    requires
        world.open is None,
        hashes_differ(world.committed.tokens),
        is_token(world.committed.tokens, i, form.token_hash@),
        world.committed.tokens[i].revoked_at is Some,
        !world.grace.dom().contains((world.committed.tokens[i].fam, form.token_hash@)),
    ensures
        run(world, refresh_step(form), draws, expires_in) == (
            Err::<Success, _>(Failure::Unauthorized),
            World {
                committed: Tables {
                    tokens: family_revoked(
                        world.committed.tokens,
                        world.committed.tokens[i].fam,
                        world.now,
                    ),
                    ..world.committed
                },
                ..world
            },
        ),
{
    let fam = world.committed.tokens[i].fam;
    GraceLookup::lemma_made(
        draws.grace_cache,
        fam,
        form.token_hash,
        remembered(world, fam, form.token_hash@),
    );
    lemma_revoked_token_is_found(world.committed.tokens, i, form.token_hash@);
    let token_hash = form.token_hash;
    let begun = World { open: Some(world.committed), ..world };
    let row = world.committed.tokens[i];
    let bound = row.dpop_jkt@ == form.jkt@;
    let all = Tables {
        tokens: family_revoked(world.committed.tokens, fam, world.now),
        ..world.committed
    };
    let revoking = World { open: Some(all), ..world };
    let done = World { committed: all, ..world };
    let lookup = GraceLookup::made(
        draws.grace_cache,
        fam,
        form.token_hash,
        remembered(world, fam, form.token_hash@),
    );
    let step0 = Step::Ask(Query::Begin, Flow::BeginningRefresh(form));
    let step1 = Step::Ask(Query::RevokeTokenIfActive { token_hash }, Flow::RevokingToken(form));
    let step2 = Step::Ask(Query::FindTokenByHash { token_hash }, Flow::FindingRevoked(form));
    let step3 = Step::Ask(
        Query::GraceLookup { fam, token_hash },
        Flow::LookingUpGrace { fam, bound },
    );
    let step4 = Step::Ask(Query::RevokeTokenFamily { fam }, Flow::RevokingFamily);
    let step5 = Step::Ask(Query::Commit, Flow::CommittingRevocation);
    let then = Step::Done(Err(Failure::Unauthorized));
    assert(end_of(world, step0, draws, expires_in) == end_of(begun, step1, draws, expires_in)) by {
        lemma_step(
            world,
            Query::Begin,
            Flow::BeginningRefresh(form),
            Reply::Done,
            begun,
            step1,
            draws,
            expires_in,
        );
    }
    assert(end_of(begun, step1, draws, expires_in) == end_of(begun, step2, draws, expires_in)) by {
        lemma_step(
            begun,
            Query::RevokeTokenIfActive { token_hash },
            Flow::RevokingToken(form),
            Reply::Token(None),
            begun,
            step2,
            draws,
            expires_in,
        );
    }
    assert(end_of(begun, step2, draws, expires_in) == end_of(begun, step3, draws, expires_in)) by {
        lemma_step(
            begun,
            Query::FindTokenByHash { token_hash },
            Flow::FindingRevoked(form),
            Reply::Token(Some(row)),
            begun,
            step3,
            draws,
            expires_in,
        );
    }
    assert(end_of(begun, step3, draws, expires_in) == end_of(begun, step4, draws, expires_in)) by {
        lemma_step(
            begun,
            Query::GraceLookup { fam, token_hash },
            Flow::LookingUpGrace { fam, bound },
            Reply::Cached(lookup),
            begun,
            step4,
            draws,
            expires_in,
        );
    }
    assert(end_of(begun, step4, draws, expires_in) == end_of(revoking, step5, draws, expires_in))
        by {
        lemma_step(
            begun,
            Query::RevokeTokenFamily { fam },
            Flow::RevokingFamily,
            Reply::Done,
            revoking,
            step5,
            draws,
            expires_in,
        );
    }
    assert(end_of(revoking, step5, draws, expires_in) == end_of(done, then, draws, expires_in)) by {
        lemma_step(
            revoking,
            Query::Commit,
            Flow::CommittingRevocation,
            Reply::Done,
            done,
            then,
            draws,
            expires_in,
        );
    }
    lemma_done(done, Err(Failure::Unauthorized), draws, expires_in);
    lemma_end_of_run(world, refresh_step(form), draws, expires_in);
}

/// After a family is revoked none of its tokens is active.
pub proof fn law_revoked_family_has_no_active_token(
    tokens: Seq<RefreshTokenRow>,
    fam: u128,
    now: i64,
)
    ensures
        forall|i: int|
            0 <= i < tokens.len() && tokens[i].fam == fam ==> (#[trigger] family_revoked(
                tokens,
                fam,
                now,
            )[i]).revoked_at is Some,
        forall|i: int|
            0 <= i < tokens.len() && tokens[i].fam != fam ==> #[trigger] family_revoked(
                tokens,
                fam,
                now,
            )[i] == tokens[i],
{
}

/// A revoked token is found by its hash, and not as an active one.
proof fn lemma_revoked_token_is_found(tokens: Seq<RefreshTokenRow>, i: int, hash: Seq<char>)
    requires
        hashes_differ(tokens),
        is_token(tokens, i, hash),
        tokens[i].revoked_at is Some,
    ensures
        !(exists|k: int| is_active_token(tokens, k, hash)),
        exists|k: int| is_token(tokens, k, hash),
        (choose|k: int| is_token(tokens, k, hash)) == i,
{
    assert forall|k: int| is_token(tokens, k, hash) implies k == i by {
        assert(tokens[k].token_hash@ == tokens[i].token_hash@);
    }
}

/// A retry within the grace period, with the key that the token is bound to, gets the
/// replacement that was issued, and changes nothing.
pub proof fn law_grace_returns_the_same_replacement(
    world: World,
    form: RefreshForm,
    i: int,
    draws: Draws,
    expires_in: u64,
)
    requires
        world.open is None,
        hashes_differ(world.committed.tokens),
        is_token(world.committed.tokens, i, form.token_hash@),
        world.committed.tokens[i].revoked_at is Some,
        world.grace.dom().contains((world.committed.tokens[i].fam, form.token_hash@)),
        world.committed.tokens[i].dpop_jkt@ == form.jkt@,
    ensures
        run(world, refresh_step(form), draws, expires_in) == (
            Ok::<_, Failure>(
                Success::Tokens(
                    world.grace[(world.committed.tokens[i].fam, form.token_hash@)],
                ),
            ),
            world,
        ),
{
    let fam = world.committed.tokens[i].fam;
    GraceLookup::lemma_made(
        draws.grace_cache,
        fam,
        form.token_hash,
        remembered(world, fam, form.token_hash@),
    );
    lemma_revoked_token_is_found(world.committed.tokens, i, form.token_hash@);
    let token_hash = form.token_hash;
    let begun = World { open: Some(world.committed), ..world };
    let row = world.committed.tokens[i];
    let lookup = GraceLookup::made(
        draws.grace_cache,
        fam,
        form.token_hash,
        remembered(world, fam, form.token_hash@),
    );
    let step0 = Step::Ask(Query::Begin, Flow::BeginningRefresh(form));
    let step1 = Step::Ask(Query::RevokeTokenIfActive { token_hash }, Flow::RevokingToken(form));
    let step2 = Step::Ask(Query::FindTokenByHash { token_hash }, Flow::FindingRevoked(form));
    let step3 = Step::Ask(
        Query::GraceLookup { fam, token_hash },
        Flow::LookingUpGrace { fam, bound: true },
    );
    let then = Step::Done(Ok(Success::Tokens(world.grace[(fam, token_hash@)])));
    assert(end_of(world, step0, draws, expires_in) == end_of(begun, step1, draws, expires_in)) by {
        lemma_step(
            world,
            Query::Begin,
            Flow::BeginningRefresh(form),
            Reply::Done,
            begun,
            step1,
            draws,
            expires_in,
        );
    }
    assert(end_of(begun, step1, draws, expires_in) == end_of(begun, step2, draws, expires_in)) by {
        lemma_step(
            begun,
            Query::RevokeTokenIfActive { token_hash },
            Flow::RevokingToken(form),
            Reply::Token(None),
            begun,
            step2,
            draws,
            expires_in,
        );
    }
    assert(end_of(begun, step2, draws, expires_in) == end_of(begun, step3, draws, expires_in)) by {
        lemma_step(
            begun,
            Query::FindTokenByHash { token_hash },
            Flow::FindingRevoked(form),
            Reply::Token(Some(row)),
            begun,
            step3,
            draws,
            expires_in,
        );
    }
    assert(end_of(begun, step3, draws, expires_in) == end_of(begun, then, draws, expires_in)) by {
        lemma_step(
            begun,
            Query::GraceLookup { fam, token_hash },
            Flow::LookingUpGrace { fam, bound: true },
            Reply::Cached(lookup),
            begun,
            then,
            draws,
            expires_in,
        );
    }
    lemma_done(begun, Ok(Success::Tokens(world.grace[(fam, token_hash@)])), draws, expires_in);
    lemma_end_of_run(world, refresh_step(form), draws, expires_in);
}

/// A retry within the grace period with another key than the one that the token is bound
/// to is refused, and changes nothing: the replacement is for the holder of the key.
pub proof fn law_grace_is_for_the_holder_of_the_key(
    world: World,
    form: RefreshForm,
    i: int,
    draws: Draws,
    expires_in: u64,
)
    requires
        world.open is None,
        hashes_differ(world.committed.tokens),
        is_token(world.committed.tokens, i, form.token_hash@),
        world.committed.tokens[i].revoked_at is Some,
        world.grace.dom().contains((world.committed.tokens[i].fam, form.token_hash@)),
        world.committed.tokens[i].dpop_jkt@ != form.jkt@,
    ensures
        run(world, refresh_step(form), draws, expires_in) == (
            Err::<Success, _>(Failure::Unauthorized),
            world,
        ),
{
    let fam = world.committed.tokens[i].fam;
    GraceLookup::lemma_made(
        draws.grace_cache,
        fam,
        form.token_hash,
        remembered(world, fam, form.token_hash@),
    );
    lemma_revoked_token_is_found(world.committed.tokens, i, form.token_hash@);
    let token_hash = form.token_hash;
    let begun = World { open: Some(world.committed), ..world };
    let row = world.committed.tokens[i];
    let lookup = GraceLookup::made(
        draws.grace_cache,
        fam,
        form.token_hash,
        remembered(world, fam, form.token_hash@),
    );
    let step0 = Step::Ask(Query::Begin, Flow::BeginningRefresh(form));
    let step1 = Step::Ask(Query::RevokeTokenIfActive { token_hash }, Flow::RevokingToken(form));
    let step2 = Step::Ask(Query::FindTokenByHash { token_hash }, Flow::FindingRevoked(form));
    let step3 = Step::Ask(
        Query::GraceLookup { fam, token_hash },
        Flow::LookingUpGrace { fam, bound: false },
    );
    let then = Step::Done(Err(Failure::Unauthorized));
    assert(end_of(world, step0, draws, expires_in) == end_of(begun, step1, draws, expires_in)) by {
        lemma_step(
            world,
            Query::Begin,
            Flow::BeginningRefresh(form),
            Reply::Done,
            begun,
            step1,
            draws,
            expires_in,
        );
    }
    assert(end_of(begun, step1, draws, expires_in) == end_of(begun, step2, draws, expires_in)) by {
        lemma_step(
            begun,
            Query::RevokeTokenIfActive { token_hash },
            Flow::RevokingToken(form),
            Reply::Token(None),
            begun,
            step2,
            draws,
            expires_in,
        );
    }
    assert(end_of(begun, step2, draws, expires_in) == end_of(begun, step3, draws, expires_in)) by {
        lemma_step(
            begun,
            Query::FindTokenByHash { token_hash },
            Flow::FindingRevoked(form),
            Reply::Token(Some(row)),
            begun,
            step3,
            draws,
            expires_in,
        );
    }
    assert(end_of(begun, step3, draws, expires_in) == end_of(begun, then, draws, expires_in)) by {
        lemma_step(
            begun,
            Query::GraceLookup { fam, token_hash },
            Flow::LookingUpGrace { fam, bound: false },
            Reply::Cached(lookup),
            begun,
            then,
            draws,
            expires_in,
        );
    }
    lemma_done(begun, Err(Failure::Unauthorized), draws, expires_in);
    lemma_end_of_run(world, refresh_step(form), draws, expires_in);
}

/// An expired token, or one presented with another key, is refused and stays as it is for
/// its owner: the revocation that came first is rolled back.
pub proof fn law_expired_or_foreign_token_stays_intact(
    world: World,
    form: RefreshForm,
    i: int,
    draws: Draws,
    expires_in: u64,
)
    requires
        world.open is None,
        hashes_differ(world.committed.tokens),
        is_active_token(world.committed.tokens, i, form.token_hash@),
        world.committed.tokens[i].expires_at <= world.now || world.committed.tokens[i].dpop_jkt@
            != form.jkt@,
    ensures
        run(world, refresh_step(form), draws, expires_in) == (
            Err::<Success, _>(Failure::Unauthorized),
            world,
        ),
{
    let tokens = world.committed.tokens;
    let k = choose|k: int| is_active_token(tokens, k, form.token_hash@);
    assert(tokens[k].token_hash@ == tokens[i].token_hash@);
    let token_hash = form.token_hash;
    let begun = World { open: Some(world.committed), ..world };
    let row = revoked(tokens[i], world.now);
    let gone = Tables { tokens: tokens.update(i, row), ..world.committed };
    let revoking = World { open: Some(gone), ..world };
    let step0 = Step::Ask(Query::Begin, Flow::BeginningRefresh(form));
    let step1 = Step::Ask(Query::RevokeTokenIfActive { token_hash }, Flow::RevokingToken(form));
    let step2 = Step::Ask(Query::CurrentTime, Flow::CheckingExpiry { form, row });
    let then = Step::Done(Err(Failure::Unauthorized));
    assert(end_of(world, step0, draws, expires_in) == end_of(begun, step1, draws, expires_in)) by {
        lemma_step(
            world,
            Query::Begin,
            Flow::BeginningRefresh(form),
            Reply::Done,
            begun,
            step1,
            draws,
            expires_in,
        );
    }
    assert(end_of(begun, step1, draws, expires_in) == end_of(revoking, step2, draws, expires_in))
        by {
        lemma_step(
            begun,
            Query::RevokeTokenIfActive { token_hash },
            Flow::RevokingToken(form),
            Reply::Token(Some(row)),
            revoking,
            step2,
            draws,
            expires_in,
        );
    }
    assert(end_of(revoking, step2, draws, expires_in) == end_of(revoking, then, draws, expires_in))
        by {
        lemma_step(
            revoking,
            Query::CurrentTime,
            Flow::CheckingExpiry { form, row },
            Reply::Time(world.now),
            revoking,
            then,
            draws,
            expires_in,
        );
    }
    lemma_done(revoking, Err(Failure::Unauthorized), draws, expires_in);
    lemma_end_of_run(world, refresh_step(form), draws, expires_in);
}

/// A token whose owner is deleted is refused, and stays as it is.
pub proof fn law_token_without_an_owner_stays_intact(
    world: World,
    form: RefreshForm,
    i: int,
    draws: Draws,
    expires_in: u64,
)
    requires
        world.open is None,
        hashes_differ(world.committed.tokens),
        is_active_token(world.committed.tokens, i, form.token_hash@),
        active_user(world.committed, world.committed.tokens[i].user_id) is None,
    ensures
        run(world, refresh_step(form), draws, expires_in) == (
            Err::<Success, _>(Failure::Unauthorized),
            world,
        ),
{
    let tokens = world.committed.tokens;
    let k = choose|k: int| is_active_token(tokens, k, form.token_hash@);
    assert(tokens[k].token_hash@ == tokens[i].token_hash@);
    let row = revoked(tokens[i], world.now);
    let begun = World { open: Some(world.committed), ..world };
    let gone = Tables { tokens: tokens.update(i, row), ..world.committed };
    let revoking = World { open: Some(gone), ..world };
    let token_hash = form.token_hash;
    let refused = Step::Done(Err(Failure::Unauthorized));
    if tokens[i].expires_at <= world.now || tokens[i].dpop_jkt@ != form.jkt@ {
        law_expired_or_foreign_token_stays_intact(world, form, i, draws, expires_in);
    } else {
        let step0 = Step::Ask(Query::Begin, Flow::BeginningRefresh(form));
        let step1 = Step::Ask(Query::RevokeTokenIfActive { token_hash }, Flow::RevokingToken(form));
        let step2 = Step::Ask(Query::CurrentTime, Flow::CheckingExpiry { form, row });
        let step3 = Step::Ask(
            Query::FindUserById { user_id: row.user_id },
            Flow::FindingOwner { form, row },
        );
        assert(end_of(world, step0, draws, expires_in) == end_of(begun, step1, draws, expires_in))
            by {
            lemma_step(
                world,
                Query::Begin,
                Flow::BeginningRefresh(form),
                Reply::Done,
                begun,
                step1,
                draws,
                expires_in,
            );
        }
        assert(end_of(begun, step1, draws, expires_in) == end_of(
            revoking,
            step2,
            draws,
            expires_in,
        )) by {
            lemma_step(
                begun,
                Query::RevokeTokenIfActive { token_hash },
                Flow::RevokingToken(form),
                Reply::Token(Some(row)),
                revoking,
                step2,
                draws,
                expires_in,
            );
        }
        assert(end_of(revoking, step2, draws, expires_in) == end_of(
            revoking,
            step3,
            draws,
            expires_in,
        )) by {
            lemma_step(
                revoking,
                Query::CurrentTime,
                Flow::CheckingExpiry { form, row },
                Reply::Time(world.now),
                revoking,
                step3,
                draws,
                expires_in,
            );
        }
        assert(end_of(revoking, step3, draws, expires_in) == end_of(
            revoking,
            refused,
            draws,
            expires_in,
        )) by {
            lemma_step(
                revoking,
                Query::FindUserById { user_id: row.user_id },
                Flow::FindingOwner { form, row },
                Reply::User(None),
                revoking,
                refused,
                draws,
                expires_in,
            );
        }
        lemma_done(revoking, Err(Failure::Unauthorized), draws, expires_in);
        lemma_end_of_run(world, refresh_step(form), draws, expires_in);
    }
}

/// An unknown token is refused and changes nothing.
pub proof fn law_unknown_token_is_refused(
    world: World,
    form: RefreshForm,
    draws: Draws,
    expires_in: u64,
)
    requires
        world.open is None,
        forall|i: int| !is_token(world.committed.tokens, i, form.token_hash@),
    ensures
        run(world, refresh_step(form), draws, expires_in) == (
            Err::<Success, _>(Failure::Unauthorized),
            world,
        ),
{
    let token_hash = form.token_hash;
    let begun = World { open: Some(world.committed), ..world };
    assert forall|k: int| !is_active_token(world.committed.tokens, k, token_hash@) by {
        assert(!is_token(world.committed.tokens, k, token_hash@));
    }
    let step0 = Step::Ask(Query::Begin, Flow::BeginningRefresh(form));
    let step1 = Step::Ask(Query::RevokeTokenIfActive { token_hash }, Flow::RevokingToken(form));
    let step2 = Step::Ask(Query::FindTokenByHash { token_hash }, Flow::FindingRevoked(form));
    let then = Step::Done(Err(Failure::Unauthorized));
    assert(end_of(world, step0, draws, expires_in) == end_of(begun, step1, draws, expires_in)) by {
        lemma_step(
            world,
            Query::Begin,
            Flow::BeginningRefresh(form),
            Reply::Done,
            begun,
            step1,
            draws,
            expires_in,
        );
    }
    assert(end_of(begun, step1, draws, expires_in) == end_of(begun, step2, draws, expires_in)) by {
        lemma_step(
            begun,
            Query::RevokeTokenIfActive { token_hash },
            Flow::RevokingToken(form),
            Reply::Token(None),
            begun,
            step2,
            draws,
            expires_in,
        );
    }
    assert(end_of(begun, step2, draws, expires_in) == end_of(begun, then, draws, expires_in)) by {
        lemma_step(
            begun,
            Query::FindTokenByHash { token_hash },
            Flow::FindingRevoked(form),
            Reply::Token(None),
            begun,
            then,
            draws,
            expires_in,
        );
    }
    lemma_done(begun, Err(Failure::Unauthorized), draws, expires_in);
    lemma_end_of_run(world, refresh_step(form), draws, expires_in);
}

} // verus!
