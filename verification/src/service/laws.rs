//! What holds of whole operations and of one operation after another.

use vstd::prelude::*;

use crate::crypto::token_hash;
use crate::service::flow::{
    next, window_start, Failure, Flow, Issue, LoginForm, Purpose, Query, RefreshForm, RegisterForm,
    Reply, Step, Success, LOGIN_FAILURE_LIMIT,
};
use crate::service::world::{
    active_user, bounded, changed, end_of, failures_since, hash_revoked, hashes_differ,
    identified_user, is_active_token, is_identifier, is_taken, is_token, issued_pair,
    law_grace_is_for_the_holder_of_the_key, law_grace_returns_the_same_replacement,
    law_refresh_rotates, law_reuse_revokes_the_family, lemma_done, lemma_end_of_run, lemma_step,
    perform, refresh_step, revoked, run, seen, token_row, with_token, Attempt, Draws, Identifier,
    Tables, World,
};
use crate::store::models::{CreateRefreshTokenParams, RefreshTokenRow, UserRow};
use crate::text::{bytes_of, optional};

verus! {

/// Whether the hash that a stage keeps is that of the secret that it keeps.
pub open spec fn keeps_hash_of_secret(flow: Flow) -> bool {
    match flow {
        Flow::DrawingFamily { secret, hash, .. } => hash@ == token_hash(bytes_of(secret@)),
        Flow::DrawingExpiry { secret, hash, .. } => hash@ == token_hash(bytes_of(secret@)),
        _ => true,
    }
}

/// Whether the hash in a reply is that of the secret in it.
pub open spec fn brings_hash_of_secret(reply: Reply) -> bool {
    match reply {
        Reply::Secret { secret, hash } => hash@ == token_hash(bytes_of(secret@)),
        _ => true,
    }
}

/// Of a refresh secret only the SHA-256 hash is stored: whatever operation inserts a
/// refresh token, the inserted text is the hash of the secret that the client is given.
pub proof fn law_only_the_hash_of_a_secret_is_stored(flow: Flow, reply: Reply, expires_in: u64)
    requires
        keeps_hash_of_secret(flow),
        brings_hash_of_secret(reply),
    ensures
        match next(flow, reply, expires_in) {
            Step::Ask(Query::CreateRefreshToken(params), after) => {
                &&& after matches Flow::StoringToken { issue, secret }
                &&& params.token_hash@ == token_hash(bytes_of(secret@))
            },
            Step::Ask(_, after) => keeps_hash_of_secret(after),
            Step::Done(_) => true,
        },
{
}

/// The world after a rotation of the token at a place.
pub open spec fn rotated_world(
    world: World,
    form: RefreshForm,
    i: int,
    draws: Draws,
    expires_in: u64,
) -> World {
    run(world, refresh_step(form), draws, expires_in).1
}

/// The tokens after a rotation: the old one revoked at its place, the new one active at
/// the end.
proof fn lemma_rotated_tokens(
    world: World,
    form: RefreshForm,
    i: int,
    draws: Draws,
    expires_in: u64,
)
    requires
        world.open is None,
        hashes_differ(world.committed.tokens),
        is_active_token(world.committed.tokens, i, form.token_hash@),
        world.committed.tokens[i].expires_at > world.now,
        world.committed.tokens[i].dpop_jkt@ == form.jkt@,
        active_user(world.committed, world.committed.tokens[i].user_id) is Some,
        forall|k: int| !is_token(world.committed.tokens, k, draws.secret_hash@),
    ensures
        ({
            let after = rotated_world(world, form, i, draws, expires_in);
            let old = world.committed.tokens[i];
            let tokens = after.committed.tokens;
            let last = world.committed.tokens.len() as int;
            &&& after.open is None
            &&& hashes_differ(tokens)
            &&& is_token(tokens, i, form.token_hash@)
            &&& tokens[i] == revoked(old, world.now)
            &&& tokens.len() == last + 1
            &&& is_active_token(tokens, last, draws.secret_hash@)
            &&& tokens[last].fam == old.fam && tokens[last].expires_at == old.expires_at
            &&& after.grace == world.grace.insert(
                (old.fam, form.token_hash@),
                issued_pair(
                    draws,
                    active_user(world.committed, old.user_id)->0,
                    form.jkt@,
                    expires_in,
                ),
            )
        }),
{
    law_refresh_rotates(world, form, i, draws, expires_in);
    let before = world.committed.tokens;
    let tokens = rotated_world(world, form, i, draws, expires_in).committed.tokens;
    let last = before.len() as int;
    assert forall|a: int, b: int|
        0 <= a < tokens.len() && 0 <= b < tokens.len() && (#[trigger] tokens[a]).token_hash@ == (
        #[trigger] tokens[b]).token_hash@ implies a == b by {
        if a < last {
            assert(tokens[a].token_hash@ == before[a].token_hash@);
            assert(!is_token(before, a, draws.secret_hash@));
        }
        if b < last {
            assert(tokens[b].token_hash@ == before[b].token_hash@);
            assert(!is_token(before, b, draws.secret_hash@));
        }
    }
}

/// A rotated token that is presented again in its grace period, with the key that it is
/// bound to, gets the same replacement again, and nothing changes.
pub proof fn law_second_use_in_grace_gets_the_same_pair(
    world: World,
    form: RefreshForm,
    again: RefreshForm,
    i: int,
    draws: Draws,
    other_draws: Draws,
    expires_in: u64,
)
    requires
        world.open is None,
        hashes_differ(world.committed.tokens),
        is_active_token(world.committed.tokens, i, form.token_hash@),
        world.committed.tokens[i].expires_at > world.now,
        world.committed.tokens[i].dpop_jkt@ == form.jkt@,
        active_user(world.committed, world.committed.tokens[i].user_id) is Some,
        forall|k: int| !is_token(world.committed.tokens, k, draws.secret_hash@),
        again.token_hash@ == form.token_hash@,
        again.jkt@ == world.committed.tokens[i].dpop_jkt@,
    ensures
        ({
            let (first, after) = run(world, refresh_step(form), draws, expires_in);
            let (second, later) = run(after, refresh_step(again), other_draws, expires_in);
            let user = active_user(world.committed, world.committed.tokens[i].user_id)->0;
            &&& first == Ok::<_, Failure>(
                Success::Tokens(issued_pair(draws, user, form.jkt@, expires_in)),
            )
            &&& second == first
            &&& later == after
        }),
{
    law_refresh_rotates(world, form, i, draws, expires_in);
    lemma_rotated_tokens(world, form, i, draws, expires_in);
    let after = rotated_world(world, form, i, draws, expires_in);
    law_grace_returns_the_same_replacement(after, again, i, other_draws, expires_in);
}

/// A rotated token that is presented again in its grace period with another key is refused,
/// and nothing changes.
pub proof fn law_second_use_with_another_key_is_refused(
    world: World,
    form: RefreshForm,
    again: RefreshForm,
    i: int,
    draws: Draws,
    other_draws: Draws,
    expires_in: u64,
)
    requires
        world.open is None,
        hashes_differ(world.committed.tokens),
        is_active_token(world.committed.tokens, i, form.token_hash@),
        world.committed.tokens[i].expires_at > world.now,
        world.committed.tokens[i].dpop_jkt@ == form.jkt@,
        active_user(world.committed, world.committed.tokens[i].user_id) is Some,
        forall|k: int| !is_token(world.committed.tokens, k, draws.secret_hash@),
        again.token_hash@ == form.token_hash@,
        again.jkt@ != world.committed.tokens[i].dpop_jkt@,
    ensures
        ({
            let after = rotated_world(world, form, i, draws, expires_in);
            let (second, later) = run(after, refresh_step(again), other_draws, expires_in);
            &&& second == Err::<Success, _>(Failure::Unauthorized)
            &&& later == after
        }),
{
    lemma_rotated_tokens(world, form, i, draws, expires_in);
    let after = rotated_world(world, form, i, draws, expires_in);
    law_grace_is_for_the_holder_of_the_key(after, again, i, other_draws, expires_in);
}

/// A rotated token that is presented again after its grace period is refused, and its
/// replacement is revoked with the whole family.
pub proof fn law_second_use_after_grace_revokes_the_replacement(
    world: World,
    form: RefreshForm,
    again: RefreshForm,
    i: int,
    draws: Draws,
    other_draws: Draws,
    expires_in: u64,
)
    requires
        world.open is None,
        hashes_differ(world.committed.tokens),
        is_active_token(world.committed.tokens, i, form.token_hash@),
        world.committed.tokens[i].expires_at > world.now,
        world.committed.tokens[i].dpop_jkt@ == form.jkt@,
        active_user(world.committed, world.committed.tokens[i].user_id) is Some,
        forall|k: int| !is_token(world.committed.tokens, k, draws.secret_hash@),
        again.token_hash@ == form.token_hash@,
    ensures
        ({
            let after = rotated_world(world, form, i, draws, expires_in);
            let forgotten = World { grace: Map::empty(), ..after };
            let (second, later) = run(forgotten, refresh_step(again), other_draws, expires_in);
            let last = world.committed.tokens.len() as int;
            &&& second == Err::<Success, _>(Failure::Unauthorized)
            &&& is_token(later.committed.tokens, last, draws.secret_hash@)
            &&& later.committed.tokens[last].revoked_at is Some
        }),
{
    lemma_rotated_tokens(world, form, i, draws, expires_in);
    let after = rotated_world(world, form, i, draws, expires_in);
    let forgotten = World { grace: Map::empty(), ..after };
    law_reuse_revokes_the_family(forgotten, again, i, other_draws, expires_in);
}

/// The first step of a logout.
pub open spec fn logout_step(token_hash: String) -> Step {
    Step::Ask(Query::RevokeTokenByHash { token_hash }, Flow::LoggingOut)
}

/// Logout revokes the token with the hash and no other, and always succeeds.
pub proof fn law_logout_revokes_the_token(
    world: World,
    token_hash: String,
    draws: Draws,
    expires_in: u64,
)
    requires
        world.open is None,
    ensures
        run(world, logout_step(token_hash), draws, expires_in) == (
            Ok::<_, Failure>(Success::LoggedOut),
            World {
                committed: Tables {
                    tokens: hash_revoked(world.committed.tokens, token_hash@, world.now),
                    ..world.committed
                },
                ..world
            },
        ),
{
    reveal_with_fuel(run, 3);
}

/// After a logout no refresh succeeds with the token, unless it was rotated before and its
/// replacement is still remembered.
pub proof fn law_logout_ends_the_session(
    world: World,
    form: RefreshForm,
    token_hash: String,
    i: int,
    draws: Draws,
    other_draws: Draws,
    expires_in: u64,
)
    requires
        world.open is None,
        hashes_differ(world.committed.tokens),
        is_token(world.committed.tokens, i, form.token_hash@),
        token_hash@ == form.token_hash@,
        !world.grace.dom().contains((world.committed.tokens[i].fam, form.token_hash@)),
    ensures
        ({
            let after = run(world, logout_step(token_hash), draws, expires_in).1;
            run(after, refresh_step(form), other_draws, expires_in).0 == Err::<Success, _>(
                Failure::Unauthorized,
            )
        }),
{
    law_logout_revokes_the_token(world, token_hash, draws, expires_in);
    let before = world.committed.tokens;
    let after = run(world, logout_step(token_hash), draws, expires_in).1;
    let tokens = after.committed.tokens;
    assert forall|a: int, b: int|
        0 <= a < tokens.len() && 0 <= b < tokens.len() && (#[trigger] tokens[a]).token_hash@ == (
        #[trigger] tokens[b]).token_hash@ implies a == b by {
        assert(tokens[a].token_hash@ == before[a].token_hash@);
        assert(tokens[b].token_hash@ == before[b].token_hash@);
    }
    assert(tokens[i] == revoked(before[i], world.now));
    law_reuse_revokes_the_family(after, form, i, other_draws, expires_in);
}

/// The first step of a login.
pub open spec fn login_step(form: LoginForm) -> Step {
    Step::Ask(Query::CurrentTime, Flow::TimingLogin(form))
}

/// The user whom a login is about, unless there is none.
pub open spec fn user_of(world: World, form: LoginForm) -> Option<UserRow> {
    identified_user(world.committed, form.kind@, form.value@)
}

/// Whether a login is about a user, with the password of that user.
pub open spec fn is_password_right(world: World, form: LoginForm, draws: Draws) -> bool {
    user_of(world, form) matches Some(user) && (draws.password_right)(
        form.password@,
        Some(user.password_hash@),
    )
}

/// How many logins under the identifier failed in the window of throttling.
pub open spec fn recent_failures(world: World, form: LoginForm) -> nat {
    failures_since(world.committed.attempts, form.kind@, form.value@, window_start(world.now))
}

/// The audit entry of a login.
pub open spec fn login_attempt(
    form: LoginForm,
    success: bool,
    reason: Option<&'static str>,
    now: i64,
) -> Attempt {
    Attempt {
        kind: form.kind@,
        value: form.value@,
        client_ip: form.client_ip@,
        success,
        reason,
        at: now,
    }
}

/// The world with an entry added to the audit log.
pub open spec fn audited(world: World, attempt: Attempt) -> World {
    World {
        committed: Tables {
            attempts: world.committed.attempts.push(attempt),
            ..world.committed
        },
        ..world
    }
}

/// Logins are throttled: once as many attempts under the identifier failed in the window as
/// are allowed, a login is refused whatever the password is, and changes nothing. No token
/// is issued.
pub proof fn law_throttled_login_is_refused(
    world: World,
    form: LoginForm,
    draws: Draws,
    expires_in: u64,
)
    requires
        world.open is None,
        recent_failures(world, form) >= LOGIN_FAILURE_LIMIT,
    ensures
        run(world, login_step(form), draws, expires_in) == (
            Err::<Success, _>(Failure::Unauthorized),
            world,
        ),
{
    let now = world.now;
    let count = bounded(recent_failures(world, form));
    let step0 = Step::Ask(Query::CurrentTime, Flow::TimingLogin(form));
    let step1 = Step::Ask(
        Query::CountFailedAttempts { kind: form.kind, value: form.value, since: window_start(now) },
        Flow::CountingFailures(form),
    );
    let then = Step::Done(Err(Failure::Unauthorized));
    assert(end_of(world, step0, draws, expires_in) == end_of(world, step1, draws, expires_in)) by {
        lemma_step(
            world,
            Query::CurrentTime,
            Flow::TimingLogin(form),
            Reply::Time(now),
            world,
            step1,
            draws,
            expires_in,
        );
    }
    assert(end_of(world, step1, draws, expires_in) == end_of(world, then, draws, expires_in)) by {
        lemma_step(
            world,
            Query::CountFailedAttempts {
                kind: form.kind,
                value: form.value,
                since: window_start(now),
            },
            Flow::CountingFailures(form),
            Reply::Failures(count),
            world,
            then,
            draws,
            expires_in,
        );
    }
    lemma_done(world, Err(Failure::Unauthorized), draws, expires_in);
    lemma_end_of_run(world, login_step(form), draws, expires_in);
}

/// An unknown identifier and a wrong password are answered alike. Neither changes a user or
/// a token; the audit log holds the real reason.
pub proof fn law_bad_credentials_are_answered_alike(
    world: World,
    form: LoginForm,
    draws: Draws,
    expires_in: u64,
)
    requires
        world.open is None,
        recent_failures(world, form) < LOGIN_FAILURE_LIMIT,
        !is_password_right(world, form, draws),
    ensures
        run(world, login_step(form), draws, expires_in) == (
            Err::<Success, _>(Failure::Unauthorized),
            audited(
                world,
                login_attempt(
                    form,
                    false,
                    Some(
                        if user_of(world, form) is None {
                            "user_not_found"
                        } else {
                            "wrong_password"
                        },
                    ),
                    world.now,
                ),
            ),
        ),
{
    let now = world.now;
    let count = bounded(recent_failures(world, form));
    let found = user_of(world, form);
    let hash = match found {
        Some(user) => Some(user.password_hash),
        None => None,
    };
    let reason = if found is None {
        "user_not_found"
    } else {
        "wrong_password"
    };
    let noted = audited(world, login_attempt(form, false, Some(reason), now));
    let step0 = Step::Ask(Query::CurrentTime, Flow::TimingLogin(form));
    let step1 = Step::Ask(
        Query::CountFailedAttempts { kind: form.kind, value: form.value, since: window_start(now) },
        Flow::CountingFailures(form),
    );
    let step2 = Step::Ask(
        Query::FindUserByIdentifier { kind: form.kind, value: form.value },
        Flow::FindingLogin(form),
    );
    let step3 = Step::Ask(
        Query::VerifyPassword { password: form.password, hash },
        Flow::CheckingPassword { form, user: found },
    );
    let step4 = Step::Ask(
        Query::RecordLoginAttempt {
            kind: form.kind,
            value: form.value,
            client_ip: form.client_ip,
            success: false,
            reason: Some(reason),
        },
        Flow::RejectingLogin,
    );
    let then = Step::Done(Err(Failure::Unauthorized));
    assert(end_of(world, step0, draws, expires_in) == end_of(world, step1, draws, expires_in)) by {
        lemma_step(
            world,
            Query::CurrentTime,
            Flow::TimingLogin(form),
            Reply::Time(now),
            world,
            step1,
            draws,
            expires_in,
        );
    }
    assert(end_of(world, step1, draws, expires_in) == end_of(world, step2, draws, expires_in)) by {
        lemma_step(
            world,
            Query::CountFailedAttempts {
                kind: form.kind,
                value: form.value,
                since: window_start(now),
            },
            Flow::CountingFailures(form),
            Reply::Failures(count),
            world,
            step2,
            draws,
            expires_in,
        );
    }
    assert(end_of(world, step2, draws, expires_in) == end_of(world, step3, draws, expires_in)) by {
        lemma_step(
            world,
            Query::FindUserByIdentifier { kind: form.kind, value: form.value },
            Flow::FindingLogin(form),
            Reply::User(found),
            world,
            step3,
            draws,
            expires_in,
        );
    }
    assert(end_of(world, step3, draws, expires_in) == end_of(world, step4, draws, expires_in)) by {
        lemma_step(
            world,
            Query::VerifyPassword { password: form.password, hash },
            Flow::CheckingPassword { form, user: found },
            Reply::Verdict((draws.password_right)(form.password@, optional(hash))),
            world,
            step4,
            draws,
            expires_in,
        );
    }
    assert(end_of(world, step4, draws, expires_in) == end_of(noted, then, draws, expires_in)) by {
        lemma_step(
            world,
            Query::RecordLoginAttempt {
                kind: form.kind,
                value: form.value,
                client_ip: form.client_ip,
                success: false,
                reason: Some(reason),
            },
            Flow::RejectingLogin,
            Reply::Done,
            noted,
            then,
            draws,
            expires_in,
        );
    }
    lemma_done(noted, Err(Failure::Unauthorized), draws, expires_in);
    lemma_end_of_run(world, login_step(form), draws, expires_in);
}

/// Every failed login counts towards the throttling of the next ones.
pub proof fn law_failed_login_counts(
    world: World,
    form: LoginForm,
    draws: Draws,
    expires_in: u64,
)
    requires
        world.open is None,
        recent_failures(world, form) < LOGIN_FAILURE_LIMIT,
        !is_password_right(world, form, draws),
    ensures
        recent_failures(run(world, login_step(form), draws, expires_in).1, form)
            == recent_failures(world, form) + 1,
{
    law_bad_credentials_are_answered_alike(world, form, draws, expires_in);
    let after = run(world, login_step(form), draws, expires_in).1;
    assert(after.committed.attempts.drop_last() =~= world.committed.attempts);
}

/// A user with a second factor gets no token for the password alone, and nothing is
/// written.
pub proof fn law_second_factor_is_required(
    world: World,
    form: LoginForm,
    draws: Draws,
    expires_in: u64,
)
    requires
        world.open is None,
        recent_failures(world, form) < LOGIN_FAILURE_LIMIT,
        user_of(world, form) matches Some(user) && user.totp_enabled,
        is_password_right(world, form, draws),
    ensures
        run(world, login_step(form), draws, expires_in) == (
            Ok::<_, Failure>(Success::Requires2fa),
            world,
        ),
{
    let now = world.now;
    let count = bounded(recent_failures(world, form));
    let found = user_of(world, form);
    let user = found->0;
    let step0 = Step::Ask(Query::CurrentTime, Flow::TimingLogin(form));
    let step1 = Step::Ask(
        Query::CountFailedAttempts { kind: form.kind, value: form.value, since: window_start(now) },
        Flow::CountingFailures(form),
    );
    let step2 = Step::Ask(
        Query::FindUserByIdentifier { kind: form.kind, value: form.value },
        Flow::FindingLogin(form),
    );
    let step3 = Step::Ask(
        Query::VerifyPassword { password: form.password, hash: Some(user.password_hash) },
        Flow::CheckingPassword { form, user: Some(user) },
    );
    let then = Step::Done(Ok(Success::Requires2fa));
    assert(end_of(world, step0, draws, expires_in) == end_of(world, step1, draws, expires_in)) by {
        lemma_step(
            world,
            Query::CurrentTime,
            Flow::TimingLogin(form),
            Reply::Time(now),
            world,
            step1,
            draws,
            expires_in,
        );
    }
    assert(end_of(world, step1, draws, expires_in) == end_of(world, step2, draws, expires_in)) by {
        lemma_step(
            world,
            Query::CountFailedAttempts {
                kind: form.kind,
                value: form.value,
                since: window_start(now),
            },
            Flow::CountingFailures(form),
            Reply::Failures(count),
            world,
            step2,
            draws,
            expires_in,
        );
    }
    assert(end_of(world, step2, draws, expires_in) == end_of(world, step3, draws, expires_in)) by {
        lemma_step(
            world,
            Query::FindUserByIdentifier { kind: form.kind, value: form.value },
            Flow::FindingLogin(form),
            Reply::User(found),
            world,
            step3,
            draws,
            expires_in,
        );
    }
    assert(end_of(world, step3, draws, expires_in) == end_of(world, then, draws, expires_in)) by {
        lemma_step(
            world,
            Query::VerifyPassword { password: form.password, hash: Some(user.password_hash) },
            Flow::CheckingPassword { form, user: Some(user) },
            Reply::Verdict(true),
            world,
            then,
            draws,
            expires_in,
        );
    }
    lemma_done(world, Ok(Success::Requires2fa), draws, expires_in);
    lemma_end_of_run(world, login_step(form), draws, expires_in);
}

/// The token that opens a session.
pub open spec fn session_row(
    user: UserRow,
    jkt: String,
    user_agent: Option<String>,
    draws: Draws,
    now: i64,
) -> RefreshTokenRow {
    RefreshTokenRow {
        id: draws.id,
        user_id: user.id,
        token_hash: draws.secret_hash,
        fam: draws.fam,
        dpop_jkt: jkt,
        user_agent,
        expires_at: draws.expiry,
        revoked_at: None,
        created_at: now,
    }
}

/// A session that is not in place of a rotated token draws a secret, a family and an expiry,
/// and comes to the step after its token is stored.
proof fn lemma_session_is_stored(
    world: World,
    issue: Issue,
    then: Step,
    draws: Draws,
    expires_in: u64,
)
    requires
        !(issue.purpose is Rotate),
        next(Flow::StoringToken { issue, secret: draws.secret }, Reply::Done, expires_in) == then,
    ensures
        end_of(
            world,
            Step::Ask(Query::NewSecret, Flow::DrawingSecret(issue)),
            draws,
            expires_in,
        ) == end_of(
            changed(
                world,
                with_token(
                    seen(world),
                    session_row(issue.user, issue.jkt, issue.user_agent, draws, world.now),
                ),
            ),
            then,
            draws,
            expires_in,
        ),
{
    let (secret, hash, fam) = (draws.secret, draws.secret_hash, draws.fam);
    let params = CreateRefreshTokenParams {
        user_id: issue.user.id,
        token_hash: hash,
        fam,
        dpop_jkt: issue.jkt,
        user_agent: issue.user_agent,
        expires_at: draws.expiry,
    };
    let stored = changed(world, with_token(seen(world), token_row(params, draws.id, world.now)));
    let step0 = Step::Ask(Query::NewSecret, Flow::DrawingSecret(issue));
    let step1 = Step::Ask(Query::NewFamily, Flow::DrawingFamily { issue, secret, hash });
    let step2 = Step::Ask(Query::RefreshExpiry, Flow::DrawingExpiry { issue, secret, hash, fam });
    let step3 = Step::Ask(Query::CreateRefreshToken(params), Flow::StoringToken { issue, secret });
    assert(end_of(world, step0, draws, expires_in) == end_of(world, step1, draws, expires_in)) by {
        lemma_step(
            world,
            Query::NewSecret,
            Flow::DrawingSecret(issue),
            Reply::Secret { secret, hash },
            world,
            step1,
            draws,
            expires_in,
        );
    }
    assert(end_of(world, step1, draws, expires_in) == end_of(world, step2, draws, expires_in)) by {
        lemma_step(
            world,
            Query::NewFamily,
            Flow::DrawingFamily { issue, secret, hash },
            Reply::Family(fam),
            world,
            step2,
            draws,
            expires_in,
        );
    }
    assert(end_of(world, step2, draws, expires_in) == end_of(world, step3, draws, expires_in)) by {
        lemma_step(
            world,
            Query::RefreshExpiry,
            Flow::DrawingExpiry { issue, secret, hash, fam },
            Reply::Expiry(draws.expiry),
            world,
            step3,
            draws,
            expires_in,
        );
    }
    assert(end_of(world, step3, draws, expires_in) == end_of(stored, then, draws, expires_in)) by {
        lemma_step(
            world,
            Query::CreateRefreshToken(params),
            Flow::StoringToken { issue, secret },
            Reply::Done,
            stored,
            then,
            draws,
            expires_in,
        );
    }
}

/// The right password of a user without a second factor opens a session, unless logins are
/// throttled: one active token of a new family, bound to the key of the client, is stored
/// by its hash, the success is entered into the audit log, and the pair is handed out.
pub proof fn law_login_opens_a_session(
    world: World,
    form: LoginForm,
    user: UserRow,
    draws: Draws,
    expires_in: u64,
)
    requires
        world.open is None,
        recent_failures(world, form) < LOGIN_FAILURE_LIMIT,
        user_of(world, form) == Some(user),
        !user.totp_enabled,
        (draws.password_right)(form.password@, Some(user.password_hash@)),
    ensures
        ({
            let (result, after) = run(world, login_step(form), draws, expires_in);
            &&& result == Ok::<_, Failure>(
                Success::Tokens(issued_pair(draws, user, form.jkt@, expires_in)),
            )
            &&& after.committed.tokens == world.committed.tokens.push(
                session_row(user, form.jkt, form.user_agent, draws, world.now),
            )
            &&& after.committed.codes == world.committed.codes
            &&& after.committed.identifiers == world.committed.identifiers
            &&& after.committed.attempts == world.committed.attempts.push(
                login_attempt(form, true, None, world.now),
            )
            &&& world.committed.users.dom().contains(user.id) && world.committed.users[user.id]
                == user ==> after.committed.users == world.committed.users.insert(
                user.id,
                UserRow { last_login_at: Some(world.now), ..user },
            )
            &&& after.open is None
        }),
{
    let now = world.now;
    let count = bounded(recent_failures(world, form));
    let stamped = perform(world, Query::UpdateLastLogin { user_id: user.id }, draws).1;
    let noted = audited(stamped, login_attempt(form, true, None, now));
    let issue = Issue {
        user,
        jkt: form.jkt,
        user_agent: form.user_agent,
        purpose: Purpose::Login,
    };
    let pair = issued_pair(draws, user, form.jkt@, expires_in);
    let row = session_row(user, form.jkt, form.user_agent, draws, now);
    let opened = World { committed: with_token(noted.committed, row), ..noted };
    assert(stamped.open is None && stamped.now == now);
    let step0 = Step::Ask(Query::CurrentTime, Flow::TimingLogin(form));
    let step1 = Step::Ask(
        Query::CountFailedAttempts { kind: form.kind, value: form.value, since: window_start(now) },
        Flow::CountingFailures(form),
    );
    let step2 = Step::Ask(
        Query::FindUserByIdentifier { kind: form.kind, value: form.value },
        Flow::FindingLogin(form),
    );
    let step3 = Step::Ask(
        Query::VerifyPassword { password: form.password, hash: Some(user.password_hash) },
        Flow::CheckingPassword { form, user: Some(user) },
    );
    let step4 = Step::Ask(
        Query::UpdateLastLogin { user_id: user.id },
        Flow::StampingLogin { form, user },
    );
    let step5 = Step::Ask(
        Query::RecordLoginAttempt {
            kind: form.kind,
            value: form.value,
            client_ip: form.client_ip,
            success: true,
            reason: None,
        },
        Flow::AuditingLogin { form, user },
    );
    let drawing = Step::Ask(Query::NewSecret, Flow::DrawingSecret(issue));
    assert(end_of(world, step0, draws, expires_in) == end_of(world, step1, draws, expires_in)) by {
        lemma_step(
            world,
            Query::CurrentTime,
            Flow::TimingLogin(form),
            Reply::Time(now),
            world,
            step1,
            draws,
            expires_in,
        );
    }
    assert(end_of(world, step1, draws, expires_in) == end_of(world, step2, draws, expires_in)) by {
        lemma_step(
            world,
            Query::CountFailedAttempts {
                kind: form.kind,
                value: form.value,
                since: window_start(now),
            },
            Flow::CountingFailures(form),
            Reply::Failures(count),
            world,
            step2,
            draws,
            expires_in,
        );
    }
    assert(end_of(world, step2, draws, expires_in) == end_of(world, step3, draws, expires_in)) by {
        lemma_step(
            world,
            Query::FindUserByIdentifier { kind: form.kind, value: form.value },
            Flow::FindingLogin(form),
            Reply::User(Some(user)),
            world,
            step3,
            draws,
            expires_in,
        );
    }
    assert(end_of(world, step3, draws, expires_in) == end_of(world, step4, draws, expires_in)) by {
        lemma_step(
            world,
            Query::VerifyPassword { password: form.password, hash: Some(user.password_hash) },
            Flow::CheckingPassword { form, user: Some(user) },
            Reply::Verdict(true),
            world,
            step4,
            draws,
            expires_in,
        );
    }
    assert(end_of(world, step4, draws, expires_in) == end_of(stamped, step5, draws, expires_in))
        by {
        lemma_step(
            world,
            Query::UpdateLastLogin { user_id: user.id },
            Flow::StampingLogin { form, user },
            Reply::Done,
            stamped,
            step5,
            draws,
            expires_in,
        );
    }
    assert(end_of(stamped, step5, draws, expires_in) == end_of(noted, drawing, draws, expires_in))
        by {
        lemma_step(
            stamped,
            Query::RecordLoginAttempt {
                kind: form.kind,
                value: form.value,
                client_ip: form.client_ip,
                success: true,
                reason: None,
            },
            Flow::AuditingLogin { form, user },
            Reply::Done,
            noted,
            drawing,
            draws,
            expires_in,
        );
    }
    let signing = Query::SignAccess { subject: user.public_id, name: user.name, jkt: form.jkt };
    let asking = Step::Ask(signing, Flow::SigningAccess { issue, secret: draws.secret });
    assert(end_of(noted, drawing, draws, expires_in) == end_of(opened, asking, draws, expires_in))
        by {
        lemma_session_is_stored(noted, issue, asking, draws, expires_in);
    }
    let end = Step::Done(Ok(Success::Tokens(pair)));
    assert(end_of(opened, asking, draws, expires_in) == end_of(opened, end, draws, expires_in)) by {
        lemma_step(
            opened,
            signing,
            Flow::SigningAccess { issue, secret: draws.secret },
            Reply::Access(pair.access_token),
            opened,
            end,
            draws,
            expires_in,
        );
    }
    lemma_done(opened, Ok(Success::Tokens(pair)), draws, expires_in);
    lemma_end_of_run(world, login_step(form), draws, expires_in);
}

/// The first step of a registration that is allowed.
pub open spec fn register_step(form: RegisterForm, password: String) -> Step {
    Step::Ask(Query::HashPassword { password }, Flow::HashingPassword(form))
}

/// A registration under a taken identifier is refused, and leaves nothing behind: the user
/// that was inserted first is rolled back.
pub proof fn law_taken_identifier_leaves_nothing_behind(
    world: World,
    form: RegisterForm,
    password: String,
    draws: Draws,
    expires_in: u64,
)
    requires
        world.open is None,
        is_taken(world.committed, form.kind@, form.value@),
    ensures
        run(world, register_step(form, password), draws, expires_in) == (
            Err::<Success, _>(Failure::AlreadyRegistered { kind: form.kind }),
            world,
        ),
{
    let tables = Tables {
        users: world.committed.users.insert(
            draws.user.id,
            UserRow {
                name: form.name,
                password_hash: (draws.password_hash)(password@),
                ..draws.user
            },
        ),
        ..world.committed
    };
    let i = choose|i: int|
        is_identifier(world.committed, i, form.kind@, form.value@);
    assert(is_identifier(tables, i, form.kind@, form.value@));
    assert(is_taken(tables, form.kind@, form.value@));
    let password_hash = (draws.password_hash)(password@);
    let user = UserRow { name: form.name, password_hash, ..draws.user };
    let begun = World { open: Some(world.committed), ..world };
    let created = World { open: Some(tables), ..world };
    let refused = Err(Failure::AlreadyRegistered { kind: form.kind });
    let step0 = Step::Ask(Query::HashPassword { password }, Flow::HashingPassword(form));
    let step1 = Step::Ask(Query::Begin, Flow::BeginningRegistration { form, password_hash });
    let step2 = Step::Ask(
        Query::CreateUser { name: form.name, password_hash },
        Flow::CreatingUser(form),
    );
    let step3 = Step::Ask(
        Query::CreateIdentifier { user_id: user.id, kind: form.kind, value: form.value },
        Flow::CreatingIdentifier { form, user },
    );
    let then = Step::Done(refused);
    assert(end_of(world, step0, draws, expires_in) == end_of(world, step1, draws, expires_in)) by {
        lemma_step(
            world,
            Query::HashPassword { password },
            Flow::HashingPassword(form),
            Reply::Hash(password_hash),
            world,
            step1,
            draws,
            expires_in,
        );
    }
    assert(end_of(world, step1, draws, expires_in) == end_of(begun, step2, draws, expires_in)) by {
        lemma_step(
            world,
            Query::Begin,
            Flow::BeginningRegistration { form, password_hash },
            Reply::Done,
            begun,
            step2,
            draws,
            expires_in,
        );
    }
    assert(end_of(begun, step2, draws, expires_in) == end_of(created, step3, draws, expires_in))
        by {
        lemma_step(
            begun,
            Query::CreateUser { name: form.name, password_hash },
            Flow::CreatingUser(form),
            Reply::User(Some(user)),
            created,
            step3,
            draws,
            expires_in,
        );
    }
    assert(end_of(created, step3, draws, expires_in) == end_of(created, then, draws, expires_in))
        by {
        lemma_step(
            created,
            Query::CreateIdentifier { user_id: user.id, kind: form.kind, value: form.value },
            Flow::CreatingIdentifier { form, user },
            Reply::Taken { message: draws.message },
            created,
            then,
            draws,
            expires_in,
        );
    }
    lemma_done(created, refused, draws, expires_in);
    lemma_end_of_run(world, register_step(form, password), draws, expires_in);
}

/// A registration under a free identifier stores the user, the identifier, one active token
/// and the audit entry together, and hands out the pair.
pub proof fn law_registration_stores_user_and_session(
    world: World,
    form: RegisterForm,
    password: String,
    draws: Draws,
    expires_in: u64,
)
    requires
        world.open is None,
        !is_taken(world.committed, form.kind@, form.value@),
    ensures
        ({
            let user = UserRow {
                name: form.name,
                password_hash: (draws.password_hash)(password@),
                ..draws.user
            };
            let (result, after) = run(world, register_step(form, password), draws, expires_in);
            &&& result == Ok::<_, Failure>(
                Success::Tokens(issued_pair(draws, user, form.jkt@, expires_in)),
            )
            &&& after.committed.users == world.committed.users.insert(
                user.id,
                UserRow { last_login_at: Some(world.now), ..user },
            )
            &&& after.committed.identifiers == world.committed.identifiers.push(
                Identifier { kind: form.kind@, value: form.value@, user_id: user.id },
            )
            &&& after.committed.tokens == world.committed.tokens.push(
                session_row(user, form.jkt, form.user_agent, draws, world.now),
            )
            &&& after.committed.codes == world.committed.codes
            &&& after.committed.attempts == world.committed.attempts.push(
                Attempt {
                    kind: form.kind@,
                    value: form.value@,
                    client_ip: form.client_ip@,
                    success: true,
                    reason: None,
                    at: world.now,
                },
            )
            &&& after.open is None
        }),
{
    let user = UserRow {
        name: form.name,
        password_hash: (draws.password_hash)(password@),
        ..draws.user
    };
    let tables = Tables { users: world.committed.users.insert(user.id, user), ..world.committed };
    if is_taken(tables, form.kind@, form.value@) {
        let i = choose|i: int|
            is_identifier(tables, i, form.kind@, form.value@);
        assert(is_identifier(world.committed, i, form.kind@, form.value@));
    }
    let stamped = UserRow { last_login_at: Some(world.now), ..user };
    assert(world.committed.users.insert(user.id, user).insert(user.id, stamped)
        =~= world.committed.users.insert(user.id, stamped));
    let now = world.now;
    let begun = World { open: Some(world.committed), ..world };
    let created = World { open: Some(tables), ..world };
    let named = Tables {
        identifiers: tables.identifiers.push(
            Identifier { kind: form.kind@, value: form.value@, user_id: user.id },
        ),
        ..tables
    };
    let identified = World { open: Some(named), ..world };
    let seen_in = Tables { users: named.users.insert(user.id, stamped), ..named };
    let logged = World { open: Some(seen_in), ..world };
    let row = session_row(user, form.jkt, form.user_agent, draws, now);
    let held = with_token(seen_in, row);
    let stored = World { open: Some(held), ..world };
    let attempt = Attempt {
        kind: form.kind@,
        value: form.value@,
        client_ip: form.client_ip@,
        success: true,
        reason: None,
        at: now,
    };
    let noted = Tables { attempts: held.attempts.push(attempt), ..held };
    let audited = World { open: Some(noted), ..world };
    let done = World { committed: noted, ..world };
    let password_hash = (draws.password_hash)(password@);
    let issue = Issue {
        user,
        jkt: form.jkt,
        user_agent: form.user_agent,
        purpose: Purpose::Register {
            kind: form.kind,
            value: form.value,
            client_ip: form.client_ip,
        },
    };
    let secret = draws.secret;
    let pair = issued_pair(draws, user, form.jkt@, expires_in);
    let step0 = Step::Ask(Query::HashPassword { password }, Flow::HashingPassword(form));
    let step1 = Step::Ask(Query::Begin, Flow::BeginningRegistration { form, password_hash });
    let step2 = Step::Ask(
        Query::CreateUser { name: form.name, password_hash },
        Flow::CreatingUser(form),
    );
    let step3 = Step::Ask(
        Query::CreateIdentifier { user_id: user.id, kind: form.kind, value: form.value },
        Flow::CreatingIdentifier { form, user },
    );
    let step4 = Step::Ask(
        Query::UpdateLastLogin { user_id: user.id },
        Flow::StampingRegistration { form, user },
    );
    let drawing = Step::Ask(Query::NewSecret, Flow::DrawingSecret(issue));
    assert(end_of(world, step0, draws, expires_in) == end_of(world, step1, draws, expires_in)) by {
        lemma_step(
            world,
            Query::HashPassword { password },
            Flow::HashingPassword(form),
            Reply::Hash(password_hash),
            world,
            step1,
            draws,
            expires_in,
        );
    }
    assert(end_of(world, step1, draws, expires_in) == end_of(begun, step2, draws, expires_in)) by {
        lemma_step(
            world,
            Query::Begin,
            Flow::BeginningRegistration { form, password_hash },
            Reply::Done,
            begun,
            step2,
            draws,
            expires_in,
        );
    }
    assert(end_of(begun, step2, draws, expires_in) == end_of(created, step3, draws, expires_in))
        by {
        lemma_step(
            begun,
            Query::CreateUser { name: form.name, password_hash },
            Flow::CreatingUser(form),
            Reply::User(Some(user)),
            created,
            step3,
            draws,
            expires_in,
        );
    }
    assert(end_of(created, step3, draws, expires_in) == end_of(
        identified,
        step4,
        draws,
        expires_in,
    )) by {
        lemma_step(
            created,
            Query::CreateIdentifier { user_id: user.id, kind: form.kind, value: form.value },
            Flow::CreatingIdentifier { form, user },
            Reply::Done,
            identified,
            step4,
            draws,
            expires_in,
        );
    }
    assert(end_of(identified, step4, draws, expires_in) == end_of(
        logged,
        drawing,
        draws,
        expires_in,
    )) by {
        lemma_step(
            identified,
            Query::UpdateLastLogin { user_id: user.id },
            Flow::StampingRegistration { form, user },
            Reply::Done,
            logged,
            drawing,
            draws,
            expires_in,
        );
    }
    let auditing = Query::RecordLoginAttempt {
        kind: form.kind,
        value: form.value,
        client_ip: form.client_ip,
        success: true,
        reason: None,
    };
    let noting = Step::Ask(auditing, Flow::AuditingRegistration { issue, secret });
    assert(end_of(logged, drawing, draws, expires_in) == end_of(stored, noting, draws, expires_in))
        by {
        lemma_session_is_stored(logged, issue, noting, draws, expires_in);
    }
    let signing = Query::SignAccess { subject: user.public_id, name: user.name, jkt: form.jkt };
    let step5 = Step::Ask(auditing, Flow::AuditingRegistration { issue, secret });
    let step6 = Step::Ask(Query::Commit, Flow::CommittingRegistration { issue, secret });
    let step7 = Step::Ask(signing, Flow::SigningAccess { issue, secret });
    let then = Step::Done(Ok(Success::Tokens(pair)));
    assert(end_of(stored, step5, draws, expires_in) == end_of(audited, step6, draws, expires_in))
        by {
        lemma_step(
            stored,
            auditing,
            Flow::AuditingRegistration { issue, secret },
            Reply::Done,
            audited,
            step6,
            draws,
            expires_in,
        );
    }
    assert(end_of(audited, step6, draws, expires_in) == end_of(done, step7, draws, expires_in)) by {
        lemma_step(
            audited,
            Query::Commit,
            Flow::CommittingRegistration { issue, secret },
            Reply::Done,
            done,
            step7,
            draws,
            expires_in,
        );
    }
    assert(end_of(done, step7, draws, expires_in) == end_of(done, then, draws, expires_in)) by {
        lemma_step(
            done,
            signing,
            Flow::SigningAccess { issue, secret },
            Reply::Access(pair.access_token),
            done,
            then,
            draws,
            expires_in,
        );
    }
    lemma_done(done, Ok(Success::Tokens(pair)), draws, expires_in);
    lemma_end_of_run(world, register_step(form, password), draws, expires_in);
}

} // verus!
