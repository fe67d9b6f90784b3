//! What holds of the operations from the call to the end: what is given to a user of the
//! service, and what the store holds after it.

use vstd::prelude::*;

use crate::crypto::entropy::lowercase;
use crate::crypto::{hex, sha256};
use crate::service::auth::{AuthService, RegisterParams};
use crate::service::flow::{Failure, Flow, Query, Step, Success};
use crate::service::grace::ReplacementTokens;
use crate::service::laws::{
    law_bad_credentials_are_answered_alike, law_login_opens_a_session,
    law_logout_revokes_the_token, law_registration_stores_user_and_session,
    law_second_factor_is_required, law_taken_identifier_leaves_nothing_behind,
    law_throttled_login_is_refused, login_step, logout_step, register_step,
};
use crate::service::world::{
    active_user, failures_since, hashes_differ, identified_user, is_active_token, is_taken,
    is_token, law_expired_or_foreign_token_stays_intact, law_grace_is_for_the_holder_of_the_key,
    law_grace_returns_the_same_replacement, law_refresh_rotates, law_reuse_revokes_the_family,
    law_token_without_an_owner_stays_intact, law_unknown_token_is_refused, refresh_step, run,
    Draws, World,
};
use crate::store::models::{RefreshTokenRow, UserRow};
use crate::text::bytes_of;

verus! {

/// Whether a pair was issued to a user with a key: the access token is the one for the
/// public identifier and the name of the user that is bound to the key, and the refresh
/// token is the drawn secret.
pub open spec fn is_pair_of(
    tokens: ReplacementTokens,
    user: UserRow,
    jkt: Seq<char>,
    draws: Draws,
    expires_in: u64,
) -> bool {
    &&& tokens.access_token == (draws.access)(user.public_id, user.name@, jkt)
    &&& tokens.refresh_token == draws.secret
    &&& tokens.expires_in == expires_in
}

/// Whether a row is an active token of a user that is bound to a key, stored by the hash of
/// the drawn secret.
pub open spec fn is_session_row(
    row: RefreshTokenRow,
    user: UserRow,
    jkt: Seq<char>,
    user_agent: Option<String>,
    draws: Draws,
    now: i64,
) -> bool {
    &&& row.user_id == user.id
    &&& row.token_hash == draws.secret_hash
    &&& row.dpop_jkt@ == jkt
    &&& row.user_agent == user_agent
    &&& row.revoked_at is None
    &&& row.created_at == now
}

/// What a login comes to. Ten failures under the identifier in the last 15 minutes refuse
/// it, whatever the password is, and nothing changes. An unknown identifier and a wrong
/// password are answered alike, and the failure is entered into the audit log. A user with
/// a second factor is asked for it, and gets no token. Any other gets an access token with
/// the public identifier and the name of that user, bound to the key of the request, and a
/// refresh token of a new family that is stored for the user, bound to the same key, with
/// the drawn expiry; the success is entered into the audit log.
pub proof fn law_login_from_call_to_end(
    service: &AuthService,
    kind: &str,
    value: &str,
    password: &str,
    jkt: &str,
    client_ip: &str,
    user_agent: Option<String>,
    step: Step,
    world: World,
    draws: Draws,
    expires_in: u64,
)
    requires
        call_ensures(
            AuthService::login,
            (service, kind, value, password, jkt, client_ip, user_agent),
            step,
        ),
        world.open is None,
        world.now >= i64::MIN + 900_000_000,
    ensures
        ({
            let (result, after) = run(world, step, draws, expires_in);
            let name = lowercase(value@);
            let failures = failures_since(
                world.committed.attempts,
                kind@,
                name,
                (world.now - 900_000_000) as i64,
            );
            let found = identified_user(world.committed, kind@, name);
            let right = found matches Some(user) && (draws.password_right)(
                password@,
                Some(user.password_hash@),
            );
            let entry = after.committed.attempts.last();
            &&& failures >= 10 ==> result == Err::<Success, _>(Failure::Unauthorized) && after
                == world
            &&& failures < 10 && !right ==> {
                &&& result == Err::<Success, _>(Failure::Unauthorized)
                &&& after.committed.attempts.drop_last() == world.committed.attempts
                &&& entry.kind == kind@ && entry.value == name && entry.client_ip == client_ip@
                &&& !entry.success && entry.at == world.now
                &&& entry.reason == Some(
                    if found is None {
                        "user_not_found"
                    } else {
                        "wrong_password"
                    },
                )
                &&& after.committed.users == world.committed.users
                &&& after.committed.tokens == world.committed.tokens
            }
            &&& failures < 10 && right && found->0.totp_enabled ==> result == Ok::<_, Failure>(
                Success::Requires2fa,
            ) && after == world
            &&& failures < 10 && right && !found->0.totp_enabled ==> {
                let row = after.committed.tokens.last();
                &&& result matches Ok(Success::Tokens(tokens))
                &&& is_pair_of(tokens, found->0, jkt@, draws, expires_in)
                &&& after.committed.tokens.drop_last() == world.committed.tokens
                &&& is_session_row(row, found->0, jkt@, user_agent, draws, world.now)
                &&& row.fam == draws.fam
                &&& row.expires_at == draws.expiry
                &&& after.committed.attempts.drop_last() == world.committed.attempts
                &&& entry.kind == kind@ && entry.value == name && entry.client_ip == client_ip@
                &&& entry.success && entry.reason is None && entry.at == world.now
                &&& world.committed.users.dom().contains(found->0.id)
                    && world.committed.users[found->0.id] == found->0
                    ==> after.committed.users == world.committed.users.insert(
                    found->0.id,
                    UserRow { last_login_at: Some(world.now), ..found->0 },
                )
            }
        }),
{
    if let Step::Ask(_, Flow::TimingLogin(form)) = step {
        assert(step == login_step(form));
        let found = identified_user(world.committed, form.kind@, form.value@);
        let failures = failures_since(
            world.committed.attempts,
            form.kind@,
            form.value@,
            (world.now - 900_000_000) as i64,
        );
        let (result, after) = run(world, step, draws, expires_in);
        if failures >= 10 {
            law_throttled_login_is_refused(world, form, draws, expires_in);
        } else if !(found matches Some(user) && (draws.password_right)(
            password@,
            Some(user.password_hash@),
        )) {
            law_bad_credentials_are_answered_alike(world, form, draws, expires_in);
            assert(after.committed.attempts.drop_last() =~= world.committed.attempts);
        } else if found->0.totp_enabled {
            law_second_factor_is_required(world, form, draws, expires_in);
        } else {
            law_login_opens_a_session(world, form, found->0, draws, expires_in);
            assert(after.committed.attempts.drop_last() =~= world.committed.attempts);
            assert(after.committed.tokens.drop_last() =~= world.committed.tokens);
        }
    }
}

/// What a registration comes to. Where it is not allowed it is refused before anything is
/// asked. A taken identifier refuses it and leaves nothing behind. Otherwise a user with the
/// name and the hash of the password is stored, the identifier leads to that user, in lower
/// case, and the user gets an access token with the public identifier and the name of that
/// user, bound to the key of the request, and a refresh token of a new family that is stored
/// for the user, bound to the same key; the success is entered into the audit log.
pub proof fn law_registration_from_call_to_end(
    service: &AuthService,
    params: RegisterParams<'_>,
    step: Step,
    world: World,
    draws: Draws,
    expires_in: u64,
)
    requires
        call_ensures(AuthService::register, (service, params), step),
        world.open is None,
    ensures
        ({
            let (result, after) = run(world, step, draws, expires_in);
            let name = lowercase(params.value@);
            let taken = is_taken(world.committed, params.kind@, name);
            let entry = after.committed.attempts.last();
            let identifier = after.committed.identifiers.last();
            let row = after.committed.tokens.last();
            &&& !service@.config.allow_registration ==> result == Err::<Success, _>(
                Failure::RegistrationDisabled,
            ) && after == world
            &&& service@.config.allow_registration && taken ==> {
                &&& result matches Err(Failure::AlreadyRegistered { kind })
                &&& kind@ == params.kind@
                &&& after == world
            }
            &&& service@.config.allow_registration && !taken ==> {
                &&& after.committed.users.dom().contains(draws.user.id)
                &&& after.committed.users.remove(draws.user.id) == world.committed.users.remove(
                    draws.user.id,
                )
                &&& result matches Ok(Success::Tokens(tokens))
                &&& is_new_user(
                    after.committed.users[draws.user.id],
                    params.name@,
                    params.password@,
                    draws,
                    world.now,
                )
                &&& is_pair_of(
                    tokens,
                    after.committed.users[draws.user.id],
                    params.jkt@,
                    draws,
                    expires_in,
                )
                &&& after.committed.identifiers.drop_last() == world.committed.identifiers
                &&& identifier.kind == params.kind@ && identifier.value == name
                    && identifier.user_id == draws.user.id
                &&& after.committed.tokens.drop_last() == world.committed.tokens
                &&& is_session_row(
                    row,
                    after.committed.users[draws.user.id],
                    params.jkt@,
                    params.user_agent,
                    draws,
                    world.now,
                )
                &&& row.fam == draws.fam
                &&& row.expires_at == draws.expiry
                &&& after.committed.attempts.drop_last() == world.committed.attempts
                &&& entry.kind == params.kind@ && entry.value == name && entry.client_ip
                    == params.client_ip@
                &&& entry.success && entry.reason is None && entry.at == world.now
            }
        }),
{
    let (result, after) = run(world, step, draws, expires_in);
    match step {
        Step::Ask(Query::HashPassword { password }, Flow::HashingPassword(form)) => {
            assert(step == register_step(form, password));
            if is_taken(world.committed, form.kind@, form.value@) {
                law_taken_identifier_leaves_nothing_behind(
                    world,
                    form,
                    password,
                    draws,
                    expires_in,
                );
            } else {
                law_registration_stores_user_and_session(
                    world,
                    form,
                    password,
                    draws,
                    expires_in,
                );
                assert(after.committed.attempts.drop_last() =~= world.committed.attempts);
                assert(after.committed.tokens.drop_last() =~= world.committed.tokens);
                assert(after.committed.identifiers.drop_last() =~= world.committed.identifiers);
                assert(after.committed.users.remove(draws.user.id)
                    =~= world.committed.users.remove(draws.user.id));
            }
        },
        _ => {},
    }
}

/// Whether a user is a new one with the name and the hash of the password, as the store
/// fills in the rest, who logged in now.
pub open spec fn is_new_user(
    user: UserRow,
    name: Seq<char>,
    password: Seq<char>,
    draws: Draws,
    now: i64,
) -> bool {
    &&& user.id == draws.user.id
    &&& user.public_id == draws.user.public_id
    &&& user.name@ == name
    &&& user.password_hash == (draws.password_hash)(password)
    &&& user.last_login_at == Some(now)
    &&& user.totp_enabled == draws.user.totp_enabled
    &&& user.totp_secret == draws.user.totp_secret
    &&& user.deleted_at == draws.user.deleted_at
}

/// The hash under which a refresh token is stored.
pub open spec fn stored_hash(refresh_token: Seq<char>) -> Seq<char> {
    hex(sha256(bytes_of(refresh_token)))
}

/// What a refresh comes to with a token that is active. Where it is not expired, is
/// presented with the key that it is bound to, and its owner is not deleted, it is revoked,
/// and the owner gets an access token with the public identifier and the name of the owner,
/// bound to the key of the request, and a refresh token of the same family with the same
/// expiry, bound to the same key, which the grace cache remembers. Else the request is
/// refused, and nothing changes.
pub proof fn law_refresh_of_an_active_token_from_call_to_end(
    service: &AuthService,
    refresh_token: &str,
    jkt: &str,
    user_agent: Option<String>,
    step: Step,
    world: World,
    i: int,
    draws: Draws,
    expires_in: u64,
)
    requires
        call_ensures(AuthService::refresh, (service, refresh_token, jkt, user_agent), step),
        world.open is None,
        hashes_differ(world.committed.tokens),
        0 <= i < world.committed.tokens.len(),
        world.committed.tokens[i].token_hash@ == stored_hash(refresh_token@),
        world.committed.tokens[i].revoked_at is None,
    ensures
        ({
            let (result, after) = run(world, step, draws, expires_in);
            let old = world.committed.tokens[i];
            let owner = active_user(world.committed, old.user_id);
            let good = old.expires_at > world.now && old.dpop_jkt@ == jkt@ && owner is Some;
            let row = after.committed.tokens.last();
            &&& !good ==> result == Err::<Success, _>(Failure::Unauthorized) && after == world
            &&& good ==> {
                &&& result matches Ok(Success::Tokens(tokens))
                &&& is_pair_of(tokens, owner->0, jkt@, draws, expires_in)
                &&& after.committed.tokens.len() == world.committed.tokens.len() + 1
                &&& after.committed.tokens[i].revoked_at == Some(world.now)
                &&& after.committed.tokens[i].token_hash@ == stored_hash(refresh_token@)
                &&& forall|k: int|
                    0 <= k < world.committed.tokens.len() && k != i ==> (
                    #[trigger] after.committed.tokens[k]) == world.committed.tokens[k]
                &&& is_session_row(row, owner->0, jkt@, user_agent, draws, world.now)
                &&& row.fam == old.fam
                &&& row.expires_at == old.expires_at
                &&& after.grace.dom().contains((old.fam, stored_hash(refresh_token@)))
                &&& after.grace[(old.fam, stored_hash(refresh_token@))] == tokens
                &&& after.committed.users == world.committed.users
                &&& after.committed.codes == world.committed.codes
                &&& after.committed.attempts == world.committed.attempts
            }
        }),
{
    if let Step::Ask(_, Flow::BeginningRefresh(form)) = step {
        assert(step == refresh_step(form));
        assert(is_active_token(world.committed.tokens, i, form.token_hash@));
        let old = world.committed.tokens[i];
        if old.expires_at <= world.now || old.dpop_jkt@ != form.jkt@ {
            law_expired_or_foreign_token_stays_intact(world, form, i, draws, expires_in);
        } else if active_user(world.committed, old.user_id) is None {
            law_token_without_an_owner_stays_intact(world, form, i, draws, expires_in);
        } else {
            law_refresh_rotates(world, form, i, draws, expires_in);
        }
    }
}

/// What a refresh comes to with a token that is revoked or unknown. In the grace period of a
/// rotation, with the key that the token is bound to, it gets the remembered pair again, and
/// with another key it is refused; nothing changes. After it the whole family is revoked,
/// and no other token. An unknown token is refused, and nothing changes.
pub proof fn law_refresh_of_a_used_token_from_call_to_end(
    service: &AuthService,
    refresh_token: &str,
    jkt: &str,
    user_agent: Option<String>,
    step: Step,
    world: World,
    i: int,
    draws: Draws,
    expires_in: u64,
)
    requires
        call_ensures(AuthService::refresh, (service, refresh_token, jkt, user_agent), step),
        world.open is None,
        hashes_differ(world.committed.tokens),
    ensures
        ({
            let (result, after) = run(world, step, draws, expires_in);
            let hash = stored_hash(refresh_token@);
            let old = world.committed.tokens[i];
            let used = 0 <= i < world.committed.tokens.len() && old.token_hash@ == hash
                && old.revoked_at is Some;
            let kept = world.grace.dom().contains((old.fam, hash));
            &&& (forall|k: int|
                0 <= k < world.committed.tokens.len() ==> (
                #[trigger] world.committed.tokens[k]).token_hash@ != hash) ==> result == Err::<
                Success,
                _,
            >(Failure::Unauthorized) && after == world
            &&& used && kept && old.dpop_jkt@ == jkt@ ==> result == Ok::<_, Failure>(
                Success::Tokens(world.grace[(old.fam, hash)]),
            ) && after == world
            &&& used && kept && old.dpop_jkt@ != jkt@ ==> result == Err::<Success, _>(
                Failure::Unauthorized,
            ) && after == world
            &&& used && !kept ==> {
                &&& result == Err::<Success, _>(Failure::Unauthorized)
                &&& after.committed.tokens.len() == world.committed.tokens.len()
                &&& forall|k: int|
                    0 <= k < world.committed.tokens.len() ==> {
                        let before = world.committed.tokens[k];
                        let row = #[trigger] after.committed.tokens[k];
                        &&& before.fam == old.fam ==> row.revoked_at is Some
                        &&& before.fam != old.fam ==> row == before
                        &&& row.token_hash == before.token_hash && row.fam == before.fam
                    }
                &&& after.committed.users == world.committed.users
            }
        }),
{
    if let Step::Ask(_, Flow::BeginningRefresh(form)) = step {
        assert(step == refresh_step(form));
        let tokens = world.committed.tokens;
        let old = tokens[i];
        let hash = stored_hash(refresh_token@);
        if forall|k: int|
            0 <= k < tokens.len() ==> (#[trigger] tokens[k]).token_hash@ != hash {
            law_unknown_token_is_refused(world, form, draws, expires_in);
        }
        if 0 <= i < tokens.len() && old.token_hash@ == hash && old.revoked_at is Some {
            assert(is_token(tokens, i, form.token_hash@));
            if !world.grace.dom().contains((old.fam, hash)) {
                law_reuse_revokes_the_family(world, form, i, draws, expires_in);
            } else if old.dpop_jkt@ == form.jkt@ {
                law_grace_returns_the_same_replacement(world, form, i, draws, expires_in);
            } else {
                law_grace_is_for_the_holder_of_the_key(world, form, i, draws, expires_in);
            }
        }
    }
}

/// What a logout comes to: the token is revoked, if it is one, and no other is.
pub proof fn law_logout_from_call_to_end(
    service: &AuthService,
    refresh_token: &str,
    step: Step,
    world: World,
    draws: Draws,
    expires_in: u64,
)
    requires
        call_ensures(AuthService::logout, (service, refresh_token), step),
        world.open is None,
    ensures
        ({
            let (result, after) = run(world, step, draws, expires_in);
            &&& result == Ok::<_, Failure>(Success::LoggedOut)
            &&& after.committed.tokens.len() == world.committed.tokens.len()
            &&& forall|k: int|
                0 <= k < world.committed.tokens.len() ==> {
                    let before = world.committed.tokens[k];
                    let row = #[trigger] after.committed.tokens[k];
                    &&& before.token_hash@ == stored_hash(refresh_token@) ==> row.revoked_at is Some
                    &&& before.token_hash@ != stored_hash(refresh_token@) ==> row == before
                }
            &&& after.committed.users == world.committed.users
            &&& after.grace == world.grace
        }),
{
    if let Step::Ask(Query::RevokeTokenByHash { token_hash }, _) = step {
        assert(step == logout_step(token_hash));
        law_logout_revokes_the_token(world, token_hash, draws, expires_in);
    }
}

} // verus!
