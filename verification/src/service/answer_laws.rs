//! What holds of the queries that the service answers itself: of the tokens that it issues
//! and of the credentials that it judges.

use std::time::Duration;

use vstd::prelude::*;

use crate::cache::is_cache_ttl;
use crate::config::DpopConfig;
use crate::crypto::entropy::{is_uuid_text, lowercase, uuid_text};
use crate::crypto::password::password_check;
use crate::crypto::{base64url, hex, sha256};
use crate::error::DpopErrorView;
use crate::jose::{Algorithm, DecodingKeyView};
use crate::json::string_json;
use crate::service::auth::{
    is_access_reply, is_signed, refresh_expiry, settles, Answer, AuthService, ServiceView, Settled,
    TokenPair,
};
use crate::service::flow::{Failure, Flow, Issue, Query, Reply, Step, Success};
use crate::service::grace::ReplacementTokens;
use crate::store::error::{ServiceError, ServiceErrorView};
use crate::text::{bytes_of, trimmed};
use crate::time::{duration_nanos, duration_secs};
use crate::token::{
    has_no_reserved_name, issued_claims, law_unreserved_extra_is_kept, nbf_is_readable,
    verification, AccessTokenClaimsView,
};
use crate::totp::{base32_bytes, totp_code, totp_fault};

verus! {

/// Whether the claims are those of an access token that the service issues: for the subject
/// and with the name as an extra claim, bound to the key, of its issuer and for its
/// audience, with its lifetime.
pub open spec fn are_claims_for(
    claims: AccessTokenClaimsView,
    service: ServiceView,
    subject: u128,
    name: Seq<char>,
    jkt: Seq<char>,
) -> bool {
    &&& claims.sub == uuid_text(subject)
    &&& claims.jkt == jkt
    &&& claims.extra.dom() == set!["name"@]
    &&& claims.extra["name"@] == string_json(name)
    &&& claims.iss == service.config.issuer
    &&& claims.aud == service.config.audience
    &&& is_uuid_text(claims.jti)
    &&& claims.exp == if claims.iat + duration_secs(service.config.access_token_ttl) <= u64::MAX {
        claims.iat + duration_secs(service.config.access_token_ttl)
    } else {
        u64::MAX as int
    }
}

/// The name claim of a user has no reserved name.
proof fn lemma_name_claim(name: Seq<char>)
    ensures
        has_no_reserved_name(crate::service::auth::name_claim(name)),
        nbf_is_readable(crate::service::auth::name_claim(name)),
        crate::service::auth::name_claim(name).dom() =~= set!["name"@],
{
    reveal_strlit("name");
    reveal_strlit("sub");
    reveal_strlit("iss");
    reveal_strlit("aud");
    reveal_strlit("exp");
    reveal_strlit("iat");
    reveal_strlit("jti");
    reveal_strlit("cnf");
    reveal_strlit("nbf");
    assert("name"@.len() == 4);
}

/// Whether a token says whose it is, under whatever key it verifies and whoever verifies it.
pub open spec fn says_whose_it_is(
    token: Seq<char>,
    service: ServiceView,
    subject: u128,
    name: Seq<char>,
    jkt: Seq<char>,
) -> bool {
    forall|
        algorithm: Algorithm,
        key: DecodingKeyView,
        issuer: Seq<char>,
        audience: Seq<char>,
        skew: nat,
        now: u64,
    |
        (#[trigger] verification(algorithm, key, token, issuer, audience, skew, now)) is Ok
            ==> are_claims_for(
            verification(algorithm, key, token, issuer, audience, skew, now)->Ok_0,
            service,
            subject,
            name,
            jkt,
        )
}

/// What a signed access token says.
proof fn lemma_signed_token(
    service: ServiceView,
    subject: u128,
    name: Seq<char>,
    jkt: Seq<char>,
    token: String,
)
    requires
        is_signed(service.config, subject, name, jkt, Reply::Access(token)),
    ensures
        says_whose_it_is(token@, service, subject, name, jkt),
        service.config.signer.is_key_pair() ==> exists|exp: u64|
            #![trigger lasts_until(service, token@, exp)]
            lasts_until(service, token@, exp),
{
    let config = service.config;
    let extra = crate::service::auth::name_claim(name);
    let reply = Reply::Access(token);
    let (result, now, jti) = choose|
        result: Result<Seq<char>, DpopErrorView>,
        now: u64,
        jti: Seq<char>,
    |
        is_uuid_text(jti) && crate::token::is_issue(
            result,
            config.signer,
            #[trigger] issued_claims(
                config.issuer,
                config.audience,
                duration_secs(config.access_token_ttl) as nat,
                uuid_text(subject),
                jkt,
                extra,
                now,
                jti,
            ),
        ) && #[trigger] is_access_reply(result, reply);
    let claims = issued_claims(
        config.issuer,
        config.audience,
        duration_secs(config.access_token_ttl) as nat,
        uuid_text(subject),
        jkt,
        extra,
        now,
        jti,
    );
    lemma_name_claim(name);
    law_unreserved_extra_is_kept(extra);
    assert(result == Ok::<_, DpopErrorView>(token@));
    assert(are_claims_for(claims, service, subject, name, jkt));
    if config.signer.is_key_pair() {
        assert(lasts_until(service, token@, claims.exp));
    }
}

/// An access token of the service says whose it is, under whatever key it verifies and
/// whoever verifies it: the subject and the name that it was asked for with, the key that it
/// is bound to, the issuer and the audience of the service, and its lifetime. Where the keys
/// of the service belong together, the service itself accepts it until it expires.
pub proof fn law_access_token_says_whose_it_is(
    service: &AuthService,
    query: Query,
    subject: u128,
    name: String,
    jkt: String,
    token: String,
)
    requires
        query == (Query::SignAccess { subject, name, jkt }),
        call_ensures(
            AuthService::answer,
            (service, &query),
            Answer::Reply(Reply::Access(token)),
        ),
    ensures
        says_whose_it_is(token@, service@, subject, name@, jkt@),
        service@.config.signer.is_key_pair() ==> exists|exp: u64|
            #![trigger lasts_until(service@, token@, exp)]
            lasts_until(service@, token@, exp),
{
    lemma_signed_token(service@, subject, name@, jkt@, token);
}

/// What the service gives to a user whose refresh token is stored, after a login: an access
/// token that has the public identifier and the name of the user and is bound to the key of
/// the session, the drawn secret, and the lifetime of access tokens.
pub proof fn law_stored_login_gets_its_tokens(
    service: &AuthService,
    issue: Issue,
    secret: String,
    tokens: ReplacementTokens,
)
    requires
        call_ensures(
            AuthService::resume,
            (service, Flow::StoringToken { issue, secret }, Reply::Done),
            Settled::Done(Ok(Success::Tokens(tokens))),
        ),
        issue.purpose is Login,
    ensures
        says_whose_it_is(
            tokens.access_token@,
            service@,
            issue.user.public_id,
            issue.user.name@,
            issue.jkt@,
        ),
        tokens.refresh_token == secret,
        tokens.expires_in == duration_secs(service@.config.access_token_ttl),
{
    reveal_with_fuel(settles, 2);
    lemma_signed_token(
        service@,
        issue.user.public_id,
        issue.user.name@,
        issue.jkt@,
        tokens.access_token,
    );
}

/// What the service gives to a new user whose registration is committed.
pub proof fn law_committed_registration_gets_its_tokens(
    service: &AuthService,
    issue: Issue,
    secret: String,
    tokens: ReplacementTokens,
)
    requires
        call_ensures(
            AuthService::resume,
            (service, Flow::CommittingRegistration { issue, secret }, Reply::Done),
            Settled::Done(Ok(Success::Tokens(tokens))),
        ),
        issue.purpose is Register,
    ensures
        says_whose_it_is(
            tokens.access_token@,
            service@,
            issue.user.public_id,
            issue.user.name@,
            issue.jkt@,
        ),
        tokens.refresh_token == secret,
        tokens.expires_in == duration_secs(service@.config.access_token_ttl),
{
    reveal_with_fuel(settles, 2);
    lemma_signed_token(
        service@,
        issue.user.public_id,
        issue.user.name@,
        issue.jkt@,
        tokens.access_token,
    );
}

/// What the service is about to give to the owner of a rotated token, when it asks for the
/// commit.
pub proof fn law_stored_replacement_gets_its_tokens(
    service: &AuthService,
    issue: Issue,
    secret: String,
    query: Query,
    flow: Flow,
)
    requires
        call_ensures(
            AuthService::resume,
            (service, Flow::StoringToken { issue, secret }, Reply::Done),
            Settled::Ask(query, flow),
        ),
        issue.purpose is Rotate,
    ensures
        query is Commit,
        flow matches Flow::CommittingRotation { tokens } && {
            &&& says_whose_it_is(
                tokens.access_token@,
                service@,
                issue.user.public_id,
                issue.user.name@,
                issue.jkt@,
            )
            &&& tokens.refresh_token == secret
            &&& tokens.expires_in == duration_secs(service@.config.access_token_ttl)
        },
{
    reveal_with_fuel(settles, 3);
    if let Flow::CommittingRotation { tokens } = flow {
        lemma_signed_token(
            service@,
            issue.user.public_id,
            issue.user.name@,
            issue.jkt@,
            tokens.access_token,
        );
    }
}

/// Whether the service accepts a token up to a time, and from then on says that it is
/// expired.
pub open spec fn lasts_until(service: ServiceView, token: Seq<char>, exp: u64) -> bool {
    let config = service.config;
    forall|now: u64|
        match #[trigger] verification(
            config.signer.algorithm(),
            config.signer.decoding_key(),
            token,
            config.issuer,
            config.audience,
            duration_secs(config.clock_skew) as nat,
            now,
        ) {
            Ok(claims) => claims.exp == exp && now <= exp + duration_secs(config.clock_skew),
            Err(error) => error is Expired && now > exp + duration_secs(config.clock_skew),
        }
}

/// What a session is issued with at the end: the access token for the subject, the name and
/// the key that was asked for, the secret, and the lifetime of access tokens.
pub proof fn law_settled_session_has_the_lifetime_of_access_tokens(
    service: ServiceView,
    subject: u128,
    name: String,
    jkt: String,
    issue: Issue,
    secret: String,
    tokens: ReplacementTokens,
)
    requires
        settles(
            service,
            Step::Ask(
                Query::SignAccess { subject, name, jkt },
                Flow::SigningAccess { issue, secret },
            ),
            Settled::Done(Ok(Success::Tokens(tokens))),
        ),
        !(issue.purpose is Rotate),
    ensures
        tokens.expires_in == duration_secs(service.config.access_token_ttl),
        tokens.refresh_token == secret,
        crate::service::auth::is_answer(
            service,
            Query::SignAccess { subject, name, jkt },
            Reply::Access(tokens.access_token),
        ),
{
    reveal_with_fuel(settles, 2);
}

/// A password is judged by the stored hash of the user, and where there is no user by the
/// dummy hash of the service; a hash that cannot be read fails the query.
pub proof fn law_password_is_judged_by_the_stored_hash(
    service: &AuthService,
    query: Query,
    password: String,
    hash: Option<String>,
    answer: Answer,
)
    requires
        query == (Query::VerifyPassword { password, hash }),
        call_ensures(AuthService::answer, (service, &query), answer),
    ensures
        answer matches Answer::Reply(reply) && {
            let stored = if hash is Some {
                hash->0@
            } else {
                service@.dummy_hash
            };
            match password_check(password@, stored) {
                Ok(right) => reply == Reply::Verdict(right),
                Err(text) => reply matches Reply::Failed { message } && message@ == text,
            }
        },
{
}

/// The hash of a password is one that the password is right for.
pub proof fn law_hashed_password_is_right(
    service: &AuthService,
    query: Query,
    password: String,
    hash: String,
)
    requires
        query == (Query::HashPassword { password }),
        call_ensures(AuthService::answer, (service, &query), Answer::Reply(Reply::Hash(hash))),
    ensures
        password_check(password@, hash@) == Ok::<_, Seq<char>>(true),
{
}

/// A new refresh secret is the base64url text of 32 bytes, and comes with the SHA-256 hash
/// by which it is stored.
pub proof fn law_new_secret_comes_with_its_hash(
    service: &AuthService,
    query: Query,
    secret: String,
    hash: String,
)
    requires
        query is NewSecret,
        call_ensures(
            AuthService::answer,
            (service, &query),
            Answer::Reply(Reply::Secret { secret, hash }),
        ),
    ensures
        exists|bytes: Seq<u8>| bytes.len() == 32 && secret@ == #[trigger] base64url(bytes),
        hash@ == hex(sha256(bytes_of(secret@))),
{
}

/// A new refresh token expires after the lifetime of refresh tokens, counted in
/// microseconds from now.
pub proof fn law_new_token_has_the_lifetime_of_refresh_tokens(
    service: &AuthService,
    query: Query,
    at: i64,
)
    requires
        query is RefreshExpiry,
        call_ensures(AuthService::answer, (service, &query), Answer::Reply(Reply::Expiry(at))),
    ensures
        exists|now: i64|
            #![trigger crate::service::auth::expiry_time(
                now,
                duration_secs(service@.config.refresh_token_ttl),
            )]
            at == now + duration_secs(service@.config.refresh_token_ttl) * 1_000_000,
        -8_334_601_228_800_000_000 <= at <= 8_210_266_876_799_999_999,
{
}

/// A TOTP code is right if it is, without white space around it, the six-digit code of the
/// secret for the time step of 30 seconds of some time or for one next to it.
pub proof fn law_right_code_is_of_a_near_step(
    service: &AuthService,
    query: Query,
    secret: String,
    code: String,
)
    requires
        query == (Query::VerifyTotp { secret, code }),
        call_ensures(AuthService::answer, (service, &query), Answer::Reply(Reply::Verdict(true))),
    ensures
        ({
            &&& base32_bytes(secret@) matches Ok(bytes)
            &&& totp_fault(bytes, 6, 1, 30, None, seq![]) is None
            &&& exists|time: u64, counter: u64|
                #![trigger totp_code(bytes, 6, 30, counter), crate::totp::step_of(time, 30)]
                time / 30 - 1 <= counter <= time / 30 + 1 && totp_code(bytes, 6, 30, counter)
                    == trimmed(code@)
        }),
{
    let time = choose|time: u64|
        #[trigger] crate::service::auth::is_totp_reply(
            secret@,
            code@,
            time,
            Reply::Verdict(true),
        );
    let bytes = base32_bytes(secret@)->Ok_0;
    assert(crate::totp::is_code_near(bytes, 6, 1, 30, trimmed(code@), time));
    let counter = choose|counter: u64|
        crate::totp::step_of(time, 30) - 1 <= counter && counter <= crate::totp::step_of(time, 30)
            + 1 && #[trigger] totp_code(bytes, 6, 30, counter) == trimmed(code@);
    assert(crate::totp::step_of(time, 30) == time / 30);
}

/// New recovery codes are ten different ones, each with its own hash.
pub proof fn law_new_codes_come_with_their_hashes(
    service: &AuthService,
    query: Query,
    codes: Vec<String>,
    hashes: Vec<String>,
)
    requires
        query is NewRecoveryCodes,
        call_ensures(
            AuthService::answer,
            (service, &query),
            Answer::Reply(Reply::Codes { codes, hashes }),
        ),
    ensures
        codes@.len() == 10,
        hashes@.len() == 10,
        forall|i: int, j: int|
            0 <= i < j < 10 ==> (#[trigger] codes@[i])@ != (#[trigger] codes@[j])@,
        forall|i: int|
            0 <= i < 10 ==> (#[trigger] hashes@[i])@ == hex(
                sha256(bytes_of(lowercase(trimmed(codes@[i]@)))),
            ),
{
    let all = crate::text::texts(codes@);
    assert forall|i: int, j: int| 0 <= i < j < 10 implies (#[trigger] codes@[i])@ != (
    #[trigger] codes@[j])@ by {
        assert(all[i] != all[j]);
    }
}

/// The caches that the service asks: a replacement is looked up, and remembered, by the
/// family and the hash that are asked for; a code is claimed for the user.
pub proof fn law_caches_are_asked_as_the_query_says(
    service: &AuthService,
    query: Query,
    reply: Reply,
)
    requires
        call_ensures(AuthService::answer, (service, &query), Answer::Reply(reply)),
    ensures
        query matches Query::GraceLookup { fam, token_hash } ==> {
            &&& reply matches Reply::Cached(lookup)
            &&& lookup.cache() == service@.grace_cache
            &&& lookup.fam() == fam && lookup.token_hash() == token_hash@
        },
        query matches Query::GraceStore { fam, token_hash, tokens } ==> {
            &&& reply matches Reply::Remembered(entry)
            &&& entry.cache() == service@.grace_cache
            &&& entry.fam() == fam && entry.token_hash() == token_hash@ && entry.tokens() == tokens
        },
        query matches Query::ClaimTotp { user_id, code } ==> {
            &&& reply matches Reply::Fresh(claim)
            &&& claim.cache() == service@.totp_replay_cache
            &&& claim.user_id() == user_id && claim.code() == code@
        },
{
}

/// What a failure is reported as.
pub proof fn law_failures_are_reported(failure: Failure, error: ServiceError)
    requires
        call_ensures(Failure::into_error, (failure,), error),
    ensures
        failure is Unauthorized ==> error@ == ServiceErrorView::Unauthorized,
        failure is RegistrationDisabled ==> error@ == ServiceErrorView::RegistrationDisabled,
        failure matches Failure::AlreadyRegistered { kind } ==> error@
            == ServiceErrorView::Conflict(kind@ + " already registered"@),
        failure is TotpAlreadyEnabled ==> error@ == ServiceErrorView::Conflict(
            "2FA already enabled"@,
        ),
        failure is SetupExpired ==> error@ == ServiceErrorView::Conflict(
            "setup expired, run setup_2fa again"@,
        ),
        failure is TotpNotEnabled ==> error@ == ServiceErrorView::Conflict("2FA is not enabled"@),
        failure matches Failure::Internal { message } ==> error@ == ServiceErrorView::Internal(
            message@,
        ),
{
}

/// The pair that a client gets is the issued one, as DPoP tokens.
pub proof fn law_pair_is_the_issued_one(tokens: ReplacementTokens, pair: TokenPair)
    requires
        call_ensures(ReplacementTokens::into_pair, (tokens,), pair),
    ensures
        pair.access_token@ == tokens.access_token@,
        pair.refresh_token@ == tokens.refresh_token@,
        pair.token_type@ == "DPoP"@,
        pair.expires_in == tokens.expires_in,
{
}

/// When a refresh token expires: after its lifetime, counted in microseconds, if that is a
/// time that a row can hold.
pub proof fn law_expiry_is_a_lifetime_later(now: i64, ttl: Duration, expiry: Option<i64>)
    requires
        call_ensures(refresh_expiry, (now, ttl), expiry),
    ensures
        expiry matches Some(at) ==> at == now + duration_secs(ttl) * 1_000_000,
        expiry is None <==> now + duration_secs(ttl) * 1_000_000 > 8_210_266_876_799_999_999 || now
            + duration_secs(ttl) * 1_000_000 < -8_334_601_228_800_000_000,
{
}

/// For how long the service remembers: a replacement for the grace period, a used code for
/// 90 seconds.
pub proof fn law_service_remembers_long_enough(config: DpopConfig, service: AuthService)
    requires
        is_cache_ttl(config.grace_period),
        call_ensures(AuthService::new, (config,), service),
    ensures
        service@.config == config@,
        service.grace_lifetime() == duration_secs(config.grace_period) * 1_000_000_000
            + duration_nanos(config.grace_period),
        service.replay_lifetime() == 90 * 1_000_000_000,
{
}

} // verus!
