//! What holds of every access token, from its issue to its verification.

use std::time::Duration;

use vstd::prelude::*;

use crate::config::TokenSigner;
use crate::crypto::entropy::is_uuid_text;
use crate::error::{DpopError, DpopErrorView};
use crate::jose::{verified_claims, Algorithm, DecodingKey, DecodingKeyView};
use crate::json::{
    number_of_json, object_json, object_of_json, string_json, string_of_json, JsonMap,
};
use crate::text::{decimal, outcome};
use crate::time::duration_secs;
use crate::token::{
    access_claims, access_claims_in, has_no_reserved_name, is_issue, issue_access_token,
    issue_access_token_at, issued_claims, law_unreserved_extra_is_kept, lemma_claim_names_differ,
    nbf_is_readable, token_members, verification, verify_access_token_at, AccessTokenClaims,
    AccessTokenClaimsView,
};

verus! {

/// Whether the claims are those that a token was issued with.
pub open spec fn are_issued(
    claims: AccessTokenClaimsView,
    issuer: Seq<char>,
    audience: Seq<char>,
    ttl: u64,
    subject: Seq<char>,
    jkt: Seq<char>,
    now: u64,
    jti: Seq<char>,
) -> bool {
    &&& claims.sub == subject
    &&& claims.iss == issuer
    &&& claims.aud == audience
    &&& claims.jkt == jkt
    &&& claims.jti == jti
    &&& claims.iat == now
    &&& claims.exp == if now + ttl <= u64::MAX {
        now + ttl
    } else {
        u64::MAX as int
    }
}

/// A token that is issued says what it was issued with, under whatever key it verifies and
/// whoever verifies it: subject, issuer, audience, key, identifier, the time of its issue
/// and its expiry; and the extra claims, where none of them has a reserved name. Where the
/// keys of the signer belong together and any `nbf` is one that verification reads, the
/// signer accepts it for its issuer and its audience until its expiry and the leeway are
/// over.
pub proof fn law_issued_token_says_what_was_asked_for(
    signer: &TokenSigner,
    issuer: &str,
    audience: &str,
    ttl: Duration,
    subject: &str,
    jkt: &str,
    extra: JsonMap,
    now: u64,
    jti: String,
    token: String,
    algorithm: Algorithm,
    key: DecodingKeyView,
    by: Seq<char>,
    to: Seq<char>,
    skew: nat,
    at: u64,
)
    requires
        call_ensures(
            issue_access_token_at,
            (signer, issuer, audience, ttl, subject, jkt, extra, now, jti),
            Ok(token),
        ),
        has_no_reserved_name(extra@),
    ensures
        verification(algorithm, key, token@, by, to, skew, at) matches Ok(claims) ==> are_issued(
            claims,
            issuer@,
            audience@,
            duration_secs(ttl),
            subject@,
            jkt@,
            now,
            jti@,
        ) && claims.extra == extra@,
        signer@.is_key_pair() && nbf_is_readable(extra@) && at <= now + duration_secs(ttl) + skew
            && now + duration_secs(ttl) <= u64::MAX ==> verification(
            signer@.algorithm(),
            signer@.decoding_key(),
            token@,
            issuer@,
            audience@,
            skew,
            at,
        ) is Ok,
        signer@.is_key_pair() && nbf_is_readable(extra@) && at > now + duration_secs(ttl) + skew
            ==> verification(
            signer@.algorithm(),
            signer@.decoding_key(),
            token@,
            issuer@,
            audience@,
            skew,
            at,
        ) == Err::<AccessTokenClaimsView, _>(DpopErrorView::Expired),
{
    law_unreserved_extra_is_kept(extra@);
}

/// With a shared secret a token is always issued.
pub proof fn law_shared_secret_always_signs(
    signer: &TokenSigner,
    issuer: &str,
    audience: &str,
    ttl: Duration,
    subject: &str,
    jkt: &str,
    extra: JsonMap,
    now: u64,
    jti: String,
    result: Result<String, DpopError>,
)
    requires
        call_ensures(
            issue_access_token_at,
            (signer, issuer, audience, ttl, subject, jkt, extra, now, jti),
            result,
        ),
        signer@.is_key_pair(),
        signer@ is Symmetric,
    ensures
        result is Ok,
{
}

/// A token that is issued now says what it was issued with, and has the text of a UUID as
/// its identifier.
pub proof fn law_token_issued_now_says_what_was_asked_for(
    signer: &TokenSigner,
    issuer: &str,
    audience: &str,
    ttl: Duration,
    subject: &str,
    jkt: &str,
    extra: JsonMap,
    token: String,
    algorithm: Algorithm,
    key: DecodingKeyView,
    by: Seq<char>,
    to: Seq<char>,
    skew: nat,
    at: u64,
)
    requires
        call_ensures(
            issue_access_token,
            (signer, issuer, audience, ttl, subject, jkt, extra),
            Ok(token),
        ),
        has_no_reserved_name(extra@),
    ensures
        verification(algorithm, key, token@, by, to, skew, at) matches Ok(claims) ==> {
            &&& is_uuid_text(claims.jti)
            &&& are_issued(
                claims,
                issuer@,
                audience@,
                duration_secs(ttl),
                subject@,
                jkt@,
                claims.iat,
                claims.jti,
            )
            &&& claims.extra == extra@
        },
{
    law_unreserved_extra_is_kept(extra@);
    let (now, jti) = choose|now: u64, jti: Seq<char>|
        is_uuid_text(jti) && is_issue(
            Ok(token@),
            signer@,
            #[trigger] issued_claims(
                issuer@,
                audience@,
                duration_secs(ttl) as nat,
                subject@,
                jkt@,
                extra@,
                now,
                jti,
            ),
        );
}

/// A token is accepted only if its signature verifies, with the claims in it, for the issuer
/// and the audience that are asked for, and not after its expiry and the leeway.
pub proof fn law_verified_token_is_what_it_says(
    algorithm: Algorithm,
    decoding_key: &DecodingKey,
    token: &str,
    issuer: &str,
    audience: &str,
    clock_skew: Duration,
    now: u64,
    result: Result<AccessTokenClaims, DpopError>,
)
    requires
        call_ensures(
            verify_access_token_at,
            (algorithm, decoding_key, token, issuer, audience, clock_skew, now),
            result,
        ),
    ensures
        ({
            let verified = verified_claims(algorithm.spec_name(), decoding_key@, token@);
            let skew = duration_secs(clock_skew);
            &&& verified matches Err(text) ==> outcome(result) == Err::<AccessTokenClaimsView, _>(
                DpopErrorView::InvalidSignature(text),
            )
            &&& verified matches Ok(json) ==> match access_claims_in(json) {
                Err(text) => outcome(result) == Err::<AccessTokenClaimsView, _>(
                    DpopErrorView::InvalidSignature(text),
                ),
                Ok(claims) => {
                    &&& result is Ok <==> claims.exp + skew >= now && claims.iss == issuer@
                        && claims.aud == audience@
                    &&& result is Ok ==> outcome(result) == Ok::<_, DpopErrorView>(claims)
                    &&& claims.exp + skew < now ==> outcome(result) == Err::<
                        AccessTokenClaimsView,
                        _,
                    >(DpopErrorView::Expired)
                    &&& claims.exp + skew >= now && result is Err ==> result->Err_0
                        is InvalidSignature
                },
            }
        }),
{
}

/// The claims of a token stand in its JSON object under their names, over any extra claim.
pub proof fn law_claims_are_written_under_their_names(
    claims: AccessTokenClaimsView,
    name: Seq<char>,
)
    ensures
        ({
            let members = token_members(claims);
            &&& members["sub"@] == string_json(claims.sub)
            &&& members["iss"@] == string_json(claims.iss)
            &&& members["aud"@] == string_json(claims.aud)
            &&& members["exp"@] == decimal(claims.exp as nat)
            &&& members["iat"@] == decimal(claims.iat as nat)
            &&& members["jti"@] == string_json(claims.jti)
            &&& members["cnf"@] == object_json(
                Map::<Seq<char>, Seq<char>>::empty().insert("jkt"@, string_json(claims.jkt)),
            )
            &&& name != "sub"@ && name != "iss"@ && name != "aud"@ && name != "exp"@ && name
                != "iat"@ && name != "jti"@ && name != "cnf"@ ==> {
                &&& members.dom().contains(name) <==> claims.extra.dom().contains(name)
                &&& claims.extra.dom().contains(name) ==> members[name] == claims.extra[name]
            }
        }),
{
    lemma_claim_names_differ();
}

/// The claims of a token are read from the members with their names. What is left is extra.
pub proof fn law_claims_are_read_under_their_names(
    members: Map<Seq<char>, Seq<char>>,
    name: Seq<char>,
)
    ensures
        access_claims(members) matches Ok(claims) ==> {
            &&& members.dom().contains("sub"@) && string_of_json(members["sub"@]) == Some(
                claims.sub,
            )
            &&& members.dom().contains("iss"@) && string_of_json(members["iss"@]) == Some(
                claims.iss,
            )
            &&& members.dom().contains("aud"@) && string_of_json(members["aud"@]) == Some(
                claims.aud,
            )
            &&& members.dom().contains("exp"@) && number_of_json(members["exp"@]) == Some(
                claims.exp,
            )
            &&& members.dom().contains("iat"@) && number_of_json(members["iat"@]) == Some(
                claims.iat,
            )
            &&& members.dom().contains("jti"@) && string_of_json(members["jti"@]) == Some(
                claims.jti,
            )
            &&& members.dom().contains("cnf"@)
            &&& object_of_json(members["cnf"@]) matches Some(cnf) ==> cnf.dom().contains("jkt"@)
                && string_of_json(cnf["jkt"@]) == Some(claims.jkt)
            &&& claims.extra.dom().contains(name) <==> members.dom().contains(name) && name
                != "sub"@ && name != "iss"@ && name != "aud"@ && name != "exp"@ && name != "iat"@
                && name != "jti"@ && name != "cnf"@
            &&& claims.extra.dom().contains(name) ==> claims.extra[name] == members[name]
        },
{
}

/// What is said of claims is said of their fields.
pub proof fn law_views_show_the_fields(claims: AccessTokenClaims)
    ensures
        claims@.sub == claims.sub@,
        claims@.iss == claims.iss@,
        claims@.aud == claims.aud@,
        claims@.exp == claims.exp,
        claims@.iat == claims.iat,
        claims@.jti == claims.jti@,
        claims@.jkt == claims.cnf.jkt@,
        claims@.extra == claims.extra@,
{
}

} // verus!
