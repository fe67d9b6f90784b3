//! What holds of every request: which ones are let in, and as whom.

use vstd::prelude::*;

use crate::cache::{Claim, JtiCache, Lookup, NonceCache};
use crate::config::DpopConfigView;
use crate::crypto::{base64url, sha256};
use crate::dpop::laws::{
    law_accepted_proof_is_for_the_target, law_accepted_proof_meets_every_demand,
    law_proof_that_meets_every_demand_is_accepted, law_validation_asks_the_right_caches,
    same_letters,
};
use crate::dpop::{
    host_len, is_read_again, is_validation, proof_reading, url_parts, ProofView, UrlPartsView,
    ValidatedProof, Validation, MAX_HOST_LEN,
};
use crate::error::DpopErrorView;
use crate::extractor::{is_extraction, DpopSession, FromExtra, SessionView, ValidatedSession};
use crate::jose::verified_claims;
use crate::middleware::{
    authentication, authorize, bind_session, build_htu, extraction, is_authenticated,
    is_authentication, proof_outcome, resource_demands, token_outcome, Credentials,
    CredentialsView, RequestHead,
};
use crate::state::DpopState;
use crate::text::{bytes_of, outcome, trimmed_end};
use crate::time::duration_secs;
use crate::token::{access_claims_in, AccessTokenClaims, AccessTokenClaimsView};

verus! {

/// Whether a text is the base of a URL: the URL is the base with nothing but slashes behind
/// it, and the base ends with none.
pub open spec fn is_base_of(base: Seq<char>, url: Seq<char>) -> bool {
    &&& base.len() <= url.len()
    &&& url.take(base.len() as int) == base
    &&& forall|i: int| base.len() <= i < url.len() ==> #[trigger] url[i] == '/'
    &&& base.len() > 0 ==> base.last() != '/'
}

/// A URL without the slashes at its end is its base.
proof fn lemma_base(base: Seq<char>, url: Seq<char>)
    requires
        is_base_of(base, url),
    ensures
        trimmed_end(url, '/') == base,
    decreases url.len(),
{
    if url.len() > base.len() {
        let shorter = url.drop_last();
        assert(url.last() == '/');
        assert(shorter.take(base.len() as int) =~= base);
        assert forall|i: int| base.len() <= i < shorter.len() implies #[trigger] shorter[i]
            == '/' by {
            assert(shorter[i] == url[i]);
        }
        lemma_base(base, shorter);
    } else {
        assert(url =~= base);
    }
}

/// Every URL has a base.
pub proof fn law_every_url_has_a_base(url: Seq<char>) -> (base: Seq<char>)
    ensures
        is_base_of(base, url),
    decreases url.len(),
{
    if url.len() > 0 && url.last() == '/' {
        let shorter = url.drop_last();
        let base = law_every_url_has_a_base(shorter);
        assert(url.take(base.len() as int) =~= shorter.take(base.len() as int));
        assert forall|i: int| base.len() <= i < url.len() implies #[trigger] url[i] == '/' by {
            if i < shorter.len() {
                assert(shorter[i] == url[i]);
            }
        }
        base
    } else {
        assert(url.take(url.len() as int) =~= url);
        url
    }
}

/// Whether a proof is for a request to the server: for its method, and for the path of the
/// request under the public URL of the server.
pub open spec fn is_for_request(
    proof: ProofView,
    base: Seq<char>,
    credentials: CredentialsView,
) -> bool {
    &&& same_letters(proof.claims.htm, credentials.method)
    &&& url_parts(proof.claims.htu) is Some
    &&& url_parts(proof.claims.htu) == url_parts(base + credentials.path)
    &&& proof.claims.ath == Some(base64url(sha256(bytes_of(credentials.token))))
}

/// Whoever is let in has shown a proof that is made for the method of the request and for
/// its path under the public URL of the server, fresh, bound to the access token by the
/// SHA-256 hash of it, with a nonce of the server where one is required and a new `jti`; and
/// an access token that the server verifies, issued by its issuer for its audience, not
/// expired, and bound to the key of the proof. The session is that of the token.
pub proof fn law_request_that_is_let_in_has_shown_its_right(
    config: DpopConfigView,
    base: Seq<char>,
    credentials: CredentialsView,
    session: SessionView,
    verified_at: u64,
    now: u64,
    nonce_known: bool,
    new_nonce: Seq<char>,
    fresh: bool,
)
    requires
        authentication(
            token_outcome(config, credentials, verified_at),
            proof_outcome(config, credentials, now, nonce_known, new_nonce, fresh),
        ) == Ok::<_, DpopErrorView>(session),
        is_base_of(base, config.public_url),
    ensures
        ({
            let skew = duration_secs(config.clock_skew);
            &&& proof_reading(credentials.proof, config.allowed_algs) matches Ok(proof)
            &&& same_letters(proof.claims.htm, credentials.method)
            &&& url_parts(proof.claims.htu) is Some
            &&& url_parts(base + credentials.path) is Some
            &&& are_one_target(
                url_parts(proof.claims.htu)->0,
                url_parts(base + credentials.path)->0,
            )
            &&& proof.claims.ath == Some(base64url(sha256(bytes_of(credentials.token))))
            &&& proof.claims.iat <= now + skew
            &&& now <= proof.claims.iat + skew
            &&& config.nonce_required ==> nonce_known
            &&& fresh
            &&& verified_claims(
                config.signer.algorithm().spec_name(),
                config.signer.decoding_key(),
                credentials.token,
            ) matches Ok(json)
            &&& access_claims_in(json) matches Ok(claims)
            &&& claims.iss == config.issuer
            &&& claims.aud == config.audience
            &&& verified_at <= claims.exp + skew
            &&& claims.jkt == proof.jwk_thumbprint
            &&& session.sub == claims.sub
            &&& session.jti == claims.jti
            &&& session.jkt == claims.jkt
            &&& session.extra == claims.extra
        }),
{
    let demands = resource_demands(config, credentials);
    let reading = proof_reading(credentials.proof, config.allowed_algs);
    lemma_base(base, config.public_url);
    assert(demands.htu == base + credentials.path);
    law_accepted_proof_meets_every_demand(reading, demands, now, nonce_known, new_nonce, fresh);
    let proof = reading->Ok_0;
    let (claimed, expected) = (
        url_parts(proof.claims.htu)->0,
        url_parts(base + credentials.path)->0,
    );
    if is_plain_web(expected) && is_read_again(claimed) && !claimed.scheme.contains(':')
        && host_len(claimed) <= MAX_HOST_LEN {
        law_accepted_proof_is_for_the_target(
            proof,
            demands,
            claimed,
            expected,
            now,
            nonce_known,
            new_nonce,
            fresh,
        );
    }
}

/// Whether a URL is an `http` or `https` URL that is read again as it was written.
pub open spec fn is_plain_web(url: UrlPartsView) -> bool {
    &&& url.scheme == "http"@ || url.scheme == "https"@
    &&& is_read_again(url)
    &&& host_len(url) <= MAX_HOST_LEN
}

/// Whether the target of a proof is that of a request: where the second is an `http` or
/// `https` URL, it has the same scheme, host, port and path.
pub open spec fn are_one_target(claimed: UrlPartsView, expected: UrlPartsView) -> bool {
    is_plain_web(expected) && is_read_again(claimed) && !claimed.scheme.contains(':') && host_len(
        claimed,
    ) <= MAX_HOST_LEN ==> {
        &&& claimed.scheme == expected.scheme
        &&& claimed.host == expected.host
        &&& claimed.port == expected.port
        &&& claimed.path == expected.path
    }
}

/// A session is granted only to a request with a proof for its path under the public URL,
/// by the key of the token, and with a token of the issuer for the audience, whatever the
/// times and the caches were.
pub proof fn law_session_is_for_the_request(
    config: DpopConfigView,
    base: Seq<char>,
    credentials: CredentialsView,
    session: SessionView,
)
    requires
        is_authentication(config, credentials, Ok(session)),
        is_base_of(base, config.public_url),
    ensures
        ({
            &&& proof_reading(credentials.proof, config.allowed_algs) matches Ok(proof)
            &&& same_letters(proof.claims.htm, credentials.method)
            &&& url_parts(proof.claims.htu) is Some
            &&& url_parts(base + credentials.path) is Some
            &&& are_one_target(
                url_parts(proof.claims.htu)->0,
                url_parts(base + credentials.path)->0,
            )
            &&& proof.claims.ath == Some(base64url(sha256(bytes_of(credentials.token))))
            &&& session.jkt == proof.jwk_thumbprint
        }),
{
    let (verified_at, now, known, nonce, fresh) = choose|
        verified_at: u64,
        now: u64,
        known: bool,
        nonce: Seq<char>,
        fresh: bool,
    |
        Ok::<_, DpopErrorView>(session) == authentication(
            #[trigger] token_outcome(config, credentials, verified_at),
            #[trigger] proof_outcome(config, credentials, now, known, nonce, fresh),
        );
    law_request_that_is_let_in_has_shown_its_right(
        config,
        base,
        credentials,
        session,
        verified_at,
        now,
        known,
        nonce,
        fresh,
    );
}

/// Whoever is let in was the first to use the `jti` of the proof in the cache of the server,
/// and where a nonce is required that of the proof was found among the nonces.
pub proof fn law_session_takes_a_new_jti(
    config: DpopConfigView,
    jti_cache: JtiCache,
    nonce_cache: NonceCache,
    credentials: CredentialsView,
    session: SessionView,
)
    requires
        is_authenticated(config, jti_cache, nonce_cache, credentials, Ok(session)),
    ensures
        ({
            &&& proof_reading(credentials.proof, config.allowed_algs) matches Ok(proof)
            &&& exists|claim: Claim|
                (#[trigger] claim.cache()) == jti_cache && claim.text() == proof.claims.jti
                    && claim.fresh()
            &&& config.nonce_required ==> exists|lookup: Lookup|
                {
                    &&& (#[trigger] lookup.cache()) == nonce_cache
                    &&& lookup.found()
                    &&& match proof.claims.nonce {
                        Some(nonce) => lookup.text() == nonce,
                        None => lookup.text().len() == 0,
                    }
                }
        }),
{
    let reading = proof_reading(credentials.proof, config.allowed_algs);
    let demands = resource_demands(config, credentials);
    let at = choose|at: u64|
        match #[trigger] token_outcome(config, credentials, at) {
            Err(error) => false,
            Ok(_) => exists|now: u64, validation: Validation| #[trigger]
                is_validation(reading, demands, jti_cache, nonce_cache, now, validation)
                    && Ok::<_, DpopErrorView>(session) == authentication(
                    token_outcome(config, credentials, at),
                    outcome(validation.result),
                ),
        };
    let (now, validation) = choose|now: u64, validation: Validation| #[trigger]
        is_validation(reading, demands, jti_cache, nonce_cache, now, validation) && Ok::<
            _,
            DpopErrorView,
        >(session) == authentication(
            token_outcome(config, credentials, at),
            outcome(validation.result),
        );
    law_validation_asks_the_right_caches(
        reading->Ok_0,
        demands,
        jti_cache,
        nonce_cache,
        now,
        validation,
    );
    let claim = validation.claim->0;
    assert(claim.cache() == jti_cache);
    let lookup = validation.lookup->0;
    assert(lookup.cache() == nonce_cache);
}

/// A call that lets a request in has read a proof in its `DPoP` header that is made for the
/// path of the request under the public URL of the server: where both are `http` or `https`
/// URLs, with one scheme, one host, one port and one path.
pub proof fn law_call_lets_in_for_its_own_target(
    state: &DpopState,
    head: &RequestHead,
    base: Seq<char>,
    result: Result<ValidatedSession, crate::error::DpopError>,
)
    requires
        call_ensures(authorize, (state, head), result),
        result is Ok,
        is_base_of(base, state.config.public_url@),
    ensures
        ({
            &&& head.dpop@.len() == 1
            &&& extraction(*head) matches Ok(credentials)
            &&& proof_reading(credentials.proof, state.config.allowed_algs@) matches Ok(proof)
            &&& url_parts(proof.claims.htu) matches Some(claimed)
            &&& url_parts(base + head.path@) matches Some(expected)
            &&& (claimed.scheme == "http"@ || claimed.scheme == "https"@) && (expected.scheme
                == "http"@ || expected.scheme == "https"@) && host_len(claimed) <= 2000
                && host_len(expected) <= 2000 ==> {
                &&& claimed.scheme == expected.scheme
                &&& claimed.host == expected.host
                &&& claimed.port == expected.port
                &&& claimed.path == expected.path
            }
            &&& same_letters(proof.claims.htm, head.method@)
            &&& proof.claims.ath == Some(base64url(sha256(bytes_of(credentials.token))))
            &&& result->Ok_0.jkt@ == proof.jwk_thumbprint
        }),
{
    lemma_base(base, state.config.public_url@);
    law_session_is_for_the_request(
        state.config@,
        base,
        extraction(*head)->Ok_0,
        result->Ok_0@,
    );
}

/// An honest request is let in, whatever the issuer and the audience are: its token is one
/// that the server verifies, from its issuer and for its audience, and not expired; its
/// proof is fresh, by the key that the token is bound to, for its method, for its path under
/// the public URL, with the hash of the token and, where one is required, a nonce of the
/// server; and its `jti` is new. The session is that of the token.
pub proof fn law_honest_request_is_let_in(
    config: DpopConfigView,
    base: Seq<char>,
    credentials: CredentialsView,
    json: Seq<char>,
    claims: AccessTokenClaimsView,
    proof: ProofView,
    verified_at: u64,
    now: u64,
    nonce_known: bool,
    new_nonce: Seq<char>,
)
    requires
        is_base_of(base, config.public_url),
        verified_claims(
            config.signer.algorithm().spec_name(),
            config.signer.decoding_key(),
            credentials.token,
        ) == Ok::<_, Seq<char>>(json),
        access_claims_in(json) == Ok::<_, Seq<char>>(claims),
        claims.iss == config.issuer,
        claims.aud == config.audience,
        verified_at <= claims.exp + duration_secs(config.clock_skew),
        proof_reading(credentials.proof, config.allowed_algs) == Ok::<_, DpopErrorView>(proof),
        claims.jkt == proof.jwk_thumbprint,
        proof.claims.iat <= now + duration_secs(config.clock_skew),
        now <= proof.claims.iat + duration_secs(config.clock_skew),
        is_for_request(proof, base, credentials),
        config.nonce_required ==> nonce_known,
    ensures
        authentication(
            token_outcome(config, credentials, verified_at),
            proof_outcome(config, credentials, now, nonce_known, new_nonce, true),
        ) == Ok::<_, DpopErrorView>(
            SessionView {
                sub: claims.sub,
                jti: claims.jti,
                jkt: claims.jkt,
                extra: claims.extra,
            },
        ),
{
    lemma_base(base, config.public_url);
    law_proof_that_meets_every_demand_is_accepted(
        proof,
        resource_demands(config, credentials),
        now,
        nonce_known,
        new_nonce,
    );
}

/// A request is refused whose token is for another issuer or another audience, expired, or
/// bound to another key than that of the proof, whatever else it shows.
pub proof fn law_foreign_token_is_refused(
    config: DpopConfigView,
    credentials: CredentialsView,
    json: Seq<char>,
    claims: AccessTokenClaimsView,
    verified_at: u64,
    validated: Result<ProofView, DpopErrorView>,
)
    requires
        verified_claims(
            config.signer.algorithm().spec_name(),
            config.signer.decoding_key(),
            credentials.token,
        ) == Ok::<_, Seq<char>>(json),
        access_claims_in(json) == Ok::<_, Seq<char>>(claims),
    ensures
        ({
            let result = authentication(
                token_outcome(config, credentials, verified_at),
                validated,
            );
            let expired = verified_at > claims.exp + duration_secs(config.clock_skew);
            let refused = |reason: DpopErrorView| Err::<SessionView, _>(reason);
            &&& expired ==> result == refused(DpopErrorView::Expired)
            &&& !expired && claims.iss != config.issuer ==> result == refused(
                DpopErrorView::InvalidSignature("InvalidIssuer"@),
            )
            &&& !expired && claims.iss == config.issuer && claims.aud != config.audience
                ==> result == refused(DpopErrorView::InvalidSignature("InvalidAudience"@))
            &&& !expired && claims.iss == config.issuer && claims.aud == config.audience ==> {
                &&& validated matches Err(error) ==> result == refused(error)
                &&& validated matches Ok(proof) ==> claims.jkt != proof.jwk_thumbprint ==> result
                    == refused(DpopErrorView::InvalidSignature("jkt mismatch"@))
            }
        }),
{
}

/// The credentials of a request are the text behind `DPoP ` in its `Authorization` header
/// and the text of its one `DPoP` header, both of visible characters, spaces and tabs, with
/// the method and the path of the request.
pub proof fn law_credentials_are_those_in_the_headers(head: RequestHead)
    ensures
        extraction(head) matches Ok(credentials) ==> {
            &&& head.authorization matches Some(value)
            &&& value@.len() == 5 + credentials.token.len()
            &&& value@[0] == 'D' as u8 && value@[1] == 'P' as u8 && value@[2] == 'o' as u8
                && value@[3] == 'P' as u8 && value@[4] == ' ' as u8
            &&& forall|i: int|
                0 <= i < credentials.token.len() ==> #[trigger] credentials.token[i] == value@[i
                    + 5] as char
            &&& head.dpop@.len() == 1
            &&& credentials.proof.len() == head.dpop@[0]@.len()
            &&& forall|i: int|
                0 <= i < credentials.proof.len() ==> #[trigger] credentials.proof[i]
                    == head.dpop@[0]@[i] as char
            &&& forall|i: int|
                0 <= i < value@.len() ==> 32 <= (#[trigger] value@[i]) < 127 || value@[i] == 9
            &&& forall|i: int|
                0 <= i < head.dpop@[0]@.len() ==> 32 <= (#[trigger] head.dpop@[0]@[i]) < 127
                    || head.dpop@[0]@[i] == 9
            &&& credentials.method == head.method@
            &&& credentials.path == head.path@
        },
{
    reveal_strlit("DPoP ");
    if let Ok(credentials) = extraction(head) {
        let value = head.authorization->0@;
        let text = crate::middleware::header_chars(value)->0;
        let start = "DPoP "@;
        assert(start.len() == 5);
        assert(text.take(5) == start);
        assert(text.len() == value.len());
        assert forall|i: int| 0 <= i < value.len() implies 32 <= (#[trigger] value[i]) < 127
            || value[i] == 9 by {
            assert(crate::middleware::is_visible(value[i]));
        }
        assert forall|i: int| 0 <= i < 5 implies #[trigger] text[i] == start[i] by {
            assert(text.take(5)[i] == text[i]);
        }
        assert(text[0] == 'D' && text[1] == 'P' && text[2] == 'o' && text[3] == 'P' && text[4]
            == ' ');
        assert(value[0] as char == 'D' && value[1] as char == 'P' && value[2] as char == 'o'
            && value[3] as char == 'P' && value[4] as char == ' ');
        let dpop = head.dpop@[0]@;
        assert forall|i: int| 0 <= i < dpop.len() implies 32 <= (#[trigger] dpop[i]) < 127
            || dpop[i] == 9 by {
            assert(crate::middleware::is_visible(dpop[i]));
        }
    }
}

/// A request with an `Authorization` header that is `DPoP ` with a token behind it, and with
/// one `DPoP` header, both of visible characters, spaces and tabs, has credentials.
pub proof fn law_well_formed_headers_are_read(head: RequestHead)
    requires
        head.authorization is Some,
        head.authorization->0@.len() >= 5,
        head.authorization->0@[0] == 68,
        head.authorization->0@[1] == 80,
        head.authorization->0@[2] == 111,
        head.authorization->0@[3] == 80,
        head.authorization->0@[4] == 32,
        forall|i: int|
            0 <= i < head.authorization->0@.len() ==> 32 <= (#[trigger] head.authorization->0@[i])
                < 127 || head.authorization->0@[i] == 9,
        head.dpop@.len() == 1,
        forall|i: int|
            0 <= i < head.dpop@[0]@.len() ==> 32 <= (#[trigger] head.dpop@[0]@[i]) < 127
                || head.dpop@[0]@[i] == 9,
    ensures
        extraction(head) is Ok,
{
    reveal_strlit("DPoP ");
    let value = head.authorization->0@;
    let dpop = head.dpop@[0]@;
    assert forall|i: int| 0 <= i < value.len() implies crate::middleware::is_visible(
        #[trigger] value[i],
    ) by {
        assert(32 <= value[i] < 127 || value[i] == 9);
    }
    assert forall|i: int| 0 <= i < dpop.len() implies crate::middleware::is_visible(
        #[trigger] dpop[i],
    ) by {
        assert(32 <= dpop[i] < 127 || dpop[i] == 9);
    }
    let text = Seq::new(value.len(), |i: int| value[i] as char);
    assert(crate::middleware::header_chars(value) == Some(text));
    let start = "DPoP "@;
    assert(text[0] == 'D' && text[1] == 'P' && text[2] == 'o' && text[3] == 'P' && text[4] == ' ');
    assert(text.take(5) =~= start);
}

/// A request without an `Authorization` header of the scheme `DPoP`, or without a `DPoP`
/// header, is refused for that; one with two is refused.
pub proof fn law_missing_credentials_are_named(head: RequestHead)
    ensures
        head.authorization is None ==> extraction(head) == Err::<CredentialsView, _>(
            DpopErrorView::MissingHeader,
        ),
        head.dpop@.len() == 0 ==> extraction(head) == Err::<CredentialsView, _>(
            DpopErrorView::MissingHeader,
        ),
        head.dpop@.len() > 1 ==> extraction(head) is Err,
        head.dpop@.len() > 1 && !(extraction(head)->Err_0 is MissingHeader) ==> extraction(head)
            == Err::<CredentialsView, _>(
            DpopErrorView::InvalidSignature("multiple DPoP headers present"@),
        ),
{
}

/// What a handler gets is what the middleware found: subject, identifier and key of the
/// session. Without a session it gets nothing.
pub proof fn law_handler_gets_the_session<T: FromExtra>(
    session: ValidatedSession,
    result: Result<DpopSession<T>, crate::error::DpopError>,
    other: Result<DpopSession<T>, crate::error::DpopError>,
)
    requires
        is_extraction::<T>(Some(session), result),
        is_extraction::<T>(None, other),
    ensures
        result matches Ok(given) ==> given.sub@ == session@.sub && given.jti@ == session@.jti
            && given.jkt@ == session@.jkt,
        other matches Err(error) && error@ == DpopErrorView::MissingHeader,
{
}

/// What is said of credentials and sessions is said of their fields.
pub proof fn law_views_show_the_fields(credentials: Credentials, session: ValidatedSession)
    ensures
        credentials@.token == credentials.token@,
        credentials@.proof == credentials.proof@,
        credentials@.method == credentials.method@,
        credentials@.path == credentials.path@,
        session@.sub == session.sub@,
        session@.jti == session.jti@,
        session@.jkt == session.jkt@,
        session@.extra == session.extra@,
{
}

/// The target of a path is the public URL without the slashes at its end, with the path
/// behind it.
pub proof fn law_target_is_the_path_under_the_public_url(
    public_url: &str,
    path: &str,
    base: Seq<char>,
    htu: String,
)
    requires
        call_ensures(build_htu, (public_url, path), htu),
        is_base_of(base, public_url@),
    ensures
        htu@ == base + path@,
{
    lemma_base(base, public_url@);
}

/// A session is bound to its key: it is made exactly where the key of the token is that of
/// the proof, and is that of the token.
pub proof fn law_session_is_that_of_the_token(
    claims: AccessTokenClaims,
    proof: &ValidatedProof,
    result: Result<ValidatedSession, crate::error::DpopError>,
)
    requires
        call_ensures(bind_session, (claims, proof), result),
    ensures
        result is Ok <==> claims.cnf.jkt@ == proof.jwk_thumbprint@,
        result matches Ok(session) ==> session.sub@ == claims.sub@ && session.jti@ == claims.jti@
            && session.jkt@ == claims.cnf.jkt@ && session.extra@ == claims.extra@,
        result matches Err(error) ==> error@ == DpopErrorView::InvalidSignature("jkt mismatch"@),
{
}

} // verus!
