//! What holds of every validation of a proof: what it takes to be accepted, and what is said
//! of a proof that is not.

use vstd::prelude::*;

use crate::cache::{JtiCache, NonceCache};
use crate::crypto::{base64url, sha256};
use crate::dpop::{
    claims_in, decide_proof, host_len, htu_text, is_read_again, is_validation, is_web,
    is_web_target, judge_header, normalize_htu, proof_reading, proof_verdict, url_parts,
    validate_dpop_proof, Demands, DpopClaims, ProofDecision, ProofView, SignedProof, UrlParts,
    UrlPartsView, ValidatedProof, Validation, ValidationContext, MAX_HOST_LEN,
};
use crate::error::{DpopError, DpopErrorView};
use crate::jose::{
    jwk_key, jwk_thumbprint, token_header, verified_claims, Algorithm, TokenHeader,
};
use crate::json::{array_of_json, number_of_json, object_of_json, string_of_json};
use crate::text::{ascii_lower, bytes_of, decimal, outcome};

verus! {

/// Whether two characters are one, or the capital and the small form of one ASCII letter.
pub open spec fn is_same_letter(a: char, b: char) -> bool {
    ||| a == b
    ||| 'A' <= a && a <= 'Z' && b as int == a as int + 32
    ||| 'A' <= b && b <= 'Z' && a as int == b as int + 32
}

/// Whether two texts differ in the case of ASCII letters at most.
pub open spec fn same_letters(a: Seq<char>, b: Seq<char>) -> bool {
    a.len() == b.len() && forall|i: int| 0 <= i < a.len() ==> is_same_letter(#[trigger] a[i], b[i])
}

/// Characters are the same letter exactly when they have one lower case.
proof fn lemma_same_letter(a: char, b: char)
    ensures
        ascii_lower(a) == ascii_lower(b) <==> is_same_letter(a, b),
{
    assert(ascii_lower(a) as int == (if 'A' <= a && a <= 'Z' {
        a as int + 32
    } else {
        a as int
    }));
    assert(ascii_lower(b) as int == (if 'A' <= b && b <= 'Z' {
        b as int + 32
    } else {
        b as int
    }));
}

/// Texts with one lower case have the same letters.
proof fn lemma_same_letters(a: Seq<char>, b: Seq<char>)
    ensures
        crate::text::ascii_lowered(a) == crate::text::ascii_lowered(b) <==> same_letters(a, b),
{
    let (x, y) = (crate::text::ascii_lowered(a), crate::text::ascii_lowered(b));
    if x == y {
        assert(a.len() == x.len() && b.len() == y.len());
        assert forall|i: int| 0 <= i < a.len() implies is_same_letter(#[trigger] a[i], b[i]) by {
            assert(x[i] == y[i]);
            lemma_same_letter(a[i], b[i]);
        }
    }
    if same_letters(a, b) {
        assert forall|i: int| 0 <= i < a.len() implies #[trigger] x[i] == y[i] by {
            assert(is_same_letter(a[i], b[i]));
            lemma_same_letter(a[i], b[i]);
        }
        assert(x =~= y);
    }
}

/// The scheme of a URL ends where the first colon of its normal form stands: normal forms
/// that are equal have equal schemes.
proof fn lemma_schemes_are_equal(p: UrlPartsView, q: UrlPartsView)
    requires
        htu_text(p) == htu_text(q),
        !p.scheme.contains(':'),
        !q.scheme.contains(':'),
    ensures
        p.scheme == q.scheme,
{
    reveal_strlit("://");
    let text = htu_text(p);
    let (a, b) = (p.scheme, q.scheme);
    assert(text[a.len() as int] == ':');
    assert(text[b.len() as int] == ':');
    if a.len() < b.len() {
        assert(b[a.len() as int] == ':');
    }
    if b.len() < a.len() {
        assert(a[b.len() as int] == ':');
    }
    assert(a =~= text.take(a.len() as int));
    assert(b =~= text.take(b.len() as int));
}

/// The scheme of an `http` or `https` URL holds no colon.
proof fn lemma_web_scheme_has_no_colon(p: UrlPartsView)
    requires
        is_web(p),
    ensures
        !p.scheme.contains(':'),
{
    reveal_strlit("http");
    reveal_strlit("https");
}

/// A proof is accepted for its own target alone: where the target of the request is an
/// `http` or `https` URL, the `htu` of an accepted proof is a URL with the same scheme, the
/// same host, the same port and the same path.
pub proof fn law_accepted_proof_is_for_the_target(
    proof: ProofView,
    demands: Demands,
    claimed: UrlPartsView,
    expected: UrlPartsView,
    now: u64,
    nonce_known: bool,
    new_nonce: Seq<char>,
    fresh: bool,
)
    requires
        proof_verdict(Ok(proof), demands, now, nonce_known, new_nonce, fresh) is Ok,
        url_parts(proof.claims.htu) == Some(claimed),
        url_parts(demands.htu) == Some(expected),
        is_read_again(claimed),
        is_read_again(expected),
        expected.scheme == "http"@ || expected.scheme == "https"@,
        !claimed.scheme.contains(':'),
        host_len(claimed) <= MAX_HOST_LEN,
        host_len(expected) <= MAX_HOST_LEN,
    ensures
        claimed.scheme == expected.scheme,
        claimed.host == expected.host,
        claimed.port == expected.port,
        claimed.path == expected.path,
{
    lemma_web_scheme_has_no_colon(expected);
    lemma_schemes_are_equal(claimed, expected);
}

/// A proof for another target is refused: where everything else is in order and both targets
/// are `http` or `https` URLs, one difference in scheme, host, port or path is enough.
pub proof fn law_other_target_is_refused(
    proof: ProofView,
    demands: Demands,
    claimed: UrlPartsView,
    expected: UrlPartsView,
    now: u64,
    nonce_known: bool,
    new_nonce: Seq<char>,
    fresh: bool,
)
    requires
        url_parts(proof.claims.htu) == Some(claimed),
        url_parts(demands.htu) == Some(expected),
        is_read_again(claimed),
        is_read_again(expected),
        claimed.scheme == "http"@ || claimed.scheme == "https"@,
        expected.scheme == "http"@ || expected.scheme == "https"@,
        host_len(claimed) <= MAX_HOST_LEN,
        host_len(expected) <= MAX_HOST_LEN,
        claimed.scheme != expected.scheme || claimed.host != expected.host || claimed.port
            != expected.port || claimed.path != expected.path,
        proof.claims.iat <= now + demands.window,
        now <= proof.claims.iat + demands.window,
        same_letters(proof.claims.htm, demands.htm),
    ensures
        proof_verdict(Ok(proof), demands, now, nonce_known, new_nonce, fresh) == Err::<
            ProofView,
            _,
        >(DpopErrorView::HtuMismatch),
{
    lemma_same_letters(proof.claims.htm, demands.htm);
    assert(claimed != expected);
}

/// Of any URLs: an accepted proof and the request name targets that read alike, scheme,
/// host, port and path written one behind the other.
pub proof fn law_accepted_targets_read_alike(
    proof: ProofView,
    demands: Demands,
    now: u64,
    nonce_known: bool,
    new_nonce: Seq<char>,
    fresh: bool,
)
    requires
        proof_verdict(Ok(proof), demands, now, nonce_known, new_nonce, fresh) is Ok,
    ensures
        ({
            let written = |url: UrlPartsView|
                url.scheme + "://"@ + (if let Some(host) = url.host {
                    host
                } else {
                    Seq::<char>::empty()
                }) + (if let Some(port) = url.port {
                    ":"@ + decimal(port as nat)
                } else {
                    Seq::<char>::empty()
                }) + url.path;
            &&& url_parts(proof.claims.htu) matches Some(claimed)
            &&& url_parts(demands.htu) matches Some(expected)
            &&& written(claimed) == written(expected)
        }),
{
}

/// What an accepted proof has shown: it is as new as the window asks for and not from the
/// future, it is for the method of the request, it carries a nonce of the server where one
/// is required, it is bound to the access token by the SHA-256 hash of it, and its `jti` was
/// never seen. What is handed on is the proof itself.
pub proof fn law_accepted_proof_meets_every_demand(
    reading: Result<ProofView, DpopErrorView>,
    demands: Demands,
    now: u64,
    nonce_known: bool,
    new_nonce: Seq<char>,
    fresh: bool,
)
    ensures
        proof_verdict(reading, demands, now, nonce_known, new_nonce, fresh) matches Ok(proof) ==> {
            &&& reading == Ok::<_, DpopErrorView>(proof)
            &&& proof.claims.iat <= now + demands.window
            &&& now <= proof.claims.iat + demands.window
            &&& same_letters(proof.claims.htm, demands.htm)
            &&& url_parts(proof.claims.htu) is Some
            &&& url_parts(demands.htu) is Some
            &&& demands.nonce_required ==> nonce_known
            &&& demands.access_token matches Some(token) ==> proof.claims.ath == Some(
                base64url(sha256(bytes_of(token))),
            )
            &&& fresh
        },
{
    if let Ok(proof) = reading {
        lemma_same_letters(proof.claims.htm, demands.htm);
    }
}

/// A proof that meets every demand is accepted.
pub proof fn law_proof_that_meets_every_demand_is_accepted(
    proof: ProofView,
    demands: Demands,
    now: u64,
    nonce_known: bool,
    new_nonce: Seq<char>,
)
    requires
        proof.claims.iat <= now + demands.window,
        now <= proof.claims.iat + demands.window,
        same_letters(proof.claims.htm, demands.htm),
        url_parts(proof.claims.htu) is Some,
        url_parts(proof.claims.htu) == url_parts(demands.htu),
        demands.nonce_required ==> nonce_known,
        demands.access_token matches Some(token) ==> proof.claims.ath == Some(
            base64url(sha256(bytes_of(token))),
        ),
    ensures
        proof_verdict(Ok(proof), demands, now, nonce_known, new_nonce, true) == Ok::<
            _,
            DpopErrorView,
        >(proof),
{
    lemma_same_letters(proof.claims.htm, demands.htm);
}

/// What is said of a proof with one thing wrong. A proof that cannot be read is refused for
/// that; one out of its window is expired, whatever else is wrong with it; one for another
/// method is told both methods; a missing nonce is answered with a new one, which comes as
/// an error of the endpoint; a missing or wrong hash of the token is named; and one whose
/// `jti` is known is a replay.
pub proof fn law_refusal_says_what_is_wrong(
    proof: ProofView,
    error: DpopErrorView,
    demands: Demands,
    now: u64,
    nonce_known: bool,
    new_nonce: Seq<char>,
    fresh: bool,
)
    ensures
        ({
            let verdict = |known: bool, new: bool|
                proof_verdict(Ok(proof), demands, now, known, new_nonce, new);
            let in_time = proof.claims.iat <= now + demands.window && now <= proof.claims.iat
                + demands.window;
            let method = same_letters(proof.claims.htm, demands.htm);
            let target = url_parts(proof.claims.htu) is Some && url_parts(proof.claims.htu)
                == url_parts(demands.htu);
            let refused = |reason: DpopErrorView| Err::<ProofView, _>(reason);
            &&& proof_verdict(Err(error), demands, now, nonce_known, new_nonce, fresh) == refused(
                error,
            )
            &&& !in_time ==> verdict(nonce_known, fresh) == refused(DpopErrorView::Expired)
            &&& in_time && !method ==> verdict(nonce_known, fresh) == refused(
                DpopErrorView::HtmMismatch { expected: demands.htm, got: proof.claims.htm },
            )
            &&& in_time && method && (url_parts(proof.claims.htu) is None || url_parts(
                demands.htu,
            ) is None) ==> verdict(nonce_known, fresh) == refused(DpopErrorView::HtuMismatch)
            &&& in_time && method && target && demands.nonce_required ==> verdict(false, fresh)
                == refused(
                if demands.access_token is Some {
                    DpopErrorView::ResourceNonceRequired(new_nonce)
                } else {
                    DpopErrorView::TokenNonceRequired(new_nonce)
                },
            )
            &&& in_time && method && target ==> (demands.access_token matches Some(token) ==> {
                &&& proof.claims.ath is None ==> verdict(true, fresh) == refused(
                    DpopErrorView::InvalidSignature("missing ath claim in resource proof"@),
                )
                &&& proof.claims.ath matches Some(hash) ==> hash != base64url(
                    sha256(bytes_of(token)),
                ) ==> verdict(true, fresh) == refused(
                    DpopErrorView::InvalidSignature("ath mismatch"@),
                )
            })
            &&& in_time && method && target && (demands.access_token matches Some(token)
                ==> proof.claims.ath == Some(base64url(sha256(bytes_of(token)))))
                ==> verdict(true, false) == refused(DpopErrorView::JtiReplay)
        }),
{
    lemma_same_letters(proof.claims.htm, demands.htm);
}

/// A call that validates a proof has read it from the context, and the proof is for the
/// method and the target in it: where the targets are `http` or `https` URLs, they have one
/// scheme, one host, one port and one path. It is bound to the access token, if there is
/// one, and the thumbprint is that of its key.
pub proof fn law_call_validates_for_its_own_target(
    ctx: ValidationContext<'_>,
    result: Result<ValidatedProof, DpopError>,
)
    requires
        call_ensures(validate_dpop_proof, (ctx,), result),
        result is Ok,
    ensures
        ({
            let proof = result->Ok_0;
            &&& proof_reading(ctx.proof@, ctx.allowed_algs@) == Ok::<_, DpopErrorView>(proof@)
            &&& same_letters(proof.claims.htm@, ctx.expected_htm@)
            &&& url_parts(proof.claims.htu@) matches Some(claimed)
            &&& url_parts(ctx.expected_htu@) matches Some(expected)
            &&& (claimed.scheme == "http"@ || claimed.scheme == "https"@) && (expected.scheme
                == "http"@ || expected.scheme == "https"@) && host_len(claimed) <= 2000
                && host_len(expected) <= 2000 ==> {
                &&& claimed.scheme == expected.scheme
                &&& claimed.host == expected.host
                &&& claimed.port == expected.port
                &&& claimed.path == expected.path
            }
            &&& ctx.access_token matches Some(token) ==> proof@.claims.ath == Some(
                base64url(sha256(bytes_of(token@))),
            )
            &&& jwk_thumbprint(proof.jwk.json@) == Some(proof.jwk_thumbprint@)
        }),
{
    let reading = proof_reading(ctx.proof@, ctx.allowed_algs@);
    let (now, known, nonce, fresh) = choose|
        now: u64,
        known: bool,
        nonce: Seq<char>,
        fresh: bool,
    |
        outcome(result) == #[trigger] proof_verdict(
            reading,
            ctx.demands(),
            now,
            known,
            nonce,
            fresh,
        );
    law_accepted_proof_meets_every_demand(reading, ctx.demands(), now, known, nonce, fresh);
}

/// A call that decides about a proof refuses it where it is for another target: where both
/// are `http` or `https` URLs, one difference in scheme, host, port or path is enough.
pub proof fn law_call_refuses_another_target(
    proof: SignedProof,
    ctx: &ValidationContext<'_>,
    now: u64,
    nonce_known: bool,
    decision: ProofDecision,
    claimed: UrlPartsView,
    expected: UrlPartsView,
)
    requires
        call_ensures(decide_proof, (proof, ctx, now, nonce_known), decision),
        url_parts(proof.claims.htu@) == Some(claimed),
        url_parts(ctx.expected_htu@) == Some(expected),
        claimed.scheme == "http"@ || claimed.scheme == "https"@,
        expected.scheme == "http"@ || expected.scheme == "https"@,
        host_len(claimed) <= 2000,
        host_len(expected) <= 2000,
        claimed.scheme != expected.scheme || claimed.host != expected.host || claimed.port
            != expected.port || claimed.path != expected.path,
    ensures
        decision matches ProofDecision::Refuse(error) && {
            let in_time = proof.claims.iat <= now + crate::time::duration_secs(ctx.clock_skew)
                && now <= proof.claims.iat + crate::time::duration_secs(ctx.clock_skew);
            in_time && same_letters(proof.claims.htm@, ctx.expected_htm@) ==> error@
                == DpopErrorView::HtuMismatch
        },
{
    lemma_same_letters(proof.claims.htm@, ctx.expected_htm@);
    assert(claimed != expected);
    assert(is_web_target(proof@.claims.htu));
    assert(is_web_target(ctx.expected_htu@));
}

/// What a request demands is what stands in its context.
pub proof fn law_demands_are_those_of_the_context(ctx: ValidationContext<'_>)
    ensures
        ctx.demands().htm == ctx.expected_htm@,
        ctx.demands().htu == ctx.expected_htu@,
        ctx.access_token is None ==> ctx.demands().access_token is None,
        ctx.access_token matches Some(token) ==> ctx.demands().access_token == Some(token@),
        ctx.demands().nonce_required == ctx.nonce_required,
        ctx.demands().window == crate::time::duration_secs(ctx.clock_skew),
{
}

/// What a validation does in the caches. It looks up the nonce of the proof, or the empty
/// text, among the nonces. Where it accepts the proof, it has claimed its `jti` among the
/// `jti`s, which was new, and where a nonce is required it has found the nonce. It claims
/// none for a proof with anything else wrong. The nonce of a challenge is one that it put
/// among the nonces.
pub proof fn law_validation_asks_the_right_caches(
    proof: ProofView,
    demands: Demands,
    jti_cache: JtiCache,
    nonce_cache: NonceCache,
    now: u64,
    validation: Validation,
)
    requires
        is_validation(Ok(proof), demands, jti_cache, nonce_cache, now, validation),
    ensures
        validation.lookup matches Some(lookup) && lookup.cache() == nonce_cache && lookup.text()
            == (if let Some(nonce) = proof.claims.nonce {
            nonce
        } else {
            Seq::<char>::empty()
        }),
        validation.result is Ok ==> {
            &&& validation.claim matches Some(claim)
            &&& claim.cache() == jti_cache
            &&& claim.text() == proof.claims.jti
            &&& claim.fresh()
            &&& demands.nonce_required ==> validation.lookup->0.found()
            &&& outcome(validation.result) == Ok::<_, DpopErrorView>(proof)
        },
        validation.claim matches Some(claim) && !claim.fresh() ==> outcome(validation.result)
            == Err::<ProofView, _>(DpopErrorView::JtiReplay),
        validation.claim is Some ==> {
            &&& demands.nonce_required ==> validation.lookup->0.found()
            &&& proof.claims.iat <= now + demands.window
            &&& now <= proof.claims.iat + demands.window
            &&& same_letters(proof.claims.htm, demands.htm)
            &&& url_parts(proof.claims.htu) is Some
            &&& url_parts(demands.htu) is Some
            &&& demands.access_token matches Some(token) ==> proof.claims.ath == Some(
                base64url(sha256(bytes_of(token))),
            )
        },
        validation.issued is Some ==> demands.nonce_required && !validation.lookup->0.found(),
        outcome(validation.result) matches Err(DpopErrorView::TokenNonceRequired(nonce)) ==> {
            &&& validation.issued matches Some(entry)
            &&& entry.cache() == nonce_cache
            &&& entry.text() == nonce
        },
        outcome(validation.result) matches Err(DpopErrorView::ResourceNonceRequired(nonce)) ==> {
            &&& validation.issued matches Some(entry)
            &&& entry.cache() == nonce_cache
            &&& entry.text() == nonce
        },
{
    assert(proof.claims.nonce is None ==> crate::dpop::nonce_asked(proof.claims)
        =~= Seq::<char>::empty());
    lemma_same_letters(proof.claims.htm, demands.htm);
}

/// A proof that cannot be read is refused for that, and touches no cache.
pub proof fn law_unreadable_proof_touches_no_cache(
    error: DpopErrorView,
    demands: Demands,
    jti_cache: JtiCache,
    nonce_cache: NonceCache,
    now: u64,
    validation: Validation,
)
    requires
        is_validation(Err(error), demands, jti_cache, nonce_cache, now, validation),
    ensures
        outcome(validation.result) == Err::<ProofView, _>(error),
        validation.lookup is None,
        validation.issued is None,
        validation.claim is None,
{
}

/// What a proof that can be read is: at most 8192 bytes long, of the type `dpop+jwt`, signed
/// with an allowed algorithm under the key in its header, with the thumbprint of that key.
pub proof fn law_read_proof_is_signed_by_its_key(proof: Seq<char>, allowed_algs: Seq<Algorithm>)
    ensures
        proof_reading(proof, allowed_algs) matches Ok(read) ==> {
            &&& bytes_of(proof).len() <= 8192
            &&& token_header(proof) matches Ok(header)
            &&& header.typ == Some("dpop+jwt"@)
            &&& exists|i: int|
                0 <= i < allowed_algs.len() && (#[trigger] allowed_algs[i]).spec_name()
                    == header.alg
            &&& header.jwk == Some(read.jwk)
            &&& jwk_thumbprint(read.jwk) == Some(read.jwk_thumbprint)
            &&& jwk_key(read.jwk) matches Ok(key)
            &&& verified_claims(header.alg, key, proof) matches Ok(json)
            &&& claims_in(json) == Ok::<_, Seq<char>>(read.claims)
        },
{
}

/// A proof that is not too long, has the type and an allowed algorithm, and is signed under
/// the key in its header, is read with the claims in it.
pub proof fn law_signed_proof_is_read(
    proof: Seq<char>,
    allowed_algs: Seq<Algorithm>,
    i: int,
    json: Seq<char>,
)
    requires
        bytes_of(proof).len() <= 8192,
        token_header(proof) is Ok,
        token_header(proof)->Ok_0.typ == Some("dpop+jwt"@),
        0 <= i < allowed_algs.len(),
        allowed_algs[i].spec_name() == token_header(proof)->Ok_0.alg,
        token_header(proof)->Ok_0.jwk is Some,
        jwk_thumbprint(token_header(proof)->Ok_0.jwk->0) is Some,
        jwk_key(token_header(proof)->Ok_0.jwk->0) is Ok,
        verified_claims(
            token_header(proof)->Ok_0.alg,
            jwk_key(token_header(proof)->Ok_0.jwk->0)->Ok_0,
            proof,
        ) == Ok::<_, Seq<char>>(json),
        claims_in(json) is Ok,
    ensures
        proof_reading(proof, allowed_algs) == Ok::<_, DpopErrorView>(
            ProofView {
                jwk: token_header(proof)->Ok_0.jwk->0,
                claims: claims_in(json)->Ok_0,
                jwk_thumbprint: jwk_thumbprint(token_header(proof)->Ok_0.jwk->0)->0,
            },
        ),
{
}

/// The claims of a proof that is a JSON object stand under their names.
pub proof fn law_claims_stand_under_their_names(json: Seq<char>)
    requires
        object_of_json(json) is Some,
    ensures
        claims_in(json) matches Ok(claims) ==> {
            let members = object_of_json(json)->0;
            &&& members.dom().contains("htm"@) && string_of_json(members["htm"@]) == Some(
                claims.htm,
            )
            &&& members.dom().contains("htu"@) && string_of_json(members["htu"@]) == Some(
                claims.htu,
            )
            &&& members.dom().contains("iat"@) && number_of_json(members["iat"@]) == Some(
                claims.iat,
            )
            &&& members.dom().contains("jti"@) && string_of_json(members["jti"@]) == Some(
                claims.jti,
            )
            &&& claims.nonce matches Some(nonce) ==> members.dom().contains("nonce"@)
                && string_of_json(members["nonce"@]) == Some(nonce)
            &&& claims.nonce is None && members.dom().contains("nonce"@) ==> members["nonce"@]
                == "null"@
            &&& claims.ath matches Some(ath) ==> members.dom().contains("ath"@) && string_of_json(
                members["ath"@],
            ) == Some(ath)
            &&& claims.ath is None && members.dom().contains("ath"@) ==> members["ath"@]
                == "null"@
        },
{
}

/// What is said of a proof, and of a URL, is said of their fields.
pub proof fn law_views_show_the_fields(
    claims: DpopClaims,
    signed: SignedProof,
    validated: ValidatedProof,
    parts: UrlParts,
)
    ensures
        claims@.htm == claims.htm@ && claims@.htu == claims.htu@ && claims@.iat == claims.iat
            && claims@.jti == claims.jti@,
        claims.nonce is Some <==> claims@.nonce is Some,
        claims.nonce matches Some(nonce) ==> claims@.nonce == Some(nonce@),
        claims.ath is Some <==> claims@.ath is Some,
        claims.ath matches Some(ath) ==> claims@.ath == Some(ath@),
        signed@.jwk == signed.jwk.json@ && signed@.claims == signed.claims@
            && signed@.jwk_thumbprint == signed.jwk_thumbprint@,
        validated@.jwk == validated.jwk.json@ && validated@.claims == validated.claims@
            && validated@.jwk_thumbprint == validated.jwk_thumbprint@,
        parts@.scheme == parts.scheme@ && parts@.port == parts.port && parts@.path == parts.path@,
        parts.host is Some <==> parts@.host is Some,
        parts.host matches Some(host) ==> parts@.host == Some(host@),
{
}

/// A header is accepted exactly when its type is `dpop+jwt`, its algorithm is one of the
/// allowed ones, and it carries a key; what is handed on are this algorithm and this key.
pub proof fn law_header_is_judged_by_its_parts(
    header: TokenHeader,
    allowed_algs: &[Algorithm],
    result: Result<(String, String), DpopError>,
)
    requires
        call_ensures(judge_header, (header, allowed_algs), result),
    ensures
        ({
            let typed = header.typ matches Some(typ) && typ@ == "dpop+jwt"@;
            let allowed = exists|i: int|
                0 <= i < allowed_algs@.len() && (#[trigger] allowed_algs@[i]).spec_name()
                    == header.alg@;
            &&& result is Ok <==> typed && allowed && header.jwk is Some
            &&& result matches Ok(pair) ==> pair.0@ == header.alg@ && pair.1@ == header.jwk->0@
            &&& !typed ==> result->Err_0 is InvalidTyp
            &&& typed && !allowed ==> result->Err_0 is InvalidAlgorithm
            &&& typed && allowed && header.jwk is None ==> result->Err_0@
                == DpopErrorView::InvalidSignature("jwk missing in header"@)
        }),
{
    assert(header@.alg == header.alg@);
}

/// The normal form of a URL is its scheme, its host, its port unless it is the default one,
/// and its path, and nothing else.
pub proof fn law_normal_form_has_the_parts(raw: &str, text: String, parts: UrlPartsView)
    requires
        call_ensures(normalize_htu, (raw,), Ok(text)),
        url_parts(raw@) == Some(parts),
    ensures
        text@ == parts.scheme + "://"@ + (if parts.host is Some {
            parts.host->0
        } else {
            Seq::<char>::empty()
        }) + (if parts.port is Some {
            ":"@ + decimal(parts.port->0 as nat)
        } else {
            Seq::<char>::empty()
        }) + parts.path,
        (parts.scheme == "http"@ || parts.scheme == "https"@) && host_len(parts) <= 2000
            ==> url_parts(text@) == Some(parts),
{
}

/// The claims of a proof that is a JSON array stand in it in their order: `htm`, `htu`,
/// `iat`, `jti`, `nonce` and `ath`.
pub proof fn law_listed_claims_stand_in_their_order(json: Seq<char>)
    requires
        object_of_json(json) is None,
        array_of_json(json) is Some,
    ensures
        claims_in(json) matches Ok(claims) ==> {
            let items = array_of_json(json)->0;
            &&& 4 <= items.len() <= 6
            &&& string_of_json(items[0]) == Some(claims.htm)
            &&& string_of_json(items[1]) == Some(claims.htu)
            &&& number_of_json(items[2]) == Some(claims.iat)
            &&& string_of_json(items[3]) == Some(claims.jti)
            &&& claims.nonce matches Some(nonce) ==> items.len() > 4 && string_of_json(items[4])
                == Some(nonce)
            &&& claims.ath matches Some(ath) ==> items.len() > 5 && string_of_json(items[5])
                == Some(ath)
        },
{
    reveal_strlit("htm");
    reveal_strlit("htu");
    reveal_strlit("iat");
    reveal_strlit("jti");
    reveal_strlit("nonce");
    reveal_strlit("ath");
    let (htm, htu, iat, jti, nonce, ath) = ("htm"@, "htu"@, "iat"@, "jti"@, "nonce"@, "ath"@);
    assert(htm[2] == 'm' && htu[2] == 'u' && iat[0] == 'i' && jti[0] == 'j' && nonce.len() == 5
        && ath[0] == 'a' && htm[0] == 'h' && htu[0] == 'h');
    reveal_with_fuel(crate::claims::named, 7);
    let items = array_of_json(json)->0;
    if items.len() >= 4 && items.len() <= 6 {
        let names = seq![htm, htu, iat, jti, nonce, ath];
        let members = crate::claims::named(names, items);
        lemma_named(names, items);
        assert(members[names[0]] == items[0]);
        assert(members[names[1]] == items[1]);
        assert(members[names[2]] == items[2]);
        assert(members[names[3]] == items[3]);
        if items.len() > 4 {
            assert(members[names[4]] == items[4]);
        } else {
            assert(!members.dom().contains(names[4]));
        }
        if items.len() > 5 {
            assert(members[names[5]] == items[5]);
        } else {
            assert(!members.dom().contains(names[5]));
        }
    }
}

/// Members with different names have their own values, and no others are there.
proof fn lemma_named(names: Seq<Seq<char>>, items: Seq<Seq<char>>)
    requires
        items.len() <= names.len(),
        forall|i: int, j: int| 0 <= i < j < names.len() ==> names[i] != names[j],
    ensures
        forall|i: int|
            0 <= i < names.len() ==> {
                let members = crate::claims::named(names, items);
                &&& members.dom().contains(#[trigger] names[i]) <==> i < items.len()
                &&& i < items.len() ==> members[names[i]] == items[i]
            },
    decreases items.len(),
{
    if items.len() > 0 {
        lemma_named(names, items.drop_last());
    }
}

} // verus!
