//! The decisions of the DPoP middleware: which requests are authenticated.

use vstd::prelude::*;

use crate::cache::{JtiCache, NonceCache};
use crate::config::DpopConfigView;
use crate::crypto::ath;
use crate::dpop::{
    challenges_with_uuid, in_window, is_for_target, is_validation, proof_decision, proof_reading,
    proof_verdict, validate_dpop_proof, Demands, ProofDecisionView, ProofView, ValidatedProof,
    Validation, ValidationContext,
};
use crate::error::{DpopError, DpopErrorView};
use crate::extractor::{SessionView, ValidatedSession};
use crate::state::DpopState;
use crate::text::{
    after_prefix, joined, optional, outcome, same, strip_prefix, trim_end, trimmed_end,
};
use crate::token::{
    extra_members, reads_back_as, verification, verify_access_token, AccessTokenClaims,
    AccessTokenClaimsView,
};
use crate::time::duration_secs;

pub mod laws;

verus! {

/// The parts of a request that authentication reads.
#[derive(Debug, Clone)]
pub struct RequestHead {
    /// The value of the first `Authorization` header, if there is one.
    pub authorization: Option<Vec<u8>>,
    /// The values of all `DPoP` headers.
    pub dpop: Vec<Vec<u8>>,
    /// The HTTP method.
    pub method: String,
    /// The path of the request URI.
    pub path: String,
}

/// The credentials in a request, with the method and the path that they are for.
#[derive(Debug, Clone)]
pub struct Credentials {
    /// The access token.
    pub token: String,
    /// The DPoP proof.
    pub proof: String,
    /// The HTTP method.
    pub method: String,
    /// The path of the request URI.
    pub path: String,
}

/// [`Credentials`] as character sequences.
#[verifier::ext_equal]
pub struct CredentialsView {
    pub token: Seq<char>,
    pub proof: Seq<char>,
    pub method: Seq<char>,
    pub path: Seq<char>,
}

impl View for Credentials {
    type V = CredentialsView;

    open spec fn view(&self) -> CredentialsView {
        CredentialsView {
            token: self.token@,
            proof: self.proof@,
            method: self.method@,
            path: self.path@,
        }
    }
}

/// Whether a byte may stand in a header that is read as text: visible ASCII, a space or
/// a tab.
pub open spec fn is_visible(byte: u8) -> bool {
    (32 <= byte && byte < 127) || byte == 9
}

/// The text of a header value, if it holds visible ASCII only.
pub open spec fn header_chars(value: Seq<u8>) -> Option<Seq<char>> {
    if forall|i: int| 0 <= i < value.len() ==> is_visible(#[trigger] value[i]) {
        Some(Seq::new(value.len(), |i: int| value[i] as char))
    } else {
        None
    }
}

/// The text of a header value, if it holds visible ASCII only.
pub fn header_text(value: &[u8]) -> (text: Option<String>)
    ensures
        optional(text) == header_chars(value@),
{
    let mut text = String::new();
    let mut i: usize = 0;
    while i < value.len()
        invariant
            i <= value@.len(),
            forall|j: int| 0 <= j < i ==> is_visible(#[trigger] value@[j]),
            text@ =~= Seq::new(i as nat, |j: int| value@[j] as char),
        decreases value@.len() - i,
    {
        let byte: u8 = value[i];
        if !((32 <= byte && byte < 127) || byte == 9) {
            assert(!is_visible(value@[i as int]));
            return None;
        }
        text.push(byte as char);
        i += 1;
    }
    Some(text)
}

/// The outcome of reading the `DPoP` headers of a request.
pub open spec fn one_dpop_header(values: Seq<Vec<u8>>) -> Result<Seq<char>, DpopErrorView> {
    if values.len() == 0 {
        Err(DpopErrorView::MissingHeader)
    } else if values.len() > 1 {
        Err(DpopErrorView::InvalidSignature("multiple DPoP headers present"@))
    } else {
        match header_chars(values[0]@) {
            Some(text) => Ok(text),
            None => Err(DpopErrorView::InvalidSignature("invalid DPoP header encoding"@)),
        }
    }
}

/// Extract exactly one `DPoP` header value.
pub fn exactly_one_dpop_header(values: &Vec<Vec<u8>>) -> (result: Result<String, DpopError>)
    ensures
        outcome(result) == one_dpop_header(values@),
{
    if values.len() == 0 {
        return Err(DpopError::MissingHeader);
    }
    if values.len() > 1 {
        return Err(DpopError::InvalidSignature("multiple DPoP headers present".to_owned()));
    }
    match header_text(&values[0]) {
        Some(text) => Ok(text),
        None => Err(DpopError::InvalidSignature("invalid DPoP header encoding".to_owned())),
    }
}

/// The access token in an `Authorization` header with the `DPoP` scheme.
pub open spec fn bearer_token(authorization: Option<Vec<u8>>) -> Option<Seq<char>> {
    match authorization {
        Some(value) => match header_chars(value@) {
            Some(text) => after_prefix(text, "DPoP "@),
            None => None,
        },
        None => None,
    }
}

/// The outcome of reading the credentials of a request.
pub open spec fn extraction(head: RequestHead) -> Result<CredentialsView, DpopErrorView> {
    match bearer_token(head.authorization) {
        None => Err(DpopErrorView::MissingHeader),
        Some(token) => match one_dpop_header(head.dpop@) {
            Err(error) => Err(error),
            Ok(proof) => Ok(
                CredentialsView { token, proof, method: head.method@, path: head.path@ },
            ),
        },
    }
}

/// Extract the authorization token, proof, method and path from a request.
pub fn extract(head: &RequestHead) -> (result: Result<Credentials, DpopError>)
    ensures
        outcome(result) == extraction(*head),
{
    let token = match &head.authorization {
        Some(value) => match header_text(value) {
            Some(text) => strip_prefix(&text, "DPoP "),
            None => None,
        },
        None => None,
    };
    let token = match token {
        Some(token) => token,
        None => return Err(DpopError::MissingHeader),
    };
    match exactly_one_dpop_header(&head.dpop) {
        Ok(proof) => Ok(
            Credentials { token, proof, method: head.method.clone(), path: head.path.clone() },
        ),
        Err(error) => Err(error),
    }
}

/// The target URI of a path under the public URL.
pub open spec fn htu_of(public_url: Seq<char>, path: Seq<char>) -> Seq<char> {
    trimmed_end(public_url, '/') + path
}

/// The target URI of a path under the public URL.
pub fn build_htu(public_url: &str, path: &str) -> (htu: String)
    ensures
        htu@ == htu_of(public_url@, path@),
{
    joined(&trim_end(public_url, '/'), path)
}

/// What a request demands of the proof that comes with an access token.
pub open spec fn resource_demands(config: DpopConfigView, credentials: CredentialsView) -> Demands {
    Demands {
        htm: credentials.method,
        htu: htu_of(config.public_url, credentials.path),
        access_token: Some(credentials.token),
        nonce_required: config.nonce_required,
        window: duration_secs(config.clock_skew) as nat,
    }
}

/// The session of a verified token and a validated proof: the token must be bound to the
/// key of the proof.
pub open spec fn binding(claims: AccessTokenClaimsView, proof: ProofView) -> Result<
    SessionView,
    DpopErrorView,
> {
    if claims.jkt != proof.jwk_thumbprint {
        Err(DpopErrorView::InvalidSignature("jkt mismatch"@))
    } else {
        Ok(
            SessionView {
                sub: claims.sub,
                jti: claims.jti,
                jkt: claims.jkt,
                extra: claims.extra,
            },
        )
    }
}

/// Binds a verified token to a validated proof.
pub fn bind_session(claims: AccessTokenClaims, proof: &ValidatedProof) -> (result: Result<
    ValidatedSession,
    DpopError,
>)
    ensures
        outcome(result) == binding(claims@, proof@),
{
    if !same(&claims.cnf.jkt, &proof.jwk_thumbprint) {
        return Err(DpopError::InvalidSignature("jkt mismatch".to_owned()));
    }
    Ok(
        ValidatedSession {
            sub: claims.sub,
            jti: claims.jti,
            jkt: claims.cnf.jkt,
            extra: claims.extra,
        },
    )
}

/// The outcome of authenticating a request: of the outcome of verifying its token and of
/// the outcome of validating its proof.
pub open spec fn authentication(
    verified: Result<AccessTokenClaimsView, DpopErrorView>,
    validated: Result<ProofView, DpopErrorView>,
) -> Result<SessionView, DpopErrorView> {
    match verified {
        Err(error) => Err(error),
        Ok(claims) => match validated {
            Err(error) => Err(error),
            Ok(proof) => binding(claims, proof),
        },
    }
}

/// The outcome of verifying the token in a request's credentials.
pub open spec fn token_outcome(
    config: DpopConfigView,
    credentials: CredentialsView,
    now: u64,
) -> Result<AccessTokenClaimsView, DpopErrorView> {
    verification(
        config.signer.algorithm(),
        config.signer.decoding_key(),
        credentials.token,
        config.issuer,
        config.audience,
        duration_secs(config.clock_skew) as nat,
        now,
    )
}

/// The outcome of validating the proof in a request's credentials.
pub open spec fn proof_outcome(
    config: DpopConfigView,
    credentials: CredentialsView,
    now: u64,
    nonce_known: bool,
    new_nonce: Seq<char>,
    fresh: bool,
) -> Result<ProofView, DpopErrorView> {
    proof_verdict(
        proof_reading(credentials.proof, config.allowed_algs),
        resource_demands(config, credentials),
        now,
        nonce_known,
        new_nonce,
        fresh,
    )
}

/// Whether a result is the outcome of authenticating a request's credentials, at some
/// times, and for some state of the caches.
pub open spec fn is_authentication(
    config: DpopConfigView,
    credentials: CredentialsView,
    result: Result<SessionView, DpopErrorView>,
) -> bool {
    exists|verified_at: u64, now: u64, nonce_known: bool, new_nonce: Seq<char>, fresh: bool|
        result == authentication(
            #[trigger] token_outcome(config, credentials, verified_at),
            #[trigger] proof_outcome(config, credentials, now, nonce_known, new_nonce, fresh),
        )
}

/// Whether a result comes from verifying a request's token and, where that is valid, from a
/// validation of its proof against the caches.
pub open spec fn is_authenticated(
    config: DpopConfigView,
    jti_cache: JtiCache,
    nonce_cache: NonceCache,
    credentials: CredentialsView,
    result: Result<SessionView, DpopErrorView>,
) -> bool {
    exists|verified_at: u64|
        match #[trigger] token_outcome(config, credentials, verified_at) {
            Err(error) => result == Err::<SessionView, _>(error),
            Ok(_) => exists|now: u64, validation: Validation| #[trigger]
                is_validation(
                    proof_reading(credentials.proof, config.allowed_algs),
                    resource_demands(config, credentials),
                    jti_cache,
                    nonce_cache,
                    now,
                    validation,
                ) && result == authentication(
                    token_outcome(config, credentials, verified_at),
                    outcome(validation.result),
                ),
        }
}

/// Whether a proof can be read and is for the target.
pub open spec fn is_proof_for(
    reading: Result<ProofView, DpopErrorView>,
    target: Seq<char>,
) -> bool {
    reading matches Ok(proof) && is_for_target(proof.claims.htu, target)
}

/// Authenticates the credentials of a request.
pub fn authenticate(state: &DpopState, credentials: Credentials) -> (result: Result<
    ValidatedSession,
    DpopError,
>)
    ensures
        is_authentication(state.config@, credentials@, outcome(result)),
        is_authenticated(
            state.config@,
            state.jti_cache,
            state.nonce_cache,
            credentials@,
            outcome(result),
        ),
        challenges_with_uuid(outcome(result)),
        result is Ok ==> is_proof_for(
            proof_reading(credentials.proof@, state.config.allowed_algs@),
            trimmed_end(state.config.public_url@, '/') + credentials.path@,
        ),
{
    let config = &state.config;
    let ghost (plan, given) = (state.config@, credentials@);
    let verified = verify_access_token(
        config.signer.algorithm(),
        config.signer.decoding_key(),
        &credentials.token,
        &config.issuer,
        &config.audience,
        config.clock_skew,
    );
    let ghost verified_at = choose|at: u64| outcome(verified) == token_outcome(plan, given, at);
    proof {
        let at = choose|at: u64|
            outcome(verified) == #[trigger] verification(
                plan.signer.algorithm(),
                plan.signer.decoding_key(),
                given.token,
                plan.issuer,
                plan.audience,
                duration_secs(plan.clock_skew) as nat,
                at,
            );
        assert(outcome(verified) == token_outcome(plan, given, at));
    }
    let claims = match verified {
        Ok(claims) => claims,
        Err(error) => {
            assert(outcome(Err::<ValidatedSession, _>(error)) == authentication(
                token_outcome(plan, given, verified_at),
                proof_outcome(plan, given, 0, true, seq![], true),
            ));
            return Err(error);
        },
    };
    let htu = build_htu(&config.public_url, &credentials.path);
    let validated = validate_dpop_proof(
        ValidationContext {
            proof: &credentials.proof,
            expected_htm: &credentials.method,
            expected_htu: &htu,
            access_token: Some(&credentials.token),
            nonce_required: config.nonce_required,
            clock_skew: config.clock_skew,
            allowed_algs: &config.allowed_algs,
            jti_cache: &state.jti_cache,
            nonce_cache: &state.nonce_cache,
        },
    );
    let ghost (at, validation) = choose|at: u64, validation: Validation| #[trigger]
        is_validation(
            proof_reading(given.proof, plan.allowed_algs),
            resource_demands(plan, given),
            state.jti_cache,
            state.nonce_cache,
            at,
            validation,
        ) && outcome(validated) == outcome(validation.result);
    let ghost (now, nonce_known, new_nonce, fresh) = choose|
        now: u64,
        nonce_known: bool,
        new_nonce: Seq<char>,
        fresh: bool,
    |
        outcome(validated) == #[trigger] proof_verdict(
            proof_reading(given.proof, plan.allowed_algs),
            resource_demands(plan, given),
            now,
            nonce_known,
            new_nonce,
            fresh,
        );
    assert(outcome(validated) == proof_outcome(plan, given, now, nonce_known, new_nonce, fresh));
    match validated {
        Ok(proof) => bind_session(claims, &proof),
        Err(error) => Err(error),
    }
}

/// Authenticates a request: reads its credentials, then verifies them.
pub fn authorize(state: &DpopState, head: &RequestHead) -> (result: Result<
    ValidatedSession,
    DpopError,
>)
    ensures
        match extraction(*head) {
            Err(error) => outcome(result) == Err::<SessionView, _>(error),
            Ok(credentials) => is_authentication(state.config@, credentials, outcome(result))
                && is_authenticated(
                state.config@,
                state.jti_cache,
                state.nonce_cache,
                credentials,
                outcome(result),
            ),
        },
        challenges_with_uuid(outcome(result)),
        result is Ok ==> extraction(*head) is Ok && is_proof_for(
            proof_reading(extraction(*head)->Ok_0.proof, state.config.allowed_algs@),
            trimmed_end(state.config.public_url@, '/') + head.path@,
        ),
{
    match extract(head) {
        Ok(credentials) => authenticate(state, credentials),
        Err(error) => Err(error),
    }
}

/// A session is granted only to the holder of the key that the token is bound to: the
/// thumbprint of the proof's key is the one in the token, the proof is bound to the token
/// by its hash, and both are fresh.
pub proof fn law_session_is_bound_to_its_key(
    config: DpopConfigView,
    credentials: CredentialsView,
    verified_at: u64,
    now: u64,
    nonce_known: bool,
    new_nonce: Seq<char>,
    fresh: bool,
)
    ensures
        authentication(
            token_outcome(config, credentials, verified_at),
            proof_outcome(config, credentials, now, nonce_known, new_nonce, fresh),
        ) matches Ok(session) ==> {
            let claims = token_outcome(config, credentials, verified_at)->Ok_0;
            let proof = proof_outcome(
                config,
                credentials,
                now,
                nonce_known,
                new_nonce,
                fresh,
            )->Ok_0;
            &&& token_outcome(config, credentials, verified_at) is Ok
            &&& proof_reading(credentials.proof, config.allowed_algs) == Ok::<_, DpopErrorView>(
                proof,
            )
            &&& session.sub == claims.sub && session.jti == claims.jti && session.extra
                == claims.extra
            &&& session.jkt == claims.jkt && session.jkt == proof.jwk_thumbprint
            &&& proof.claims.ath == Some(ath(credentials.token))
            &&& in_window(proof.claims.iat, now, duration_secs(config.clock_skew) as nat)
            &&& verified_at <= claims.exp + duration_secs(config.clock_skew)
            &&& fresh
        },
{
}

/// Whoever holds the key of an issued token is let in until the token expires: with a
/// proof that meets the demands of the request and is the first to claim its `jti`, the
/// session says what was issued.
pub proof fn law_holder_of_the_key_is_let_in(
    config: DpopConfigView,
    claims: AccessTokenClaimsView,
    proof: ProofView,
    credentials: CredentialsView,
    verified_at: u64,
    now: u64,
    nonce_known: bool,
    new_nonce: Seq<char>,
)
    requires
        reads_back_as(
            credentials.token,
            config.signer.algorithm(),
            config.signer.decoding_key(),
            claims,
        ),
        claims.iss == config.issuer,
        claims.aud == config.audience,
        claims.jkt == proof.jwk_thumbprint,
        verified_at <= claims.exp + duration_secs(config.clock_skew),
        proof_reading(credentials.proof, config.allowed_algs) == Ok::<_, DpopErrorView>(proof),
        proof_decision(proof, resource_demands(config, credentials), now, nonce_known)
            == ProofDecisionView::ClaimJti(proof),
    ensures
        authentication(
            token_outcome(config, credentials, verified_at),
            proof_outcome(config, credentials, now, nonce_known, new_nonce, true),
        ) == Ok::<_, DpopErrorView>(
            SessionView {
                sub: claims.sub,
                jti: claims.jti,
                jkt: claims.jkt,
                extra: extra_members(claims.extra),
            },
        ),
{
}

/// A request without credentials is refused before anything else is looked at.
pub proof fn law_request_without_credentials_is_refused(head: RequestHead)
    ensures
        bearer_token(head.authorization) is None ==> extraction(head) == Err::<CredentialsView, _>(
            DpopErrorView::MissingHeader,
        ),
        bearer_token(head.authorization) is Some && head.dpop@.len() != 1 ==> extraction(head)
            is Err,
{
}

} // verus!
