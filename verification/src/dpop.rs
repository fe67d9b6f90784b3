//! DPoP proof validation (RFC 9449, section 4.3).

use std::time::Duration;

use vstd::prelude::*;

use crate::cache::jti::jti_ttl_secs;
use crate::cache::{
    claim, holds, remember, Claim, Entry, JtiCache, Lookup, NonceCache, JTI_TTL_SECS, MAX_TTL_SECS,
};
use crate::claims::{
    listed_members, name_views, number_claim, optional_claim, read_listed, read_number_claim,
    read_optional_claim, read_string_claim, string_claim,
};
use crate::crypto::entropy::{is_uuid_text, random_uuid_text};
use crate::crypto::{ath, compute_ath, constant_time_same};
use crate::error::{DpopError, DpopErrorView};
use crate::jose::{
    decode_header, is_name_of_one, jwk_key, jwk_thumbprint, key_from_jwk, names_one_of, thumbprint,
    token_header, verified_claims, verify_signature, Algorithm, Jwk, TokenHeader, TokenHeaderView,
};
use crate::json::JsonMap;
use crate::text::{
    ascii_lowered, bytes_of, decimal, decimal_text, is_text, joined, optional, optional_str,
    outcome, same, same_ignoring_ascii_case,
};
use crate::time::{duration_secs, unix_time};

pub mod laws;

verus! {

/// Maximum accepted size of a DPoP proof, in bytes (RFC 9449, section 11.1).
pub const MAX_PROOF_LEN: usize = 8192;

/// The claims carried by a DPoP proof JWT.
#[derive(Debug, Clone)]
pub struct DpopClaims {
    /// HTTP method the proof is bound to (`htm`).
    pub htm: String,
    /// HTTP target URI the proof is bound to (`htu`), without query/fragment.
    pub htu: String,
    /// Creation time (`iat`), checked against the freshness window.
    pub iat: u64,
    /// Unique proof identifier (`jti`), used for replay protection.
    pub jti: String,
    /// Optional server-provided nonce.
    pub nonce: Option<String>,
    /// Optional access-token hash (`ath`), present only for resource requests.
    pub ath: Option<String>,
}

/// [`DpopClaims`] with their texts as character sequences.
#[verifier::ext_equal]
pub struct DpopClaimsView {
    pub htm: Seq<char>,
    pub htu: Seq<char>,
    pub iat: u64,
    pub jti: Seq<char>,
    pub nonce: Option<Seq<char>>,
    pub ath: Option<Seq<char>>,
}

impl View for DpopClaims {
    type V = DpopClaimsView;

    open spec fn view(&self) -> DpopClaimsView {
        DpopClaimsView {
            htm: self.htm@,
            htu: self.htu@,
            iat: self.iat,
            jti: self.jti@,
            nonce: optional(self.nonce),
            ath: optional(self.ath),
        }
    }
}

/// The claims of a proof, read from the members of its JSON object.
pub open spec fn claims_of(members: Map<Seq<char>, Seq<char>>) -> Result<
    DpopClaimsView,
    Seq<char>,
> {
    match (
        string_claim(members, "htm"@),
        string_claim(members, "htu"@),
        number_claim(members, "iat"@),
        string_claim(members, "jti"@),
        optional_claim(members, "nonce"@),
        optional_claim(members, "ath"@),
    ) {
        (Err(text), _, _, _, _, _) => Err(text),
        (_, Err(text), _, _, _, _) => Err(text),
        (_, _, Err(text), _, _, _) => Err(text),
        (_, _, _, Err(text), _, _) => Err(text),
        (_, _, _, _, Err(text), _) => Err(text),
        (_, _, _, _, _, Err(text)) => Err(text),
        (Ok(htm), Ok(htu), Ok(iat), Ok(jti), Ok(nonce), Ok(ath)) => Ok(
            DpopClaimsView { htm, htu, iat, jti, nonce, ath },
        ),
    }
}

/// The claims of a proof, read from a JSON text: an object, or an array with the claims in
/// the order of [`DpopClaims`], of which the last two may be missing.
pub open spec fn claims_in(json: Seq<char>) -> Result<DpopClaimsView, Seq<char>> {
    match listed_members(json, seq!["htm"@, "htu"@, "iat"@, "jti"@, "nonce"@, "ath"@], 4) {
        Ok(members) => claims_of(members),
        Err(text) => Err(text),
    }
}

impl DpopClaims {
    /// Reads the claims of a proof from a JSON text: an object that names none of them
    /// twice, or an array with the claims in the order of the fields, of which the last two
    /// may be missing.
    pub fn from_json(json: &str) -> (claims: Result<DpopClaims, String>)
        ensures
            outcome(claims) == claims_in(json@),
    {
        let names: [&str; 6] = ["htm", "htu", "iat", "jti", "nonce", "ath"];
        proof {
            assert(name_views(names@) =~= seq!["htm"@, "htu"@, "iat"@, "jti"@, "nonce"@, "ath"@]);
        }
        match read_listed(json, &names, 4) {
            Ok(members) => DpopClaims::from_members(&members),
            Err(text) => Err(text),
        }
    }

    /// Reads the claims of a proof from the members of its JSON object.
    pub fn from_members(members: &JsonMap) -> (claims: Result<DpopClaims, String>)
        ensures
            outcome(claims) == claims_of(members@),
    {
        let htm = match read_string_claim(members, "htm") {
            Ok(text) => text,
            Err(text) => return Err(text),
        };
        let htu = match read_string_claim(members, "htu") {
            Ok(text) => text,
            Err(text) => return Err(text),
        };
        let iat: u64 = match read_number_claim(members, "iat") {
            Ok(number) => number,
            Err(text) => return Err(text),
        };
        let jti = match read_string_claim(members, "jti") {
            Ok(text) => text,
            Err(text) => return Err(text),
        };
        let nonce = match read_optional_claim(members, "nonce") {
            Ok(text) => text,
            Err(text) => return Err(text),
        };
        let ath = match read_optional_claim(members, "ath") {
            Ok(text) => text,
            Err(text) => return Err(text),
        };
        Ok(DpopClaims { htm, htu, iat, jti, nonce, ath })
    }
}

/// A DPoP proof whose structure and signature are valid.
pub struct SignedProof {
    /// The public key from the proof header.
    pub jwk: Jwk,
    /// The signed claims.
    pub claims: DpopClaims,
    /// The JWK thumbprint.
    pub jwk_thumbprint: String,
}

/// A successfully validated DPoP proof.
pub struct ValidatedProof {
    /// The public key from the proof header.
    pub jwk: Jwk,
    /// The validated claims.
    pub claims: DpopClaims,
    /// The JWK thumbprint, used as the `cnf.jkt` value in access tokens.
    pub jwk_thumbprint: String,
}

/// A proof with its texts as character sequences.
#[verifier::ext_equal]
pub struct ProofView {
    pub jwk: Seq<char>,
    pub claims: DpopClaimsView,
    pub jwk_thumbprint: Seq<char>,
}

impl View for SignedProof {
    type V = ProofView;

    open spec fn view(&self) -> ProofView {
        ProofView { jwk: self.jwk@, claims: self.claims@, jwk_thumbprint: self.jwk_thumbprint@ }
    }
}

impl View for ValidatedProof {
    type V = ProofView;

    open spec fn view(&self) -> ProofView {
        ProofView { jwk: self.jwk@, claims: self.claims@, jwk_thumbprint: self.jwk_thumbprint@ }
    }
}

/// Everything needed to validate a DPoP proof for one request.
pub struct ValidationContext<'a> {
    /// The proof JWT taken from the `DPoP` header.
    pub proof: &'a str,
    /// The expected HTTP method (`htm`).
    pub expected_htm: &'a str,
    /// The expected HTTP target URI (`htu`), normalized against the request.
    pub expected_htu: &'a str,
    /// The access token, if the request targets a protected resource.
    ///
    /// When `Some`, the proof must carry a matching `ath`. When `None`
    /// (token endpoint), no `ath` is required.
    pub access_token: Option<&'a str>,
    /// Whether the server requires a valid nonce is the proof.
    pub nonce_required: bool,
    /// Allowed clock skew for the `iat` freshness window.
    pub clock_skew: Duration,
    /// JWS algorithms accepted for the proof.
    pub allowed_algs: &'a [Algorithm],
    /// Cache of already-seen `jti` values.
    pub jti_cache: &'a JtiCache,
    /// Cache of nonces issued by this server.
    pub nonce_cache: &'a NonceCache,
}

/// What a request demands of the claims of its proof.
#[verifier::ext_equal]
pub struct Demands {
    pub htm: Seq<char>,
    pub htu: Seq<char>,
    pub access_token: Option<Seq<char>>,
    pub nonce_required: bool,
    pub window: nat,
}

impl<'a> ValidationContext<'a> {
    /// What the request demands of the claims of its proof.
    pub open spec fn demands(&self) -> Demands {
        Demands {
            htm: self.expected_htm@,
            htu: self.expected_htu@,
            access_token: optional_str(self.access_token),
            nonce_required: self.nonce_required,
            window: duration_secs(self.clock_skew) as nat,
        }
    }
}

/// The parts of a URL that a proof is bound to.
pub struct UrlParts {
    /// The scheme, in lower case.
    pub scheme: String,
    /// The host, if the URL has one.
    pub host: Option<String>,
    /// The port, unless it is the default port of the scheme.
    pub port: Option<u16>,
    /// The path.
    pub path: String,
}

/// [`UrlParts`] with their texts as character sequences.
#[verifier::ext_equal]
pub struct UrlPartsView {
    pub scheme: Seq<char>,
    pub host: Option<Seq<char>>,
    pub port: Option<u16>,
    pub path: Seq<char>,
}

impl View for UrlParts {
    type V = UrlPartsView;

    open spec fn view(&self) -> UrlPartsView {
        UrlPartsView {
            scheme: self.scheme@,
            host: optional(self.host),
            port: self.port,
            path: self.path@,
        }
    }
}

/// The parts of the URL that [`url::Url::parse`] reads from a text, if it is one.
pub uninterp spec fn url_parts(raw: Seq<char>) -> Option<UrlPartsView>;

/// Whether a character starts the query or the fragment of a URL.
pub open spec fn is_query_mark(c: char) -> bool {
    c == '?' || c == '#'
}

/// Whether a text has no character that starts a query or a fragment.
pub open spec fn has_no_query(text: Seq<char>) -> bool {
    forall|i: int| 0 <= i < text.len() ==> !is_query_mark(#[trigger] text[i])
}

/// The part of a URL before its query and its fragment.
pub open spec fn before_query(raw: Seq<char>) -> Seq<char>
    decreases raw.len(),
{
    if raw.len() == 0 || is_query_mark(raw[0]) {
        seq![]
    } else {
        seq![raw[0]] + before_query(raw.skip(1))
    }
}

/// Whether the parts are those of an `http` or `https` URL.
pub open spec fn is_web(parts: UrlPartsView) -> bool {
    parts.scheme == "http"@ || parts.scheme == "https"@
}

/// The length of a host up to which it is read again as it was written.
pub const MAX_HOST_LEN: usize = 2000;

/// The length of a URL up to which a query cannot make it too long.
pub const MAX_URL_LEN: usize = 50_000_000;

/// Whether a text is an `http` or `https` URL that does not end in white space or a control
/// character, which a parser would cut off.
pub open spec fn is_plain_target(url: Seq<char>) -> bool {
    &&& url_parts(url) matches Some(parts)
    &&& is_web(parts)
    &&& url.last() > ' '
}

/// `url::Url::parse`, with the scheme, host, port and path that the result gives.
///
/// None of them holds a mark that starts a query or a fragment. Of an `http` or `https` URL
/// they do not depend on its query and its fragment, and the URL made of them is parsed as
/// them again.
#[verifier::external_body]
fn parse_url(raw: &str) -> (parts: Option<UrlParts>)
    ensures
        url_parts(raw@) == match parts {
            Some(parts) => Some(parts@),
            None => None,
        },
        parts matches Some(parts) ==> parts_have_no_query(parts@),
        parts matches Some(parts) ==> (is_web(parts@) && host_len(parts@) <= MAX_HOST_LEN
            ==> url_parts(htu_text(parts@)) == Some(parts@)),
        is_plain_target(before_query(raw@)) && raw@.len() <= MAX_URL_LEN ==> parts is Some
            && url_parts(before_query(raw@)) == Some(parts->0@),
{
    let url = url::Url::parse(raw).ok()?;
    Some(UrlParts {
        scheme: url.scheme().to_string(),
        host: url.host_str().map(|host| host.to_string()),
        port: url.port(),
        path: url.path().to_string(),
    })
}

/// Whether no part holds a mark that starts a query or a fragment.
pub open spec fn parts_have_no_query(parts: UrlPartsView) -> bool {
    &&& has_no_query(parts.scheme)
    &&& parts.host matches Some(host) ==> has_no_query(host)
    &&& has_no_query(parts.path)
}

/// The length of the host, if there is one.
pub open spec fn host_len(parts: UrlPartsView) -> nat {
    match parts.host {
        Some(host) => host.len(),
        None => 0,
    }
}

/// The form in which two target URIs are compared: scheme, host, port and path.
pub open spec fn htu_text(parts: UrlPartsView) -> Seq<char> {
    parts.scheme + "://"@ + (match parts.host {
        Some(host) => host,
        None => seq![],
    }) + (match parts.port {
        Some(port) => ":"@ + decimal(port as nat),
        None => seq![],
    }) + parts.path
}

/// Whether the URL that is made of the parts of an `http` or `https` URL is read as these
/// parts again.
pub open spec fn is_read_again(parts: UrlPartsView) -> bool {
    is_web(parts) && host_len(parts) <= MAX_HOST_LEN ==> url_parts(htu_text(parts)) == Some(parts)
}

/// The outcome of normalizing a target URI.
pub open spec fn htu_outcome(raw: Seq<char>) -> Result<Seq<char>, DpopErrorView> {
    match url_parts(raw) {
        Some(parts) => Ok(htu_text(parts)),
        None => Err(DpopErrorView::HtuMismatch),
    }
}

/// The form in which two target URIs are compared.
pub fn htu_from_parts(parts: &UrlParts) -> (text: String)
    ensures
        text@ == htu_text(parts@),
{
    let mut text = joined(&parts.scheme, "://");
    if let Some(host) = &parts.host {
        text.append(host);
    }
    assert(text@ =~= parts@.scheme + "://"@ + (match parts@.host {
        Some(host) => host,
        None => seq![],
    }));
    if let Some(port) = parts.port {
        text.append(&joined(":", &decimal_text(port as u64)));
    }
    text.append(&parts.path);
    assert(text@ =~= htu_text(parts@));
    text
}

/// Whether a text is an `http` or `https` URL whose host is not too long to be read again.
pub open spec fn is_web_target(raw: Seq<char>) -> bool {
    url_parts(raw) matches Some(parts) && is_web(parts) && host_len(parts) <= MAX_HOST_LEN
}

/// The digits of a number start no query.
proof fn lemma_decimal_has_no_query(n: nat)
    ensures
        has_no_query(decimal(n)),
    decreases n,
{
    if n >= 10 {
        lemma_decimal_has_no_query(n / 10);
    }
}

/// The normal form of a target URI holds no query and no fragment.
proof fn lemma_htu_has_no_query(parts: UrlPartsView)
    requires
        parts_have_no_query(parts),
    ensures
        has_no_query(htu_text(parts)),
{
    reveal_strlit("://");
    reveal_strlit(":");
    if let Some(port) = parts.port {
        lemma_decimal_has_no_query(port as nat);
    }
    let host = match parts.host {
        Some(host) => host,
        None => seq![],
    };
    let port = match parts.port {
        Some(port) => ":"@ + decimal(port as nat),
        None => seq![],
    };
    let start = parts.scheme + "://"@;
    assert(has_no_query(start));
    assert(has_no_query(start + host));
    assert(has_no_query(start + host + port));
    assert(has_no_query(start + host + port + parts.path));
}

/// A query and a fragment that are appended to a URL are cut off again.
pub proof fn law_query_and_fragment_are_cut_off(url: Seq<char>, query: Seq<char>, fragment: Seq<char>)
    requires
        has_no_query(url),
    ensures
        before_query(url + "?"@ + query + "#"@ + fragment) == url,
        before_query(url + "?"@ + query) == url,
        before_query(url + "#"@ + fragment) == url,
        before_query(url) == url,
{
    reveal_strlit("?");
    reveal_strlit("#");
    let (mark, hash) = ("?"@, "#"@);
    lemma_cut_off(url, mark + query + hash + fragment);
    assert(url + mark + query + hash + fragment =~= url + (mark + query + hash + fragment));
    lemma_cut_off(url, mark + query);
    assert(url + mark + query =~= url + (mark + query));
    lemma_cut_off(url, hash + fragment);
    assert(url + hash + fragment =~= url + (hash + fragment));
    lemma_cut_off(url, seq![]);
    assert(url + Seq::<char>::empty() =~= url);
}

/// What starts with a mark is cut off.
proof fn lemma_cut_off(url: Seq<char>, rest: Seq<char>)
    requires
        has_no_query(url),
        rest.len() > 0 ==> is_query_mark(rest[0]),
    ensures
        before_query(url + rest) == url,
    decreases url.len(),
{
    if url.len() == 0 {
        assert(url + rest =~= rest);
        assert(url =~= seq![]);
    } else {
        let tail = url.skip(1);
        assert forall|i: int| 0 <= i < tail.len() implies !is_query_mark(#[trigger] tail[i]) by {
            assert(tail[i] == url[i + 1]);
        }
        lemma_cut_off(tail, rest);
        assert((url + rest).skip(1) =~= tail + rest);
        assert(!is_query_mark(url[0]));
        assert((url + rest)[0] == url[0]);
        assert(seq![url[0]] + tail =~= url);
    }
}

/// Normalizes a target URI: scheme and host in lower case, no default port, no query and
/// no fragment. Of an `http` or `https` URL the query and the fragment do not count, and
/// what is normalized stays as it is when it is normalized again.
pub fn normalize_htu(raw: &str) -> (result: Result<String, DpopError>)
    ensures
        outcome(result) == htu_outcome(raw@),
        result matches Ok(text) ==> has_no_query(text@),
        is_plain_target(before_query(raw@)) && raw@.len() <= MAX_URL_LEN ==> outcome(result)
            == htu_outcome(before_query(raw@)),
        is_web_target(raw@) ==> result is Ok && htu_outcome(result->Ok_0@) == outcome(result),
        is_web_target(raw@) ==> url_parts(result->Ok_0@) == url_parts(raw@),
        url_parts(raw@) matches Some(parts) ==> is_read_again(parts),
{
    match parse_url(raw) {
        Some(parts) => {
            proof {
                lemma_htu_has_no_query(parts@);
            }
            Ok(htu_from_parts(&parts))
        },
        None => Err(DpopError::HtuMismatch),
    }
}

/// What reading a proof and verifying its signature gives.
pub open spec fn proof_reading(proof: Seq<char>, allowed_algs: Seq<Algorithm>) -> Result<
    ProofView,
    DpopErrorView,
> {
    if bytes_of(proof).len() > MAX_PROOF_LEN {
        Err(DpopErrorView::InvalidSignature("proof too large (max 8KB)"@))
    } else {
        match token_header(proof) {
            Err(text) => Err(DpopErrorView::InvalidSignature(text)),
            Ok(header) => match header_verdict(header, allowed_algs) {
                Err(error) => Err(error),
                Ok((alg, jwk)) => keyed_reading(proof, alg, jwk),
            },
        }
    }
}

/// The verdict on the header of a proof: the name of its algorithm and the JSON text of its
/// key, where the type is that of a proof and the algorithm is allowed.
pub open spec fn header_verdict(header: TokenHeaderView, allowed_algs: Seq<Algorithm>) -> Result<
    (Seq<char>, Seq<char>),
    DpopErrorView,
> {
    if header.typ != Some("dpop+jwt"@) {
        Err(
            DpopErrorView::InvalidTyp(
                match header.typ {
                    Some(typ) => typ,
                    None => seq![],
                },
            ),
        )
    } else if !names_one_of(header.alg, allowed_algs) {
        Err(DpopErrorView::InvalidAlgorithm(header.alg + " now allowed"@))
    } else {
        match header.jwk {
            None => Err(DpopErrorView::InvalidSignature("jwk missing in header"@)),
            Some(jwk) => Ok((header.alg, jwk)),
        }
    }
}

/// Judges the header of a proof, and gives the name of its algorithm and the JSON text of
/// its key.
pub fn judge_header(header: TokenHeader, allowed_algs: &[Algorithm]) -> (result: Result<
    (String, String),
    DpopError,
>)
    ensures
        header_verdict(header@, allowed_algs@) == match result {
            Ok((alg, jwk)) => Ok((alg@, jwk@)),
            Err(error) => Err(error@),
        },
{
    if !is_text(&header.typ, "dpop+jwt") {
        return Err(
            DpopError::InvalidTyp(
                match header.typ {
                    Some(typ) => typ,
                    None => String::new(),
                },
            ),
        );
    }
    if !is_name_of_one(&header.alg, allowed_algs) {
        return Err(DpopError::InvalidAlgorithm(joined(&header.alg, " now allowed")));
    }
    match header.jwk {
        None => Err(DpopError::InvalidSignature("jwk missing in header".to_owned())),
        Some(jwk) => Ok((header.alg, jwk)),
    }
}

/// What verifying a proof with the key in its header gives.
pub open spec fn keyed_reading(proof: Seq<char>, alg: Seq<char>, jwk: Seq<char>) -> Result<
    ProofView,
    DpopErrorView,
> {
    match jwk_thumbprint(jwk) {
        None => Err(DpopErrorView::InvalidSignature("failed to compute JWK thumbprint"@)),
        Some(jwk_thumbprint) => match jwk_key(jwk) {
            Err(text) => Err(DpopErrorView::InvalidSignature(text)),
            Ok(key) => match verified_claims(alg, key, proof) {
                Err(text) => Err(DpopErrorView::InvalidSignature(text)),
                Ok(json) => match claims_in(json) {
                    Err(text) => Err(DpopErrorView::InvalidSignature(text)),
                    Ok(claims) => Ok(ProofView { jwk, claims, jwk_thumbprint }),
                },
            },
        },
    }
}

/// Verifies a proof with the key in its header.
fn read_keyed_proof(proof: &str, alg: &str, jwk: String) -> (result: Result<SignedProof, DpopError>)
    ensures
        outcome(result) == keyed_reading(proof@, alg@, jwk@),
        result matches Ok(proof) ==> proof.jwk_thumbprint@.len() == 43,
{
    let jwk_thumbprint = match thumbprint(&jwk) {
        Some(text) => text,
        None => return Err(
            DpopError::InvalidSignature("failed to compute JWK thumbprint".to_owned()),
        ),
    };
    let key = match key_from_jwk(&jwk) {
        Ok(key) => key,
        Err(text) => return Err(DpopError::InvalidSignature(text)),
    };
    let json = match verify_signature(alg, &key, proof) {
        Ok(json) => json,
        Err(text) => return Err(DpopError::InvalidSignature(text)),
    };
    match DpopClaims::from_json(&json) {
        Ok(claims) => Ok(SignedProof { jwk: Jwk { json: jwk }, claims, jwk_thumbprint }),
        Err(text) => Err(DpopError::InvalidSignature(text)),
    }
}

/// Reads a proof and verifies its signature: cheap structural checks first.
pub fn read_proof(proof: &str, allowed_algs: &[Algorithm]) -> (result: Result<
    SignedProof,
    DpopError,
>)
    ensures
        outcome(result) == proof_reading(proof@, allowed_algs@),
        result matches Ok(proof) ==> proof.jwk_thumbprint@.len() == 43,
{
    if proof.as_bytes().len() > MAX_PROOF_LEN {
        return Err(DpopError::InvalidSignature("proof too large (max 8KB)".to_owned()));
    }
    let header = match decode_header(proof) {
        Ok(header) => header,
        Err(text) => return Err(DpopError::InvalidSignature(text)),
    };
    match judge_header(header, allowed_algs) {
        Ok((alg, jwk)) => read_keyed_proof(proof, &alg, jwk),
        Err(error) => Err(error),
    }
}

/// Whether a proof made at `iat` is fresh at the time `now`.
pub open spec fn in_window(iat: u64, now: u64, window: nat) -> bool {
    iat - window <= now && now <= iat + window
}

/// Whether two target URIs are URLs with one normal form.
pub open spec fn same_target(a: Seq<char>, b: Seq<char>) -> bool {
    htu_outcome(a) is Ok && htu_outcome(a) == htu_outcome(b)
}

/// Whether two target URIs are URLs and, where they are `http` or `https` URLs, have one
/// scheme, host, port and path.
pub open spec fn is_for_target(htu: Seq<char>, target: Seq<char>) -> bool {
    &&& url_parts(htu) is Some
    &&& url_parts(target) is Some
    &&& is_web_target(htu) && is_web_target(target) ==> url_parts(htu) == url_parts(target)
}

/// What is to be done about a signed proof.
pub enum ProofDecision {
    /// Refuse it.
    Refuse(DpopError),
    /// Ask the client to retry with a nonce of the server.
    Challenge,
    /// Claim its `jti`, and accept it if it is the first to do so.
    ClaimJti(SignedProof),
}

/// A [`ProofDecision`] with its texts as character sequences.
#[verifier::ext_equal]
pub enum ProofDecisionView {
    Refuse(DpopErrorView),
    Challenge,
    ClaimJti(ProofView),
}

impl View for ProofDecision {
    type V = ProofDecisionView;

    open spec fn view(&self) -> ProofDecisionView {
        match *self {
            ProofDecision::Refuse(error) => ProofDecisionView::Refuse(error@),
            ProofDecision::Challenge => ProofDecisionView::Challenge,
            ProofDecision::ClaimJti(proof) => ProofDecisionView::ClaimJti(proof@),
        }
    }
}

/// What the `ath` claim of a proof leads to.
pub open spec fn ath_error(claims: DpopClaimsView, access_token: Option<Seq<char>>) -> Option<
    DpopErrorView,
> {
    match access_token {
        None => None,
        Some(token) => match claims.ath {
            None => Some(DpopErrorView::InvalidSignature("missing ath claim in resource proof"@)),
            Some(provided) => if provided == ath(token) {
                None
            } else {
                Some(DpopErrorView::InvalidSignature("ath mismatch"@))
            },
        },
    }
}

/// What is to be done about a signed proof at the time `now`, where `nonce_known` says
/// whether the server issued the nonce in it.
pub open spec fn proof_decision(
    proof: ProofView,
    demands: Demands,
    now: u64,
    nonce_known: bool,
) -> ProofDecisionView {
    if !in_window(proof.claims.iat, now, demands.window) {
        ProofDecisionView::Refuse(DpopErrorView::Expired)
    } else if ascii_lowered(proof.claims.htm) != ascii_lowered(demands.htm) {
        ProofDecisionView::Refuse(
            DpopErrorView::HtmMismatch { expected: demands.htm, got: proof.claims.htm },
        )
    } else if !same_target(proof.claims.htu, demands.htu) {
        ProofDecisionView::Refuse(DpopErrorView::HtuMismatch)
    } else if demands.nonce_required && !nonce_known {
        ProofDecisionView::Challenge
    } else {
        match ath_error(proof.claims, demands.access_token) {
            Some(error) => ProofDecisionView::Refuse(error),
            None => ProofDecisionView::ClaimJti(proof),
        }
    }
}

/// Whether the target URIs are URLs with one normal form.
fn is_same_target(a: &str, b: &str) -> (is_same: bool)
    ensures
        is_same == same_target(a@, b@),
        is_same ==> url_parts(a@) is Some && url_parts(b@) is Some,
        is_web_target(a@) && is_web_target(b@) ==> (is_same <==> url_parts(a@) == url_parts(b@)),
{
    match (normalize_htu(a), normalize_htu(b)) {
        (Ok(x), Ok(y)) => same(&x, &y),
        _ => false,
    }
}

/// Checks the `ath` claim of a proof.
fn check_ath(claims: &DpopClaims, access_token: Option<&str>) -> (error: Option<DpopError>)
    ensures
        ath_error(claims@, optional_str(access_token)) == match error {
            Some(error) => Some(error@),
            None => None,
        },
{
    if let Some(token) = access_token {
        match &claims.ath {
            None => Some(
                DpopError::InvalidSignature("missing ath claim in resource proof".to_owned()),
            ),
            Some(provided) => {
                let computed = compute_ath(token);
                let same = constant_time_same(
                    provided.as_str().as_bytes(),
                    computed.as_str().as_bytes(),
                );
                proof {
                    if bytes_of(provided@) == bytes_of(computed@) {
                        crate::text::lemma_bytes_of_injective(provided@, computed@);
                    }
                }
                if same {
                    None
                } else {
                    Some(DpopError::InvalidSignature("ath mismatch".to_owned()))
                }
            },
        }
    } else {
        None
    }
}

/// Decides about a signed proof at the time `now`, where `nonce_known` says whether the
/// server issued the nonce in it.
pub fn decide_proof(
    proof: SignedProof,
    ctx: &ValidationContext<'_>,
    now: u64,
    nonce_known: bool,
) -> (decision: ProofDecision)
    ensures
        decision@ == proof_decision(proof@, ctx.demands(), now, nonce_known),
        is_web_target(proof@.claims.htu) && is_web_target(ctx.expected_htu@) && url_parts(
            proof@.claims.htu,
        ) != url_parts(ctx.expected_htu@) ==> decision is Refuse && (in_window(
            proof@.claims.iat,
            now,
            ctx.demands().window,
        ) && ascii_lowered(proof@.claims.htm) == ascii_lowered(ctx.expected_htm@) ==> decision@
            == ProofDecisionView::Refuse(DpopErrorView::HtuMismatch)),
{
    let window: u64 = ctx.clock_skew.as_secs();
    let iat: u64 = proof.claims.iat;
    if !(iat.saturating_sub(window) <= now && now <= iat.saturating_add(window)) {
        return ProofDecision::Refuse(DpopError::Expired);
    }
    if !same_ignoring_ascii_case(&proof.claims.htm, ctx.expected_htm) {
        return ProofDecision::Refuse(
            DpopError::HtmMismatch {
                expected: ctx.expected_htm.to_owned(),
                got: proof.claims.htm,
            },
        );
    }
    if !is_same_target(&proof.claims.htu, ctx.expected_htu) {
        return ProofDecision::Refuse(DpopError::HtuMismatch);
    }
    if ctx.nonce_required && !nonce_known {
        return ProofDecision::Challenge;
    }
    match check_ath(&proof.claims, ctx.access_token) {
        Some(error) => ProofDecision::Refuse(error),
        None => ProofDecision::ClaimJti(proof),
    }
}

/// The error that hands a client a nonce: which one depends on the endpoint.
pub open spec fn nonce_error(access_token: Option<Seq<char>>, nonce: Seq<char>) -> DpopErrorView {
    if access_token is Some {
        DpopErrorView::ResourceNonceRequired(nonce)
    } else {
        DpopErrorView::TokenNonceRequired(nonce)
    }
}

/// The error that hands a client a nonce: which one depends on the endpoint.
pub fn nonce_challenge(access_token: Option<&str>, nonce: String) -> (error: DpopError)
    ensures
        error@ == nonce_error(optional_str(access_token), nonce@),
{
    if access_token.is_some() {
        DpopError::ResourceNonceRequired(nonce)
    } else {
        DpopError::TokenNonceRequired(nonce)
    }
}

/// What becomes of a proof whose `jti` was claimed.
pub open spec fn claim_outcome(proof: ProofView, fresh: bool) -> Result<ProofView, DpopErrorView> {
    if fresh {
        Ok(proof)
    } else {
        Err(DpopErrorView::JtiReplay)
    }
}

/// Accepts a proof whose `jti` was new when it was claimed.
pub fn conclude_claim(proof: SignedProof, fresh: bool) -> (result: Result<
    ValidatedProof,
    DpopError,
>)
    ensures
        outcome(result) == claim_outcome(proof@, fresh),
{
    if fresh {
        Ok(
            ValidatedProof {
                jwk: proof.jwk,
                claims: proof.claims,
                jwk_thumbprint: proof.jwk_thumbprint,
            },
        )
    } else {
        Err(DpopError::JtiReplay)
    }
}

/// The outcome of a validation: of the time, of whether the server knows the nonce in the
/// proof, of the nonce that it draws, and of whether the `jti` is new.
pub open spec fn proof_verdict(
    reading: Result<ProofView, DpopErrorView>,
    demands: Demands,
    now: u64,
    nonce_known: bool,
    new_nonce: Seq<char>,
    fresh: bool,
) -> Result<ProofView, DpopErrorView> {
    match reading {
        Err(error) => Err(error),
        Ok(proof) => match proof_decision(proof, demands, now, nonce_known) {
            ProofDecisionView::Refuse(error) => Err(error),
            ProofDecisionView::Challenge => Err(nonce_error(demands.access_token, new_nonce)),
            ProofDecisionView::ClaimJti(proof) => claim_outcome(proof, fresh),
        },
    }
}

/// The nonce that is looked up for a proof: the one in it, or the empty text.
pub open spec fn nonce_asked(claims: DpopClaimsView) -> Seq<char> {
    match claims.nonce {
        Some(nonce) => nonce,
        None => seq![],
    }
}

/// The nonce that is looked up for a proof: the one in it, or the empty text.
pub fn nonce_to_look_up(claims: &DpopClaims) -> (nonce: String)
    ensures
        nonce@ == nonce_asked(claims@),
{
    match &claims.nonce {
        Some(nonce) => nonce.clone(),
        None => String::new(),
    }
}

/// The outcome of a validation, with what was done in the caches.
pub struct Validation {
    /// The outcome.
    pub result: Result<ValidatedProof, DpopError>,
    /// The lookup of the nonce in the proof.
    pub lookup: Option<Lookup>,
    /// The nonce that was issued.
    pub issued: Option<Entry>,
    /// The claim on the `jti`.
    pub claim: Option<Claim>,
}

/// Whether a validation is one at the time `now`. A proof that cannot be read touches no
/// cache. The nonce of any other is looked up among the nonces; a challenge carries a new
/// nonce, which is put among them; and the `jti` is claimed where nothing else is wrong.
pub open spec fn is_validation(
    reading: Result<ProofView, DpopErrorView>,
    demands: Demands,
    jti_cache: JtiCache,
    nonce_cache: NonceCache,
    now: u64,
    validation: Validation,
) -> bool {
    match reading {
        Err(error) => {
            &&& outcome(validation.result) == Err::<ProofView, _>(error)
            &&& validation.lookup is None
            &&& validation.issued is None
            &&& validation.claim is None
        },
        Ok(proof) => {
            &&& validation.lookup matches Some(lookup)
            &&& lookup.cache() == nonce_cache
            &&& lookup.text() == nonce_asked(proof.claims)
            &&& match proof_decision(proof, demands, now, lookup.found()) {
                ProofDecisionView::Refuse(error) => {
                    &&& outcome(validation.result) == Err::<ProofView, _>(error)
                    &&& validation.issued is None
                    &&& validation.claim is None
                },
                ProofDecisionView::Challenge => {
                    &&& validation.issued matches Some(entry)
                    &&& entry.cache() == nonce_cache
                    &&& is_uuid_text(entry.text())
                    &&& outcome(validation.result) == Err::<ProofView, _>(
                        nonce_error(demands.access_token, entry.text()),
                    )
                    &&& validation.claim is None
                },
                ProofDecisionView::ClaimJti(proof) => {
                    &&& validation.issued is None
                    &&& validation.claim matches Some(claim)
                    &&& claim.cache() == jti_cache
                    &&& claim.text() == proof.claims.jti
                    &&& outcome(validation.result) == claim_outcome(proof, claim.fresh())
                },
            }
        },
    }
}

/// Whether the nonce in a challenge is the text of a UUID.
pub open spec fn challenges_with_uuid<T>(result: Result<T, DpopErrorView>) -> bool {
    match result {
        Err(DpopErrorView::TokenNonceRequired(nonce)) => is_uuid_text(nonce),
        Err(DpopErrorView::ResourceNonceRequired(nonce)) => is_uuid_text(nonce),
        _ => true,
    }
}

/// Validates a DPoP proof, and shows what it did in the caches.
pub fn trace_validation(ctx: &ValidationContext<'_>) -> (validation: Validation)
    ensures
        exists|now: u64| #[trigger]
            is_validation(
                proof_reading(ctx.proof@, ctx.allowed_algs@),
                ctx.demands(),
                *ctx.jti_cache,
                *ctx.nonce_cache,
                now,
                validation,
            ),
        validation.result matches Ok(proof) ==> proof.jwk_thumbprint@.len() == 43,
        validation.result matches Ok(proof) ==> is_for_target(
            proof.claims.htu@,
            ctx.expected_htu@,
        ),
{
    let ghost reading = proof_reading(ctx.proof@, ctx.allowed_algs@);
    let ghost demands = ctx.demands();
    let proof = match read_proof(ctx.proof, ctx.allowed_algs) {
        Ok(proof) => proof,
        Err(error) => {
            let validation = Validation {
                result: Err(error),
                lookup: None,
                issued: None,
                claim: None,
            };
            assert(is_validation(reading, demands, *ctx.jti_cache, *ctx.nonce_cache, 0, validation));
            return validation;
        },
    };
    let now: u64 = unix_time();
    let lookup = holds(ctx.nonce_cache, &nonce_to_look_up(&proof.claims));
    let found = lookup.is_found();
    let lookup = Some(lookup);
    let validation = match decide_proof(proof, ctx, now, found) {
        ProofDecision::Refuse(error) => Validation {
            result: Err(error),
            lookup,
            issued: None,
            claim: None,
        },
        ProofDecision::Challenge => {
            let nonce = random_uuid_text();
            let issued = Some(remember(ctx.nonce_cache, &nonce));
            let result = Err(nonce_challenge(ctx.access_token, nonce));
            Validation { result, lookup, issued, claim: None }
        },
        ProofDecision::ClaimJti(proof) => {
            let claim = claim(ctx.jti_cache, &proof.claims.jti);
            let result = conclude_claim(proof, claim.is_fresh());
            Validation { result, lookup, issued: None, claim: Some(claim) }
        },
    };
    assert(is_validation(reading, demands, *ctx.jti_cache, *ctx.nonce_cache, now, validation));
    validation
}

/// Validate a DPoP proof against RFC 9449, section 4.3.
///
/// The checks run in a deliberate order: cheap structural checks first, the
/// expensive signature verification before any cache mutation, and the `jti`
/// replay check last (only fully valid proofs consume a cache slot).
///
/// [`trace_validation`] shows what a validation does in the caches.
pub fn validate_dpop_proof(ctx: ValidationContext<'_>) -> (result: Result<
    ValidatedProof,
    DpopError,
>)
    ensures
        exists|now: u64, validation: Validation| #[trigger]
            is_validation(
                proof_reading(ctx.proof@, ctx.allowed_algs@),
                ctx.demands(),
                *ctx.jti_cache,
                *ctx.nonce_cache,
                now,
                validation,
            ) && outcome(result) == outcome(validation.result),
        exists|now: u64, nonce_known: bool, new_nonce: Seq<char>, fresh: bool|
            outcome(result) == #[trigger] proof_verdict(
                proof_reading(ctx.proof@, ctx.allowed_algs@),
                ctx.demands(),
                now,
                nonce_known,
                new_nonce,
                fresh,
            ),
        challenges_with_uuid(outcome(result)),
        result matches Ok(proof) ==> proof.jwk_thumbprint@.len() == 43 && jwk_thumbprint(
            proof.jwk@,
        ) == Some(proof.jwk_thumbprint@),
        result matches Ok(proof) ==> is_for_target(proof.claims.htu@, ctx.expected_htu@),
{
    let validation = trace_validation(&ctx);
    proof {
        let reading = proof_reading(ctx.proof@, ctx.allowed_algs@);
        let demands = ctx.demands();
        let now = choose|now: u64| #[trigger]
            is_validation(reading, demands, *ctx.jti_cache, *ctx.nonce_cache, now, validation);
        let known = validation.lookup matches Some(lookup) && lookup.found();
        let nonce = match validation.issued {
            Some(entry) => entry.text(),
            None => seq![],
        };
        let fresh = validation.claim matches Some(claim) && claim.fresh();
        assert(outcome(validation.result) == proof_verdict(
            reading,
            demands,
            now,
            known,
            nonce,
            fresh,
        ));
    }
    validation.result
}

/// A `jti` is claimed for exactly those signed proofs that pass every other check: only
/// fully valid proofs consume a cache slot.
pub proof fn law_only_valid_proofs_claim_a_slot(
    proof: ProofView,
    demands: Demands,
    now: u64,
    nonce_known: bool,
)
    ensures
        proof_decision(proof, demands, now, nonce_known) is ClaimJti <==> {
            &&& in_window(proof.claims.iat, now, demands.window)
            &&& ascii_lowered(proof.claims.htm) == ascii_lowered(demands.htm)
            &&& same_target(proof.claims.htu, demands.htu)
            &&& demands.nonce_required ==> nonce_known
            &&& demands.access_token matches Some(token) ==> proof.claims.ath == Some(ath(token))
        },
        proof_decision(proof, demands, now, nonce_known) matches ProofDecisionView::ClaimJti(
            claimed,
        ) ==> claimed == proof,
{
}

/// A proof is never accepted twice: where its `jti` is not new, no validation succeeds,
/// whatever else holds.
pub proof fn law_replayed_proof_is_refused(
    reading: Result<ProofView, DpopErrorView>,
    demands: Demands,
    now: u64,
    nonce_known: bool,
    new_nonce: Seq<char>,
)
    ensures
        proof_verdict(reading, demands, now, nonce_known, new_nonce, false) is Err,
{
}

/// A proof cannot be replayed after its `jti` is forgotten: two times at which it is
/// fresh are closer together than the time for which a `jti` is remembered.
pub proof fn law_jti_outlives_its_proof(iat: u64, first: u64, second: u64, window: nat)
    requires
        2 * window + 5 <= MAX_TTL_SECS,
        in_window(iat, first, window),
        in_window(iat, second, window),
    ensures
        second - first < jti_ttl_secs(window),
        first - second < jti_ttl_secs(window),
        window == 60 ==> jti_ttl_secs(window) == JTI_TTL_SECS,
{
}

/// A missing nonce is answered with a fresh one, in the variant of the endpoint: the
/// resource variant where there is an access token, the token variant where there is none.
pub proof fn law_unknown_nonce_is_challenged(
    proof: ProofView,
    demands: Demands,
    now: u64,
    new_nonce: Seq<char>,
    fresh: bool,
)
    requires
        in_window(proof.claims.iat, now, demands.window),
        ascii_lowered(proof.claims.htm) == ascii_lowered(demands.htm),
        same_target(proof.claims.htu, demands.htu),
        demands.nonce_required,
    ensures
        proof_verdict(Ok(proof), demands, now, false, new_nonce, fresh) == Err::<ProofView, _>(
            if demands.access_token is Some {
                DpopErrorView::ResourceNonceRequired(new_nonce)
            } else {
                DpopErrorView::TokenNonceRequired(new_nonce)
            },
        ),
{
}

} // verus!
