//! Access-token issue and verification with `cnf.jkt` confirmation.

use std::time::Duration;

use vstd::prelude::*;

use crate::claims::{
    claim_members, lemma_none_repeated, listed_members, missing, missing_claim, name_views,
    number_claim, read_listed, read_members, read_number_claim, read_string_claim, string_claim,
};
use crate::config::{TokenSigner, TokenSignerView};
use crate::crypto::entropy::{is_uuid_text, random_uuid_text};
use crate::error::{DpopError, DpopErrorView};
use crate::jose::{
    carries, encode, is_decodable, is_scalar, is_usable, registered_claims_are_plain,
    signed_token, verified_claims, verify_signature, Algorithm, DecodingKey, DecodingKeyView,
};
use crate::json::{
    is_raw_json, member, number_of_json, object_json, object_of_json, repeats_none, string_json,
    string_of_json, write_number, write_object, write_string, JsonMap,
};
use crate::text::{decimal, outcome, same};
use crate::time::{duration_secs, unix_time};

pub mod laws;

verus! {

/// RFC 7800 confirmation: the `jkt` JWK thumbprint of the bound key.
#[derive(Debug, Clone)]
pub struct Confirmation {
    /// JWK SHA-256 thumbprint of the public key
    /// the token is bound to.
    pub jkt: String,
}

/// The claims of an issued access token.
///
/// The first set of fields is required; `extra` carries application-specific claims
/// (`email`, `role`, `tenant_id`, ...).
#[derive(Debug, Clone)]
pub struct AccessTokenClaims {
    /// Subject identifier (the authenticated user).
    pub sub: String,
    /// Issuer.
    pub iss: String,
    /// Audience.
    pub aud: String,
    /// Expiry, Unix seconds.
    pub exp: u64,
    /// Issued-at, Unix seconds.
    pub iat: u64,
    /// Unique token identifier.
    pub jti: String,
    /// Key confirmation (`cnf.jkt`).
    pub cnf: Confirmation,
    /// Application-specific claims.
    ///
    /// Reserved keys (`sub`, `iss`, `aud`, `exp`, `iat`, `jti`, `cnf`)
    /// are owned by the library: a value for one of them here is ignored,
    /// the named field wins.
    pub extra: JsonMap,
}

/// [`AccessTokenClaims`] with their texts as character sequences.
#[verifier::ext_equal]
pub struct AccessTokenClaimsView {
    pub sub: Seq<char>,
    pub iss: Seq<char>,
    pub aud: Seq<char>,
    pub exp: u64,
    pub iat: u64,
    pub jti: Seq<char>,
    pub jkt: Seq<char>,
    pub extra: Map<Seq<char>, Seq<char>>,
}

impl View for AccessTokenClaims {
    type V = AccessTokenClaimsView;

    open spec fn view(&self) -> AccessTokenClaimsView {
        AccessTokenClaimsView {
            sub: self.sub@,
            iss: self.iss@,
            aud: self.aud@,
            exp: self.exp,
            iat: self.iat,
            jti: self.jti@,
            jkt: self.cnf.jkt@,
            extra: self.extra@,
        }
    }
}

/// The JSON object of a confirmation.
pub open spec fn cnf_members(jkt: Seq<char>) -> Map<Seq<char>, Seq<char>> {
    Map::empty().insert("jkt"@, string_json(jkt))
}

/// The JSON object of a token: the extra claims, and the named ones over them.
pub open spec fn token_members(claims: AccessTokenClaimsView) -> Map<Seq<char>, Seq<char>> {
    claims.extra.insert("sub"@, string_json(claims.sub)).insert("iss"@, string_json(claims.iss))
        .insert("aud"@, string_json(claims.aud)).insert("exp"@, decimal(claims.exp as nat)).insert(
        "iat"@,
        decimal(claims.iat as nat),
    ).insert("jti"@, string_json(claims.jti)).insert("cnf"@, object_json(cnf_members(claims.jkt)))
}

/// The extra claims among the members of a token's JSON object.
pub open spec fn extra_members(members: Map<Seq<char>, Seq<char>>) -> Map<Seq<char>, Seq<char>> {
    members.remove("sub"@).remove("iss"@).remove("aud"@).remove("exp"@).remove("iat"@).remove(
        "jti"@,
    ).remove("cnf"@)
}

/// The thumbprint in the confirmation of a token: an object, or an array that holds it.
pub open spec fn jkt_claim(members: Map<Seq<char>, Seq<char>>) -> Result<Seq<char>, Seq<char>> {
    match member(members, "cnf"@) {
        Some(json) => match listed_members(json, seq!["jkt"@], 1) {
            Ok(cnf) => string_claim(cnf, "jkt"@),
            Err(text) => Err(text),
        },
        None => Err(missing_claim("cnf"@)),
    }
}

/// The claims of a token, read from the members of its JSON object.
pub open spec fn access_claims(members: Map<Seq<char>, Seq<char>>) -> Result<
    AccessTokenClaimsView,
    Seq<char>,
> {
    match (
        string_claim(members, "sub"@),
        string_claim(members, "iss"@),
        string_claim(members, "aud"@),
        number_claim(members, "exp"@),
        number_claim(members, "iat"@),
        string_claim(members, "jti"@),
        jkt_claim(members),
    ) {
        (Err(text), _, _, _, _, _, _) => Err(text),
        (_, Err(text), _, _, _, _, _) => Err(text),
        (_, _, Err(text), _, _, _, _) => Err(text),
        (_, _, _, Err(text), _, _, _) => Err(text),
        (_, _, _, _, Err(text), _, _) => Err(text),
        (_, _, _, _, _, Err(text), _) => Err(text),
        (_, _, _, _, _, _, Err(text)) => Err(text),
        (Ok(sub), Ok(iss), Ok(aud), Ok(exp), Ok(iat), Ok(jti), Ok(jkt)) => Ok(
            AccessTokenClaimsView {
                sub,
                iss,
                aud,
                exp,
                iat,
                jti,
                jkt,
                extra: extra_members(members),
            },
        ),
    }
}

/// The claims of a token, read from a JSON text: an object that names none of the
/// registered ones twice.
pub open spec fn access_claims_in(json: Seq<char>) -> Result<AccessTokenClaimsView, Seq<char>> {
    match claim_members(json, reserved_names()) {
        Ok(members) => access_claims(members),
        Err(text) => Err(text),
    }
}

/// The names of the claims that are not extra ones.
pub open spec fn reserved_names() -> Seq<Seq<char>> {
    seq!["sub"@, "iss"@, "aud"@, "exp"@, "iat"@, "jti"@, "cnf"@]
}

/// The JSON text of a token's claims.
pub open spec fn token_json(claims: AccessTokenClaimsView) -> Seq<char> {
    object_json(token_members(claims))
}

/// Reads the thumbprint in the confirmation of a token.
fn read_jkt(members: &JsonMap) -> (jkt: Result<String, String>)
    ensures
        outcome(jkt) == jkt_claim(members@),
{
    match members.get("cnf") {
        Some(json) => {
            let names: [&str; 1] = ["jkt"];
            proof {
                assert(name_views(names@) =~= seq!["jkt"@]);
            }
            match read_listed(&json, &names, 1) {
                Ok(cnf) => read_string_claim(&cnf, "jkt"),
                Err(text) => Err(text),
            }
        },
        None => Err(missing("cnf")),
    }
}

impl AccessTokenClaims {
    /// The JSON object of the token.
    pub fn to_members(&self) -> (members: JsonMap)
        ensures
            members@ == token_members(self@),
            registered_claims_are_plain(members@) <==> nbf_is_readable(self@.extra),
            access_claims(members@) == Ok::<_, Seq<char>>(
                AccessTokenClaimsView { extra: extra_members(self@.extra), ..self@ },
            ),
    {
        let sub = write_string(&self.sub);
        let iss = write_string(&self.iss);
        let aud = write_string(&self.aud);
        let exp = write_number(self.exp);
        let iat = write_number(self.iat);
        let jti = write_string(&self.jti);
        let jkt = write_string(&self.cnf.jkt);
        let mut cnf = JsonMap::new();
        cnf.insert_raw("jkt", jkt);
        let cnf = write_object(&cnf);
        let mut members = self.extra.clone();
        members.insert_raw("sub", sub);
        members.insert_raw("iss", iss);
        members.insert_raw("aud", aud);
        members.insert_raw("exp", exp);
        members.insert_raw("iat", iat);
        members.insert_raw("jti", jti);
        members.insert_raw("cnf", cnf);
        proof {
            lemma_members_read_back(self@);
        }
        members
    }

    /// The JSON text of the token's claims.
    pub fn to_json(&self) -> (json: String)
        ensures
            json@ == token_json(self@),
            is_raw_json(json@),
            is_decodable(json@) <==> nbf_is_readable(self@.extra),
            access_claims_in(json@) == Ok::<_, Seq<char>>(
                AccessTokenClaimsView { extra: extra_members(self@.extra), ..self@ },
            ),
    {
        let members = self.to_members();
        let json = write_object(&members);
        proof {
            lemma_none_repeated(json@, reserved_names());
        }
        json
    }

    /// Reads the claims of a token from a JSON text: an object that names none of the
    /// registered ones twice.
    pub fn from_json(json: &str) -> (claims: Result<AccessTokenClaims, String>)
        ensures
            outcome(claims) == access_claims_in(json@),
    {
        let names: [&str; 7] = ["sub", "iss", "aud", "exp", "iat", "jti", "cnf"];
        proof {
            assert(name_views(names@) =~= reserved_names());
        }
        match read_members(json, &names) {
            Ok(members) => AccessTokenClaims::from_members(members),
            Err(text) => Err(text),
        }
    }

    /// Reads the claims of a token from the members of its JSON object.
    pub fn from_members(members: JsonMap) -> (claims: Result<AccessTokenClaims, String>)
        ensures
            outcome(claims) == access_claims(members@),
    {
        let sub = match read_string_claim(&members, "sub") {
            Ok(text) => text,
            Err(text) => return Err(text),
        };
        let iss = match read_string_claim(&members, "iss") {
            Ok(text) => text,
            Err(text) => return Err(text),
        };
        let aud = match read_string_claim(&members, "aud") {
            Ok(text) => text,
            Err(text) => return Err(text),
        };
        let exp: u64 = match read_number_claim(&members, "exp") {
            Ok(number) => number,
            Err(text) => return Err(text),
        };
        let iat: u64 = match read_number_claim(&members, "iat") {
            Ok(number) => number,
            Err(text) => return Err(text),
        };
        let jti = match read_string_claim(&members, "jti") {
            Ok(text) => text,
            Err(text) => return Err(text),
        };
        let jkt = match read_jkt(&members) {
            Ok(text) => text,
            Err(text) => return Err(text),
        };
        let mut extra = members;
        extra.remove("sub");
        extra.remove("iss");
        extra.remove("aud");
        extra.remove("exp");
        extra.remove("iat");
        extra.remove("jti");
        extra.remove("cnf");
        Ok(AccessTokenClaims { sub, iss, aud, exp, iat, jti, cnf: Confirmation { jkt }, extra })
    }
}

/// The names of the registered claims are different texts.
pub proof fn lemma_claim_names_differ()
    ensures
        "sub"@ != "iss"@,
        "sub"@ != "aud"@,
        "sub"@ != "exp"@,
        "sub"@ != "iat"@,
        "sub"@ != "jti"@,
        "sub"@ != "cnf"@,
        "sub"@ != "nbf"@,
        "iss"@ != "aud"@,
        "iss"@ != "exp"@,
        "iss"@ != "iat"@,
        "iss"@ != "jti"@,
        "iss"@ != "cnf"@,
        "iss"@ != "nbf"@,
        "aud"@ != "exp"@,
        "aud"@ != "iat"@,
        "aud"@ != "jti"@,
        "aud"@ != "cnf"@,
        "aud"@ != "nbf"@,
        "exp"@ != "iat"@,
        "exp"@ != "jti"@,
        "exp"@ != "cnf"@,
        "exp"@ != "nbf"@,
        "iat"@ != "jti"@,
        "iat"@ != "cnf"@,
        "iat"@ != "nbf"@,
        "jti"@ != "cnf"@,
        "jti"@ != "nbf"@,
        "cnf"@ != "nbf"@,
{
    reveal_strlit("sub");
    reveal_strlit("iss");
    reveal_strlit("aud");
    reveal_strlit("exp");
    reveal_strlit("iat");
    reveal_strlit("jti");
    reveal_strlit("cnf");
    reveal_strlit("nbf");
    let (sub, iss, aud, exp, iat, jti, cnf, nbf) = (
        "sub"@,
        "iss"@,
        "aud"@,
        "exp"@,
        "iat"@,
        "jti"@,
        "cnf"@,
        "nbf"@,
    );
    assert(sub[0] == 's' && iss[0] == 'i' && aud[0] == 'a' && exp[0] == 'e' && iat[0] == 'i'
        && jti[0] == 'j' && cnf[0] == 'c' && nbf[0] == 'n');
    assert(iss[1] == 's' && iat[1] == 'a');
}

/// The members of a token read back as its claims, where the values of the members read
/// back as what they were written from.
proof fn lemma_members_read_back(claims: AccessTokenClaimsView)
    requires
        string_of_json(string_json(claims.sub)) == Some(claims.sub),
        string_of_json(string_json(claims.iss)) == Some(claims.iss),
        string_of_json(string_json(claims.aud)) == Some(claims.aud),
        number_of_json(decimal(claims.exp as nat)) == Some(claims.exp),
        number_of_json(decimal(claims.iat as nat)) == Some(claims.iat),
        string_of_json(string_json(claims.jti)) == Some(claims.jti),
        string_of_json(string_json(claims.jkt)) == Some(claims.jkt),
        object_of_json(object_json(cnf_members(claims.jkt))) == Some(cnf_members(claims.jkt)),
        repeats_none(object_json(cnf_members(claims.jkt))),
    ensures
        access_claims(token_members(claims)) == Ok::<_, Seq<char>>(
            AccessTokenClaimsView { extra: extra_members(claims.extra), ..claims },
        ),
        registered_claims_are_plain(token_members(claims)) <==> nbf_is_readable(claims.extra),
{
    lemma_claim_names_differ();
    lemma_none_repeated(object_json(cnf_members(claims.jkt)), seq!["jkt"@]);
    assert(extra_members(token_members(claims)) =~= extra_members(claims.extra));
}

/// When a token that lives for `ttl` seconds expires: never later than the last time.
pub open spec fn expiry(now: u64, ttl: nat) -> u64 {
    if now + ttl <= u64::MAX {
        (now + ttl) as u64
    } else {
        u64::MAX
    }
}

/// The claims of a token issued at the time `now`.
pub open spec fn issued_claims(
    issuer: Seq<char>,
    audience: Seq<char>,
    ttl: nat,
    subject: Seq<char>,
    jkt: Seq<char>,
    extra: Map<Seq<char>, Seq<char>>,
    now: u64,
    jti: Seq<char>,
) -> AccessTokenClaimsView {
    AccessTokenClaimsView {
        sub: subject,
        iss: issuer,
        aud: audience,
        exp: expiry(now, ttl),
        iat: now,
        jti,
        jkt,
        extra,
    }
}

/// The outcome of signing a token with the given claims.
pub open spec fn issue_outcome(signer: TokenSignerView, claims: AccessTokenClaimsView) -> Result<
    Seq<char>,
    DpopErrorView,
> {
    match signed_token(
        signer.algorithm().spec_name(),
        signer.encoding_key(),
        token_json(claims),
    ) {
        Ok(token) => Ok(token),
        Err(text) => Err(DpopErrorView::Internal(text)),
    }
}

/// What verifying an issued token comes to under a key that accepts its signature: the
/// claims but for the reserved names among the extra ones, unless it is expired or for
/// another issuer or audience.
pub open spec fn issued_verdict(
    claims: AccessTokenClaimsView,
    issuer: Seq<char>,
    audience: Seq<char>,
    skew: nat,
    now: u64,
) -> Result<AccessTokenClaimsView, DpopErrorView> {
    if now > claims.exp + skew {
        Err(DpopErrorView::Expired)
    } else if claims.iss != issuer {
        Err(DpopErrorView::InvalidSignature("InvalidIssuer"@))
    } else if claims.aud != audience {
        Err(DpopErrorView::InvalidSignature("InvalidAudience"@))
    } else {
        Ok(AccessTokenClaimsView { extra: extra_members(claims.extra), ..claims })
    }
}

/// Whether a key accepts the signature of a token that was issued with the claims.
pub open spec fn reads_back_as(
    token: Seq<char>,
    algorithm: Algorithm,
    key: DecodingKeyView,
    claims: AccessTokenClaimsView,
) -> bool {
    forall|issuer: Seq<char>, audience: Seq<char>, skew: nat, now: u64|
        #[trigger] verification(
            algorithm,
            key,
            token,
            issuer,
            audience,
            skew,
            now,
        ) == issued_verdict(claims, issuer, audience, skew, now)
}

/// Issue a DPoP-bound access token at the time `now`, with `jti` as its identifier.
pub fn issue_access_token_at(
    signer: &TokenSigner,
    issuer: &str,
    audience: &str,
    ttl: Duration,
    subject: &str,
    jkt: &str,
    extra: JsonMap,
    now: u64,
    jti: String,
) -> (result: Result<String, DpopError>)
    ensures
        is_issue(
            outcome(result),
            signer@,
            issued_claims(
                issuer@,
                audience@,
                duration_secs(ttl) as nat,
                subject@,
                jkt@,
                extra@,
                now,
                jti@,
            ),
        ),
{
    let claims = AccessTokenClaims {
        sub: subject.to_owned(),
        iss: issuer.to_owned(),
        aud: audience.to_owned(),
        exp: now.saturating_add(ttl.as_secs()),
        iat: now,
        jti,
        cnf: Confirmation { jkt: jkt.to_owned() },
        extra,
    };
    let json = claims.to_json();
    let name = signer.algorithm().name();
    let result = match encode(name, signer.encoding_key(), &json) {
        Ok(token) => Ok(token),
        Err(text) => Err(DpopError::Internal(text)),
    };
    proof {
        let signed = outcome(result);
        if signed is Ok {
            law_issued_token_says_what_was_issued(signed->Ok_0, claims@);
        }
        if signed is Ok && signer@.is_key_pair() && nbf_is_readable(extra@) {
            lemma_usable(signer@);
            law_issued_token_verifies(
                signed->Ok_0,
                signer@.algorithm(),
                signer@.decoding_key(),
                claims@,
            );
        }
    }
    result
}

/// Issue a DPoP-bound access token.
///
/// The caller controls `sub` (subject) and `jkt` (key confirmation).
/// The reserved claims (`iss`, `aud`, `exp`, `iat`, `jti`, `cnf`)
/// are filled by this function and must not be overridden vie `extra`.
///
/// # NOTE
///
/// Expiry calculating note:
/// Uses `saturating_add` to prevent overflow panics in debug mode
/// or integer wrapping in release mode when very large TTL values
/// are configured.
pub fn issue_access_token(
    signer: &TokenSigner,
    issuer: &str,
    audience: &str,
    ttl: Duration,
    subject: &str,
    jkt: &str,
    extra: JsonMap,
) -> (result: Result<String, DpopError>)
    ensures
        exists|now: u64, jti: Seq<char>|
            is_uuid_text(jti) && is_issue(
                outcome(result),
                signer@,
                #[trigger] issued_claims(
                    issuer@,
                    audience@,
                    duration_secs(ttl) as nat,
                    subject@,
                    jkt@,
                    extra@,
                    now,
                    jti,
                ),
            ),
{
    let now: u64 = unix_time();
    let jti = random_uuid_text();
    issue_access_token_at(signer, issuer, audience, ttl, subject, jkt, extra, now, jti)
}

/// Whether a token says what was issued: whatever key it verifies under, its claims are
/// these, and under a key that refuses its signature it is refused.
pub open spec fn says_what_was_issued(token: Seq<char>, claims: AccessTokenClaimsView) -> bool {
    forall|
        algorithm: Algorithm,
        key: DecodingKeyView,
        issuer: Seq<char>,
        audience: Seq<char>,
        skew: nat,
        now: u64,
    |
        #[trigger] verification(algorithm, key, token, issuer, audience, skew, now) == (
        match verified_claims(algorithm.spec_name(), key, token) {
            Ok(_) => issued_verdict(claims, issuer, audience, skew, now),
            Err(text) => Err(DpopErrorView::InvalidSignature(text)),
        })
}

/// Whether the claim `nbf`, if it is there, is one that verification can read.
pub open spec fn nbf_is_readable(extra: Map<Seq<char>, Seq<char>>) -> bool {
    match member(extra, "nbf"@) {
        Some(json) => is_scalar(json),
        None => true,
    }
}

/// Whether a result is that of signing the claims, says what they say, and reads back as
/// them where the keys of the signer belong together. With a shared secret signing does not
/// fail.
pub open spec fn is_issue(
    result: Result<Seq<char>, DpopErrorView>,
    signer: TokenSignerView,
    claims: AccessTokenClaimsView,
) -> bool {
    &&& result == issue_outcome(signer, claims)
    &&& result matches Ok(token) ==> says_what_was_issued(token, claims)
    &&& signer.is_key_pair() && signer is Symmetric ==> result is Ok
    &&& signer.is_key_pair() && nbf_is_readable(claims.extra) && result is Ok ==> reads_back_as(
        result->Ok_0,
        signer.algorithm(),
        signer.decoding_key(),
        claims,
    )
}

/// The keys of a signer that belong together can be used.
proof fn lemma_usable(signer: TokenSignerView)
    requires
        signer.is_key_pair(),
    ensures
        is_usable(signer.algorithm().spec_name(), signer.decoding_key()),
{
}

/// The outcome of verifying an access token at the time `now`.
pub open spec fn verification(
    algorithm: Algorithm,
    key: DecodingKeyView,
    token: Seq<char>,
    issuer: Seq<char>,
    audience: Seq<char>,
    clock_skew: nat,
    now: u64,
) -> Result<AccessTokenClaimsView, DpopErrorView> {
    match verified_claims(algorithm.spec_name(), key, token) {
        Err(text) => Err(DpopErrorView::InvalidSignature(text)),
        Ok(json) => match access_claims_in(json) {
            Err(text) => Err(DpopErrorView::InvalidSignature(text)),
            Ok(claims) => claims_verdict(claims, issuer, audience, clock_skew, now),
        },
    }
}

/// The verdict on the claims of a token at the time `now`.
pub open spec fn claims_verdict(
    claims: AccessTokenClaimsView,
    issuer: Seq<char>,
    audience: Seq<char>,
    clock_skew: nat,
    now: u64,
) -> Result<AccessTokenClaimsView, DpopErrorView> {
    if claims.exp + clock_skew < now {
        Err(DpopErrorView::Expired)
    } else if claims.iss != issuer {
        Err(DpopErrorView::InvalidSignature("InvalidIssuer"@))
    } else if claims.aud != audience {
        Err(DpopErrorView::InvalidSignature("InvalidAudience"@))
    } else {
        Ok(claims)
    }
}

/// Judges the claims of a token at the time `now`: it must not be expired, and be from the
/// issuer and for the audience.
pub fn judge_claims(
    claims: AccessTokenClaims,
    issuer: &str,
    audience: &str,
    clock_skew: Duration,
    now: u64,
) -> (result: Result<AccessTokenClaims, DpopError>)
    ensures
        outcome(result) == claims_verdict(
            claims@,
            issuer@,
            audience@,
            duration_secs(clock_skew) as nat,
            now,
        ),
{
    if claims.exp < now.saturating_sub(clock_skew.as_secs()) {
        return Err(DpopError::Expired);
    }
    if !same(&claims.iss, issuer) {
        return Err(DpopError::InvalidSignature("InvalidIssuer".to_owned()));
    }
    if !same(&claims.aud, audience) {
        return Err(DpopError::InvalidSignature("InvalidAudience".to_owned()));
    }
    Ok(claims)
}

/// Verify a DPoP-bound access token at the time `now` and return its claims.
pub fn verify_access_token_at(
    algorithm: Algorithm,
    decoding_key: &DecodingKey,
    token: &str,
    issuer: &str,
    audience: &str,
    clock_skew: Duration,
    now: u64,
) -> (result: Result<AccessTokenClaims, DpopError>)
    ensures
        outcome(result) == verification(
            algorithm,
            decoding_key@,
            token@,
            issuer@,
            audience@,
            duration_secs(clock_skew) as nat,
            now,
        ),
{
    let json = match verify_signature(algorithm.name(), decoding_key, token) {
        Ok(json) => json,
        Err(text) => return Err(DpopError::InvalidSignature(text)),
    };
    match AccessTokenClaims::from_json(&json) {
        Ok(claims) => judge_claims(claims, issuer, audience, clock_skew, now),
        Err(text) => Err(DpopError::InvalidSignature(text)),
    }
}

/// Verify a DPoP-bound access token and return its claims.
///
/// `clock_skew` is used as leeway for the `exp` check
/// to tolerate clock drift between the issuer and the verifier.
/// Expired tokens are reported as [`DpopError::Expired`],
/// everything else as [`DpopError::InvalidSignature`].
pub fn verify_access_token(
    algorithm: Algorithm,
    decoding_key: &DecodingKey,
    token: &str,
    issuer: &str,
    audience: &str,
    clock_skew: Duration,
) -> (result: Result<AccessTokenClaims, DpopError>)
    ensures
        exists|now: u64|
            outcome(result) == #[trigger] verification(
                algorithm,
                decoding_key@,
                token@,
                issuer@,
                audience@,
                duration_secs(clock_skew) as nat,
                now,
            ),
{
    let now: u64 = unix_time();
    verify_access_token_at(algorithm, decoding_key, token, issuer, audience, clock_skew, now)
}

/// A token that carries the claims and verifies under a key gives its claims back until
/// it expires, and then is refused as expired; for another issuer or audience it is refused.
/// The reserved names among the extra claims are ignored.
pub proof fn law_issued_token_verifies(
    token: Seq<char>,
    algorithm: Algorithm,
    key: DecodingKeyView,
    claims: AccessTokenClaimsView,
)
    requires
        verified_claims(algorithm.spec_name(), key, token) == Ok::<_, Seq<char>>(
            token_json(claims),
        ),
        access_claims_in(token_json(claims)) == Ok::<_, Seq<char>>(
            AccessTokenClaimsView { extra: extra_members(claims.extra), ..claims },
        ),
    ensures
        reads_back_as(token, algorithm, key, claims),
{
}

/// A token that carries the claims says what was issued, whatever key it verifies under
/// and whoever asks: an access token cannot come to mean anything else.
pub proof fn law_issued_token_says_what_was_issued(token: Seq<char>, claims: AccessTokenClaimsView)
    requires
        carries(token, token_json(claims)),
        access_claims_in(token_json(claims)) == Ok::<_, Seq<char>>(
            AccessTokenClaimsView { extra: extra_members(claims.extra), ..claims },
        ),
    ensures
        says_what_was_issued(token, claims),
{
}

/// An issued token comes back as it was issued, where the keys of its signer belong
/// together: with the subject, the key, the times and the extra claims that it was issued
/// with, where none of them has a reserved name, until its lifetime and the leeway are over.
/// From then on it is expired. For another issuer or another audience it is refused.
pub proof fn law_issued_token_comes_back(
    token: Seq<char>,
    signer: TokenSignerView,
    claims: AccessTokenClaimsView,
    issuer: Seq<char>,
    audience: Seq<char>,
    skew: nat,
    now: u64,
)
    requires
        is_issue(Ok(token), signer, claims),
        signer.is_key_pair(),
        nbf_is_readable(claims.extra),
        has_no_reserved_name(claims.extra),
    ensures
        verification(
            signer.algorithm(),
            signer.decoding_key(),
            token,
            issuer,
            audience,
            skew,
            now,
        ) == claims_verdict(claims, issuer, audience, skew, now),
        claims_verdict(claims, claims.iss, claims.aud, skew, now) == if now <= claims.exp + skew {
            Ok::<_, DpopErrorView>(claims)
        } else {
            Err(DpopErrorView::Expired)
        },
{
    law_unreserved_extra_is_kept(claims.extra);
}

/// Whether no extra claim has a reserved name.
pub open spec fn has_no_reserved_name(extra: Map<Seq<char>, Seq<char>>) -> bool {
    forall|name: Seq<char>| #[trigger]
        extra.dom().contains(name) ==> name != "sub"@ && name != "iss"@ && name != "aud"@ && name
            != "exp"@ && name != "iat"@ && name != "jti"@ && name != "cnf"@
}

/// Where no extra claim has a reserved name, the extra claims come back as they are.
pub proof fn law_unreserved_extra_is_kept(extra: Map<Seq<char>, Seq<char>>)
    requires
        has_no_reserved_name(extra),
    ensures
        extra_members(extra) == extra,
{
    assert(extra_members(extra) =~= extra);
}

/// An expired token is refused whatever it says, and no token is accepted that another
/// issuer made or that is for another audience.
pub proof fn law_verified_token_is_fresh_and_meant(
    algorithm: Algorithm,
    key: DecodingKeyView,
    token: Seq<char>,
    issuer: Seq<char>,
    audience: Seq<char>,
    clock_skew: nat,
    now: u64,
)
    ensures
        verification(algorithm, key, token, issuer, audience, clock_skew, now) matches Ok(claims)
            ==> now <= claims.exp + clock_skew && claims.iss == issuer && claims.aud == audience,
        verification(algorithm, key, token, issuer, audience, clock_skew, now) matches Err(error)
            ==> error is Expired || error is InvalidSignature,
{
}

} // verus!
