//! JSON Web Keys and signed tokens: algorithms, keys, and the calls that sign and verify.

use jsonwebtoken::errors::Error;
use jsonwebtoken::{
    AlgorithmFamily, DecodingKey as VerifyingKey, DecodingKeyKind, EncodingKey as SigningKey,
    Validation,
};
use serde_json::value::RawValue;
use vstd::prelude::*;

use crate::crypto::constant_time_same;
use crate::json::{
    is_raw_json, member, number_of_json, object_of_json, repeats_none, string_of_json,
};
use crate::text::{optional, outcome, same};

verus! {

/// The JWS algorithms.
#[derive(Debug, Clone, Copy, PartialEq, Eq, Structural)]
#[non_exhaustive]
pub enum Algorithm {
    /// HMAC using SHA-256.
    HS256,
    /// HMAC using SHA-384.
    HS384,
    /// HMAC using SHA-512.
    HS512,
    /// ECDSA using SHA-256.
    ES256,
    /// ECDSA using SHA-384.
    ES384,
    /// RSASSA-PKCS1-v1_5 using SHA-256.
    RS256,
    /// RSASSA-PKCS1-v1_5 using SHA-384.
    RS384,
    /// RSASSA-PKCS1-v1_5 using SHA-512.
    RS512,
    /// RSASSA-PSS using SHA-256.
    PS256,
    /// RSASSA-PSS using SHA-384.
    PS384,
    /// RSASSA-PSS using SHA-512.
    PS512,
    /// Edwards-curve signatures.
    EdDSA,
}

impl Algorithm {
    /// The name of the algorithm in a token header.
    pub open spec fn spec_name(self) -> Seq<char> {
        match self {
            Algorithm::HS256 => "HS256"@,
            Algorithm::HS384 => "HS384"@,
            Algorithm::HS512 => "HS512"@,
            Algorithm::ES256 => "ES256"@,
            Algorithm::ES384 => "ES384"@,
            Algorithm::RS256 => "RS256"@,
            Algorithm::RS384 => "RS384"@,
            Algorithm::RS512 => "RS512"@,
            Algorithm::PS256 => "PS256"@,
            Algorithm::PS384 => "PS384"@,
            Algorithm::PS512 => "PS512"@,
            Algorithm::EdDSA => "EdDSA"@,
        }
    }

    /// The name of the algorithm in a token header.
    pub fn name(self) -> (name: &'static str)
        ensures
            name@ == self.spec_name(),
    {
        match self {
            Algorithm::HS256 => "HS256",
            Algorithm::HS384 => "HS384",
            Algorithm::HS512 => "HS512",
            Algorithm::ES256 => "ES256",
            Algorithm::ES384 => "ES384",
            Algorithm::RS256 => "RS256",
            Algorithm::RS384 => "RS384",
            Algorithm::RS512 => "RS512",
            Algorithm::PS256 => "PS256",
            Algorithm::PS384 => "PS384",
            Algorithm::PS512 => "PS512",
            Algorithm::EdDSA => "EdDSA",
        }
    }
}

/// Whether one of the algorithms has the given name.
pub open spec fn names_one_of(name: Seq<char>, algorithms: Seq<Algorithm>) -> bool {
    exists|i: int| 0 <= i < algorithms.len() && (#[trigger] algorithms[i]).spec_name() == name
}

/// Whether one of the algorithms has the given name.
pub fn is_name_of_one(name: &str, algorithms: &[Algorithm]) -> (found: bool)
    ensures
        found == names_one_of(name@, algorithms@),
{
    let mut i: usize = 0;
    while i < algorithms.len()
        invariant
            i <= algorithms@.len(),
            forall|j: int| 0 <= j < i ==> (#[trigger] algorithms@[j]).spec_name() != name@,
        decreases algorithms@.len() - i,
    {
        let algorithm = algorithms[i];
        if same(algorithm.name(), name) {
            assert(algorithms@[i as int].spec_name() == name@);
            return true;
        }
        i += 1;
    }
    false
}

/// A public key in the JWK format (RFC 7517), as its JSON text.
#[derive(Debug, Clone, PartialEq, Eq)]
pub struct Jwk {
    /// The JSON text of the key.
    pub json: String,
}

impl View for Jwk {
    type V = Seq<char>;

    open spec fn view(&self) -> Seq<char> {
        self.json@
    }
}

/// A key that signs tokens.
pub enum EncodingKey {
    /// A shared HMAC secret.
    Secret(Vec<u8>),
    /// An EC private key (PKCS#8 DER).
    EcDer(Vec<u8>),
    /// An RSA private key (PKCS#1 DER).
    RsaDer(Vec<u8>),
    /// An Edwards-curve private key (PKCS#8 DER).
    EdDer(Vec<u8>),
}

/// An [`EncodingKey`] with its bytes as a sequence.
#[verifier::ext_equal]
pub enum EncodingKeyView {
    Secret(Seq<u8>),
    EcDer(Seq<u8>),
    RsaDer(Seq<u8>),
    EdDer(Seq<u8>),
}

impl View for EncodingKey {
    type V = EncodingKeyView;

    open spec fn view(&self) -> EncodingKeyView {
        match *self {
            EncodingKey::Secret(bytes) => EncodingKeyView::Secret(bytes@),
            EncodingKey::EcDer(bytes) => EncodingKeyView::EcDer(bytes@),
            EncodingKey::RsaDer(bytes) => EncodingKeyView::RsaDer(bytes@),
            EncodingKey::EdDer(bytes) => EncodingKeyView::EdDer(bytes@),
        }
    }
}

/// A key that verifies tokens.
pub enum DecodingKey {
    /// A shared HMAC secret.
    Secret(Vec<u8>),
    /// An EC public key (SEC1 point).
    Ec(Vec<u8>),
    /// An Edwards-curve public key.
    Ed(Vec<u8>),
    /// An RSA public key.
    Rsa {
        /// The modulus.
        n: Vec<u8>,
        /// The exponent.
        e: Vec<u8>,
    },
}

/// A [`DecodingKey`] with its bytes as sequences.
#[verifier::ext_equal]
pub enum DecodingKeyView {
    Secret(Seq<u8>),
    Ec(Seq<u8>),
    Ed(Seq<u8>),
    Rsa { n: Seq<u8>, e: Seq<u8> },
}

impl View for DecodingKey {
    type V = DecodingKeyView;

    open spec fn view(&self) -> DecodingKeyView {
        match *self {
            DecodingKey::Secret(bytes) => DecodingKeyView::Secret(bytes@),
            DecodingKey::Ec(bytes) => DecodingKeyView::Ec(bytes@),
            DecodingKey::Ed(bytes) => DecodingKeyView::Ed(bytes@),
            DecodingKey::Rsa { n, e } => DecodingKeyView::Rsa { n: n@, e: e@ },
        }
    }
}

/// A copy of a byte string.
pub fn copy_bytes(bytes: &[u8]) -> (copy: Vec<u8>)
    ensures
        copy@ == bytes@,
{
    let mut copy: Vec<u8> = Vec::new();
    let mut i: usize = 0;
    while i < bytes.len()
        invariant
            i <= bytes@.len(),
            copy@ =~= bytes@.take(i as int),
        decreases bytes@.len() - i,
    {
        copy.push(bytes[i]);
        i += 1;
    }
    assert(copy@ =~= bytes@);
    copy
}

impl Clone for EncodingKey {
    fn clone(&self) -> (copy: EncodingKey)
        ensures
            copy@ == self@,
    {
        match self {
            EncodingKey::Secret(bytes) => EncodingKey::Secret(copy_bytes(bytes)),
            EncodingKey::EcDer(bytes) => EncodingKey::EcDer(copy_bytes(bytes)),
            EncodingKey::RsaDer(bytes) => EncodingKey::RsaDer(copy_bytes(bytes)),
            EncodingKey::EdDer(bytes) => EncodingKey::EdDer(copy_bytes(bytes)),
        }
    }
}

impl Clone for DecodingKey {
    fn clone(&self) -> (copy: DecodingKey)
        ensures
            copy@ == self@,
    {
        match self {
            DecodingKey::Secret(bytes) => DecodingKey::Secret(copy_bytes(bytes)),
            DecodingKey::Ec(bytes) => DecodingKey::Ec(copy_bytes(bytes)),
            DecodingKey::Ed(bytes) => DecodingKey::Ed(copy_bytes(bytes)),
            DecodingKey::Rsa { n, e } => DecodingKey::Rsa { n: copy_bytes(n), e: copy_bytes(e) },
        }
    }
}

/// The parts of a token header that a DPoP proof is judged by.
#[derive(Debug, Clone)]
pub struct TokenHeader {
    /// The type of the token.
    pub typ: Option<String>,
    /// The name of the signature algorithm.
    pub alg: String,
    /// The JSON text of the public key.
    pub jwk: Option<String>,
}

/// A [`TokenHeader`] with its texts as character sequences.
#[verifier::ext_equal]
pub struct TokenHeaderView {
    pub typ: Option<Seq<char>>,
    pub alg: Seq<char>,
    pub jwk: Option<Seq<char>>,
}

impl View for TokenHeader {
    type V = TokenHeaderView;

    open spec fn view(&self) -> TokenHeaderView {
        TokenHeaderView { typ: optional(self.typ), alg: self.alg@, jwk: optional(self.jwk) }
    }
}

/// What [`jsonwebtoken::decode_header`] reads from a token, or its error message.
pub uninterp spec fn token_header(token: Seq<char>) -> Result<TokenHeaderView, Seq<char>>;

/// The SHA-256 thumbprint (RFC 7638) that [`jsonwebtoken::jwk::Jwk::thumbprint`] computes
/// of the key in a JSON text, if there is one.
pub uninterp spec fn jwk_thumbprint(json: Seq<char>) -> Option<Seq<char>>;

/// The verification key that [`jsonwebtoken::DecodingKey::from_jwk`] makes of the key in
/// a JSON text, or its error message.
pub uninterp spec fn jwk_key(json: Seq<char>) -> Result<DecodingKeyView, Seq<char>>;

/// The JSON text of the public key that [`jsonwebtoken::jwk::Jwk::from_encoding_key`] makes
/// of an EC private key (PKCS#8 DER) for ES256, or its error message.
pub uninterp spec fn public_jwk_of(der: Seq<u8>) -> Result<Seq<char>, Seq<char>>;

/// The JSON text of the claims of a token that [`jsonwebtoken::decode`] gives when the
/// token is signed with the named algorithm and the signature is valid under the key, or
/// its error message. No claim is checked against the time, an issuer or an audience.
pub uninterp spec fn signed_claims(
    alg: Seq<char>,
    key: DecodingKeyView,
    token: Seq<char>,
) -> Result<Seq<char>, Seq<char>>;

/// The token that [`jsonwebtoken::encode`] makes of claims in a JSON text, or its error
/// message.
pub uninterp spec fn signed_token(
    alg: Seq<char>,
    key: EncodingKeyView,
    claims: Seq<char>,
) -> Result<Seq<char>, Seq<char>>;

/// `jsonwebtoken::decode_header`, with the algorithm by its name and the key as JSON text.
#[verifier::external_body]
pub(crate) fn decode_header(token: &str) -> (header: Result<TokenHeader, String>)
    ensures
        outcome(header) == token_header(token@),
{
    match jsonwebtoken::decode_header(token) {
        Ok(header) => Ok(TokenHeader {
            typ: header.typ,
            alg: format!("{:?}", header.alg),
            jwk: header.jwk.map(|jwk| serde_json::to_string(&jwk).unwrap()),
        }),
        Err(error) => Err(error.to_string()),
    }
}

/// `jsonwebtoken::jwk::Jwk::thumbprint` with SHA-256, on the key in a JSON text: the
/// base64url text of a digest of 32 bytes.
#[verifier::external_body]
pub(crate) fn thumbprint(json: &str) -> (thumbprint: Option<String>)
    ensures
        optional(thumbprint) == jwk_thumbprint(json@),
        thumbprint is Some ==> thumbprint->0@.len() == 43,
{
    let jwk: jsonwebtoken::jwk::Jwk = serde_json::from_str(json).ok()?;
    jwk.thumbprint(jsonwebtoken::jwk::ThumbprintHash::SHA256).ok()
}

/// `jsonwebtoken::DecodingKey::from_jwk`, on the key in a JSON text.
#[verifier::external_body]
pub(crate) fn key_from_jwk(json: &str) -> (key: Result<DecodingKey, String>)
    ensures
        outcome(key) == jwk_key(json@),
{
    let jwk: jsonwebtoken::jwk::Jwk = serde_json::from_str(json).map_err(|e| e.to_string())?;
    let key = VerifyingKey::from_jwk(&jwk).map_err(|e| e.to_string())?;
    Ok(match (key.family(), key.kind()) {
        (_, DecodingKeyKind::RsaModulusExponent { n, e }) =>
            DecodingKey::Rsa { n: n.clone(), e: e.clone() },
        (AlgorithmFamily::Ec, DecodingKeyKind::SecretOrDer(b)) =>
            DecodingKey::Ec(b.clone()),
        (AlgorithmFamily::Ed, DecodingKeyKind::SecretOrDer(b)) =>
            DecodingKey::Ed(b.clone()),
        (_, DecodingKeyKind::SecretOrDer(b)) => DecodingKey::Secret(b.clone()),
    })
}

/// `jsonwebtoken::jwk::Jwk::from_encoding_key` for ES256, on an EC private key: the public
/// key that belongs to it, as JSON text.
#[verifier::external_body]
pub(crate) fn public_jwk(der: &[u8]) -> (json: Result<String, String>)
    ensures
        outcome(json) == public_jwk_of(der@),
{
    let alg = jsonwebtoken::Algorithm::ES256;
    match jsonwebtoken::jwk::Jwk::from_encoding_key(&SigningKey::from_ec_der(der), alg) {
        Ok(jwk) => Ok(serde_json::to_string(&jwk).unwrap()),
        Err(error) => Err(error.to_string()),
    }
}

/// Whether a public key is the one that belongs to a private key for ES256, as an
/// uncompressed point.
pub open spec fn is_public_key_of(public: DecodingKeyView, private: EncodingKeyView) -> bool {
    &&& public is Ec
    &&& private matches EncodingKeyView::EcDer(der)
    &&& public_jwk_of(der) matches Ok(json)
    &&& jwk_key(json) == Ok::<_, Seq<char>>(public)
}

/// Whether a public key is the one that belongs to a private key for ES256, as an
/// uncompressed point.
pub fn belongs_to(public: &DecodingKey, private: &EncodingKey) -> (belongs: bool)
    ensures
        belongs == is_public_key_of(public@, private@),
{
    if let EncodingKey::EcDer(der) = private {
        if let Ok(json) = public_jwk(der) {
            if let Ok(key) = key_from_jwk(&json) {
                if let (DecodingKey::Ec(made), DecodingKey::Ec(given)) = (&key, public) {
                    return constant_time_same(made, given);
                }
            }
        }
    }
    false
}

/// Whether a key is long enough for an algorithm to be tried with it: an EdDSA key has at
/// least 32 bytes.
pub open spec fn is_usable(alg: Seq<char>, key: DecodingKeyView) -> bool {
    alg == "EdDSA"@ ==> (key matches DecodingKeyView::Ed(bytes) ==> bytes.len() >= 32)
}

/// The claims of a token as JSON text, where the key can be used and accepts the signature.
pub open spec fn verified_claims(
    alg: Seq<char>,
    key: DecodingKeyView,
    token: Seq<char>,
) -> Result<Seq<char>, Seq<char>> {
    if is_usable(alg, key) {
        signed_claims(alg, key, token)
    } else {
        Err("InvalidEddsaKey"@)
    }
}

/// Verifies the signature of a token, and gives its claims as JSON text.
pub fn verify_signature(alg: &str, key: &DecodingKey, token: &str) -> (claims: Result<
    String,
    String,
>)
    ensures
        outcome(claims) == verified_claims(alg@, key@, token@),
{
    if let DecodingKey::Ed(bytes) = key {
        if same(alg, "EdDSA") && bytes.len() < 32 {
            return Err("InvalidEddsaKey".to_owned());
        }
    }
    decode(alg, key, token)
}

/// `jsonwebtoken::decode` with every check of the claims switched off: the token must be
/// signed with the named algorithm and its signature must be valid under the key. Gives
/// the claims as JSON text. An EdDSA key of fewer than 32 bytes makes it panic.
#[verifier::external_body]
fn decode(alg: &str, key: &DecodingKey, token: &str) -> (claims: Result<String, String>)
    requires
        is_usable(alg@, key@),
    ensures
        outcome(claims) == signed_claims(alg@, key@, token@),
{
    let key = match key {
        DecodingKey::Secret(bytes) => VerifyingKey::from_secret(bytes),
        DecodingKey::Ec(bytes) => VerifyingKey::from_ec_der(bytes),
        DecodingKey::Ed(bytes) => VerifyingKey::from_ed_der(bytes),
        DecodingKey::Rsa { n, e } => VerifyingKey::from_rsa_raw_components(n, e),
    };
    let text = |e: Error| e.to_string();
    let mut validation = Validation::new(alg.parse().map_err(text)?);
    validation.validate_exp = false;
    validation.validate_aud = false;
    validation.required_spec_claims.clear();
    let data = jsonwebtoken::decode::<Box<RawValue>>(token, &key, &validation).map_err(text)?;
    Ok(data.claims.get().to_string())
}

/// Whether a JSON text is a string, a literal, or a number without an exponent.
pub open spec fn is_scalar(json: Seq<char>) -> bool {
    ||| string_of_json(json) is Some
    ||| json == "true"@
    ||| json == "false"@
    ||| json == "null"@
    ||| json.len() > 0 && (json[0] == '-' || ('0' <= json[0] && json[0] <= '9'))
        && !json.contains('e') && !json.contains('E')
}

/// Whether the claims that `jsonwebtoken::decode` reads itself are ones that it can read,
/// as far as they are there: `sub`, `iss` and `aud` strings, `exp` a number, and `nbf` a
/// scalar.
pub open spec fn registered_claims_are_plain(claims: Map<Seq<char>, Seq<char>>) -> bool {
    let is_string = |name: Seq<char>| match member(claims, name) {
        Some(json) => string_of_json(json) is Some,
        None => true,
    };
    &&& is_string("sub"@)
    &&& is_string("iss"@)
    &&& is_string("aud"@)
    &&& match member(claims, "exp"@) {
        Some(json) => number_of_json(json) is Some,
        None => true,
    }
    &&& match member(claims, "nbf"@) {
        Some(json) => is_scalar(json),
        None => true,
    }
}

/// Whether a JSON text is an object with no member twice, whose registered claims
/// `jsonwebtoken::decode` can read.
pub open spec fn is_decodable(json: Seq<char>) -> bool {
    &&& object_of_json(json) matches Some(claims)
    &&& registered_claims_are_plain(claims)
    &&& repeats_none(json)
}

/// Whether a token says what the claims say: whatever key it verifies under, its claims
/// are these.
pub open spec fn carries(token: Seq<char>, claims: Seq<char>) -> bool {
    forall|alg: Seq<char>, key: DecodingKeyView|
        (#[trigger] signed_claims(alg, key, token)) matches Ok(read) ==> read == claims
}

/// Whether a token carries the claims and verifies with HS256 under the secret.
pub open spec fn is_token_of(token: Seq<char>, secret: Seq<u8>, claims: Seq<char>) -> bool {
    signed_claims("HS256"@, DecodingKeyView::Secret(secret), token) == Ok::<_, Seq<char>>(claims)
}

/// Whether a token carries the claims and verifies with ES256 under the public key that
/// belongs to the private key.
pub open spec fn is_signed_by(
    token: Seq<char>,
    private: EncodingKeyView,
    claims: Seq<char>,
) -> bool {
    forall|public: DecodingKeyView|
        is_public_key_of(public, private) ==> #[trigger] signed_claims("ES256"@, public, token)
            == Ok::<_, Seq<char>>(claims)
}

/// `jsonwebtoken::encode` with a header that holds the type `JWT` and the algorithm, on
/// claims in a JSON text.
///
/// Where `jsonwebtoken::decode` accepts the token, it gives back the claims. With HS256
/// and a secret encoding does not fail, and the token is accepted under the same secret, as
/// long as the claims are an object that decoding can read. A token that is made with ES256
/// is accepted under the public key that belongs to the private key.
#[verifier::external_body]
pub(crate) fn encode(alg: &str, key: &EncodingKey, claims: &str) -> (token: Result<String, String>)
    requires
        alg@ == "HS256"@ || alg@ == "ES256"@,
        is_raw_json(claims@),
    ensures
        outcome(token) == signed_token(alg@, key@, claims@),
        token matches Ok(text) ==> carries(text@, claims@),
        alg@ == "HS256"@ && key@ is Secret ==> token is Ok,
        alg@ == "HS256"@ && key@ is Secret && is_decodable(claims@) ==> is_token_of(
            token->Ok_0@,
            key@->Secret_0,
            claims@,
        ),
        alg@ == "ES256"@ && token is Ok && is_decodable(claims@) ==> is_signed_by(
            token->Ok_0@,
            key@,
            claims@,
        ),
{
    let key = match key {
        EncodingKey::Secret(bytes) => SigningKey::from_secret(bytes),
        EncodingKey::EcDer(bytes) => SigningKey::from_ec_der(bytes),
        EncodingKey::RsaDer(bytes) => SigningKey::from_rsa_der(bytes),
        EncodingKey::EdDer(bytes) => SigningKey::from_ed_der(bytes),
    };
    let text = |e: Error| e.to_string();
    let header = jsonwebtoken::Header::new(alg.parse().map_err(text)?);
    let claims = RawValue::from_string(claims.to_string()).unwrap();
    jsonwebtoken::encode(&header, &claims, &key).map_err(text)
}

} // verus!
