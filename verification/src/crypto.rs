//! Cryptographic primitives for DPoP: JWK thumbprint (RFC 7638), the `ath`
//! claim (base64url SHA-256 of the access token), and opaque token hashing.

use base64ct::Encoding;
use sha2::Digest;
use subtle::ConstantTimeEq;
use vstd::prelude::*;

use crate::error::{DpopError, DpopErrorView};
use crate::jose::{jwk_thumbprint, thumbprint, Jwk};
use crate::text::{bytes_of, outcome};

pub mod entropy;
pub mod password;

verus! {

/// The SHA-256 digest that [`sha2::Sha256::digest`] computes.
pub uninterp spec fn sha256(data: Seq<u8>) -> Seq<u8>;

/// The URL-safe base64 character of six bits.
pub open spec fn base64url_char(six_bits: int) -> char {
    if six_bits < 26 {
        (('A' as u32) + six_bits) as char
    } else if six_bits < 52 {
        (('a' as u32) + six_bits - 26) as char
    } else if six_bits < 62 {
        (('0' as u32) + six_bits - 52) as char
    } else if six_bits == 62 {
        '-'
    } else {
        '_'
    }
}

/// The URL-safe base64 text of bytes, without padding.
pub open spec fn base64url(bytes: Seq<u8>) -> Seq<char>
    decreases bytes.len(),
{
    if bytes.len() == 0 {
        seq![]
    } else if bytes.len() == 1 {
        seq![base64url_char((bytes[0] / 4) as int), base64url_char((bytes[0] % 4) * 16)]
    } else if bytes.len() == 2 {
        seq![
            base64url_char((bytes[0] / 4) as int),
            base64url_char((bytes[0] % 4) * 16 + bytes[1] / 16),
            base64url_char((bytes[1] % 16) * 4),
        ]
    } else {
        seq![
            base64url_char((bytes[0] / 4) as int),
            base64url_char((bytes[0] % 4) * 16 + bytes[1] / 16),
            base64url_char((bytes[1] % 16) * 4 + bytes[2] / 64),
            base64url_char((bytes[2] % 64) as int),
        ] + base64url(bytes.skip(3))
    }
}

/// The lower-case hexadecimal digit of four bits.
pub open spec fn hex_digit(four_bits: int) -> char {
    if four_bits < 10 {
        (('0' as u32) + four_bits) as char
    } else {
        (('a' as u32) + four_bits - 10) as char
    }
}

/// The lower-case hexadecimal text of bytes, two digits each.
pub open spec fn hex(bytes: Seq<u8>) -> Seq<char> {
    Seq::new(
        2 * bytes.len(),
        |i: int|
            if i % 2 == 0 {
                hex_digit((bytes[i / 2] / 16) as int)
            } else {
                hex_digit((bytes[i / 2] % 16) as int)
            },
    )
}

/// The `ath` value of an access token.
pub open spec fn ath(access_token: Seq<char>) -> Seq<char> {
    base64url(sha256(bytes_of(access_token)))
}

/// The stored hash of an opaque token.
pub open spec fn token_hash(secret: Seq<u8>) -> Seq<char> {
    hex(sha256(secret))
}

/// The outcome of computing a thumbprint.
pub open spec fn thumbprint_outcome(json: Seq<char>) -> Result<Seq<char>, DpopErrorView> {
    match jwk_thumbprint(json) {
        Some(thumbprint) => Ok(thumbprint),
        None => Err(DpopErrorView::InvalidSignature("failed to compute JWK thumbprint"@)),
    }
}

/// `sha2::Sha256::digest`: the SHA-256 digest of the data, 32 bytes.
#[verifier::external_body]
pub(crate) fn sha256_digest(data: &[u8]) -> (digest: Vec<u8>)
    ensures
        digest@ == sha256(data@),
        digest@.len() == 32,
{
    sha2::Sha256::digest(data).to_vec()
}

/// `base64ct::Base64UrlUnpadded::encode_string`: the URL-safe base64 text of the bytes,
/// without padding.
#[verifier::external_body]
pub(crate) fn encode_base64url(bytes: &[u8]) -> (text: String)
    requires
        bytes@.len() <= usize::MAX / 4,
    ensures
        text@ == base64url(bytes@),
{
    base64ct::Base64UrlUnpadded::encode_string(bytes)
}

/// `hex::encode`: the lower-case hexadecimal text of the bytes.
#[verifier::external_body]
pub(crate) fn encode_hex(bytes: &[u8]) -> (text: String)
    requires
        bytes@.len() <= usize::MAX / 4,
    ensures
        text@ == hex(bytes@),
{
    hex::encode(bytes)
}

/// `subtle::ConstantTimeEq::ct_eq` on byte strings: whether they are equal.
#[verifier::external_body]
pub(crate) fn constant_time_same(a: &[u8], b: &[u8]) -> (same: bool)
    ensures
        same == (a@ == b@),
{
    bool::from(a.ct_eq(b))
}

/// Compute the JWK SHA-256 thumbprint (RFC 7638).
///
/// The thumbprint is a canonical hash of the public key: only the
/// required JWK members are serialized in a canonical order and hashed
/// with SHA-256. It is used as the `cnf.jkt` value in access tokens
/// (RFC 9449 p.6.1).
pub fn compute_jwk_thumbprint(jwk: &Jwk) -> (result: Result<String, DpopError>)
    ensures
        outcome(result) == thumbprint_outcome(jwk@),
        result matches Ok(text) ==> text@.len() == 43,
{
    match thumbprint(&jwk.json) {
        Some(thumbprint) => Ok(thumbprint),
        None => Err(DpopError::InvalidSignature("failed to compute JWK thumbprint".to_owned())),
    }
}

/// Compute the `ath` claim: base64url(SHA-256(access_token)).
///
/// Binds a DPoP proof to a specific access token value, so a proof
/// cannot be replayed with a different token (RFC 9449 p.4.2).
pub fn compute_ath(access_token: &str) -> (text: String)
    ensures
        text@ == ath(access_token@),
        text@.len() == 43,
{
    let digest = sha256_digest(access_token.as_bytes());
    proof {
        lemma_base64url_len(digest@);
    }
    encode_base64url(&digest)
}

/// Hash an opaque token secret with SHA-256, hex-encoded.
///
/// Only the hash is stored in the database: a database leak must not
/// reveal usable refresh tokens. The secret has 256 bits of entropy,
/// so SHA-256 is enough (Argon2 is not needed).
pub fn hash_token(secret: &[u8]) -> (text: String)
    ensures
        text@ == token_hash(secret@),
        text@.len() == 64,
{
    let digest = sha256_digest(secret);
    encode_hex(&digest)
}

/// Base64 text without padding has four characters for each three bytes, and one more
/// than the bytes that are left, if any.
pub proof fn lemma_base64url_len(bytes: Seq<u8>)
    ensures
        base64url(bytes).len() == 4 * (bytes.len() / 3) + (if bytes.len() % 3 == 0 {
            0
        } else {
            bytes.len() % 3 + 1
        }),
    decreases bytes.len(),
{
    if bytes.len() >= 3 {
        lemma_base64url_len(bytes.skip(3));
    }
}

/// Different digits have different characters.
proof fn lemma_hex_digit_injective(a: int, b: int)
    requires
        0 <= a < 16,
        0 <= b < 16,
        hex_digit(a) == hex_digit(b),
    ensures
        a == b,
{
    assert(hex_digit(a) as u32 == (if a < 10 { 48 + a } else { 87 + a }));
    assert(hex_digit(b) as u32 == (if b < 10 { 48 + b } else { 87 + b }));
}

/// Different bytes have different hexadecimal texts.
pub proof fn lemma_hex_injective(a: Seq<u8>, b: Seq<u8>)
    requires
        hex(a) == hex(b),
    ensures
        a == b,
{
    assert(hex(a).len() == 2 * a.len() && hex(b).len() == 2 * b.len());
    assert(a.len() == b.len());
    assert forall|i: int| 0 <= i < a.len() implies a[i] == b[i] by {
        assert(hex(a)[2 * i] == hex(b)[2 * i]);
        assert(hex(a)[2 * i + 1] == hex(b)[2 * i + 1]);
        assert((2 * i) / 2 == i && (2 * i + 1) / 2 == i);
        assert((2 * i) % 2 == 0 && (2 * i + 1) % 2 == 1);
        assert(hex(a)[2 * i] == hex_digit((a[i] / 16) as int));
        assert(hex(b)[2 * i] == hex_digit((b[i] / 16) as int));
        assert(hex(a)[2 * i + 1] == hex_digit((a[i] % 16) as int));
        assert(hex(b)[2 * i + 1] == hex_digit((b[i] % 16) as int));
        lemma_hex_digit_injective((a[i] / 16) as int, (b[i] / 16) as int);
        lemma_hex_digit_injective((a[i] % 16) as int, (b[i] % 16) as int);
    }
    assert(a =~= b);
}

/// Two tokens have one stored hash exactly when they have one digest.
pub proof fn law_token_hash_is_the_digest(a: Seq<u8>, b: Seq<u8>)
    ensures
        token_hash(a) == token_hash(b) <==> sha256(a) == sha256(b),
{
    if token_hash(a) == token_hash(b) {
        lemma_hex_injective(sha256(a), sha256(b));
    }
}

/// The `ath` of an access token is the base64url text of the SHA-256 digest of its bytes,
/// and the stored hash of a secret is the hexadecimal text of its digest.
pub proof fn law_hashes_are_of_the_whole_text(
    access_token: &str,
    ath_text: String,
    secret: &[u8],
    hash: String,
)
    requires
        call_ensures(compute_ath, (access_token,), ath_text),
        call_ensures(hash_token, (secret,), hash),
    ensures
        ath_text@ == base64url(sha256(bytes_of(access_token@))),
        hash@ == hex(sha256(secret@)),
{
}

/// The thumbprint of a key is that of the key itself.
pub proof fn law_thumbprint_is_of_the_key(jwk: Jwk, result: Result<String, DpopError>)
    requires
        call_ensures(compute_jwk_thumbprint, (&jwk,), result),
    ensures
        result matches Ok(text) ==> jwk_thumbprint(jwk.json@) == Some(text@),
        result is Err <==> jwk_thumbprint(jwk.json@) is None,
{
}

} // verus!
