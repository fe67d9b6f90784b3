//! Opaque token entropy generation and identifier hashing.

use vstd::arithmetic::power::pow;
use vstd::prelude::*;

use crate::crypto::{
    base64url, encode_base64url, hash_token, hex_digit, lemma_base64url_len, token_hash,
};
use crate::error::{DpopError, DpopErrorView};
use crate::text::{ascii_lowered, bytes_of, joined, outcome};

verus! {

/// Refresh-secret length in bytes (256 bits of entropy).
pub const REFRESH_SECRET_LEN: usize = 32;

/// The lower case that [`str::to_lowercase`] gives a text.
pub uninterp spec fn lowercase(text: Seq<char>) -> Seq<char>;

/// `str::to_lowercase`: the lower-case equivalent of a text. An ASCII text becomes the
/// same text with its letters in lower case.
pub assume_specification[ str::to_lowercase ](text: &str) -> (lower: String)
    ensures
        lower@ == lowercase(text@),
        vstd::utf8::is_ascii_chars(text@) ==> lower@ == ascii_lowered(text@),
;

/// `getrandom::fill`: as many random bytes as asked for, or its error message.
#[verifier::external_body]
pub(crate) fn random_bytes(len: usize) -> (bytes: Result<Vec<u8>, String>)
    requires
        len <= isize::MAX,
    ensures
        bytes is Ok ==> bytes->Ok_0@.len() == len,
{
    let mut bytes = vec![0u8; len];
    getrandom::fill(&mut bytes).map_err(|e| e.to_string())?;
    Ok(bytes)
}

/// Whether a text has the form of a UUID: 32 lower-case hexadecimal digits with hyphens
/// between the groups of 8, 4, 4, 4 and 12.
pub open spec fn is_uuid_text(text: Seq<char>) -> bool {
    &&& text.len() == 36
    &&& forall|i: int|
        0 <= i < 36 ==> if i == 8 || i == 13 || i == 18 || i == 23 {
            #[trigger] text[i] == '-'
        } else {
            ('0' <= text[i] && text[i] <= '9') || ('a' <= text[i] && text[i] <= 'f')
        }
}

/// The number of hexadecimal digits before a place in the text of a UUID.
pub open spec fn digits_before(place: int) -> int {
    if place <= 8 {
        place
    } else if place <= 13 {
        place - 1
    } else if place <= 18 {
        place - 2
    } else if place <= 23 {
        place - 3
    } else {
        place - 4
    }
}

/// The text of a UUID: the 32 hexadecimal digits of the number with hyphens between the
/// groups of 8, 4, 4, 4 and 12.
pub open spec fn uuid_text(id: u128) -> Seq<char> {
    Seq::new(
        36,
        |i: int|
            if i == 8 || i == 13 || i == 18 || i == 23 {
                '-'
            } else {
                hex_digit((id as int / pow(16, (31 - digits_before(i)) as nat)) % 16)
            },
    )
}

/// `uuid::Uuid::from_u128` and its text.
#[verifier::external_body]
pub(crate) fn print_uuid(id: u128) -> (text: String)
    ensures
        text@ == uuid_text(id),
{
    uuid::Uuid::from_u128(id).to_string()
}

/// `uuid::Uuid::new_v4` as a number: a random UUID.
#[verifier::external_body]
pub(crate) fn random_uuid() -> (id: u128) {
    uuid::Uuid::new_v4().as_u128()
}

/// The text of a random UUID.
pub(crate) fn random_uuid_text() -> (text: String)
    ensures
        is_uuid_text(text@),
{
    let id: u128 = random_uuid();
    proof {
        assert forall|i: int| 0 <= i < 36 implies if i == 8 || i == 13 || i == 18 || i == 23 {
            #[trigger] uuid_text(id)[i] == '-'
        } else {
            ('0' <= uuid_text(id)[i] && uuid_text(id)[i] <= '9') || ('a' <= uuid_text(id)[i]
                && uuid_text(id)[i] <= 'f')
        } by {
            let digit = (id as int / pow(16, (31 - digits_before(i)) as nat)) % 16;
            assert(0 <= digit < 16);
        }
    }
    print_uuid(id)
}

/// What stands for an identifier before it is hashed.
pub open spec fn identifier_text(kind: Seq<char>, value: Seq<char>) -> Seq<char> {
    lowercase(kind) + ":"@ + lowercase(value)
}

/// The hash of an identifier.
pub open spec fn identifier_digest(kind: Seq<char>, value: Seq<char>) -> Seq<char> {
    token_hash(bytes_of(identifier_text(kind, value)))
}

/// Computes a normalized SHA-256 hash of the identifier for audit spans.
///
/// Combines `kind` and `value` (both lowercased, separated by `:`) prior to
/// hashing via [`hash_token`]. This prevents cross-kind identifier collisions
/// while avoiding the leakage of raw Personally Identifiable Information (PII)
/// into telemetry and structured logs.
#[must_use]
pub fn identifier_hash(kind: &str, value: &str) -> (hash: String)
    ensures
        hash@ == identifier_digest(kind@, value@),
        hash@.len() == 64,
{
    let mut combined = joined(&kind.to_lowercase(), ":");
    combined.append(&value.to_lowercase());
    hash_token(combined.as_str().as_bytes())
}

/// Whether a text is the base64url text of a refresh secret.
pub open spec fn is_refresh_secret(text: Seq<char>) -> bool {
    exists|bytes: Seq<u8>| bytes.len() == REFRESH_SECRET_LEN && text == #[trigger] base64url(bytes)
}

/// What becomes of random bytes, or of the message of a failed source of them.
pub open spec fn refresh_secret_outcome(bytes: Result<Seq<u8>, Seq<char>>) -> Result<
    Seq<char>,
    DpopErrorView,
> {
    match bytes {
        Ok(bytes) => Ok(base64url(bytes)),
        Err(text) => Err(DpopErrorView::Internal(text)),
    }
}

/// The refresh secret made of random bytes, or of the message of a failed source of them.
pub fn refresh_secret_from(bytes: Result<Vec<u8>, String>) -> (secret: Result<String, DpopError>)
    requires
        bytes is Ok ==> bytes->Ok_0@.len() == REFRESH_SECRET_LEN,
    ensures
        outcome(secret) == refresh_secret_outcome(outcome(bytes)),
{
    match bytes {
        Ok(bytes) => Ok(encode_base64url(&bytes)),
        Err(text) => Err(DpopError::Internal(text)),
    }
}

/// Generates a cryptographically secure refresh token secret.
///
/// Produces 32 random bytes from the OS CSPRNG encoded as unpadded Base64URL
/// (43 characters, 256 bits of entropy).
///
/// # Errors
///
/// Returns [`DpopError::Internal`] if the underlying operating system entropy
/// source fails via `getrandom::fill`.
pub fn new_refresh_secret() -> (secret: Result<String, DpopError>)
    ensures
        match secret {
            Ok(text) => is_refresh_secret(text@) && text@.len() == 43,
            Err(error) => error is Internal,
        },
{
    let bytes = random_bytes(REFRESH_SECRET_LEN);
    proof {
        if bytes is Ok {
            lemma_base64url_len(bytes->Ok_0@);
        }
    }
    refresh_secret_from(bytes)
}

/// An identifier's hash is blind to letter case.
pub proof fn law_identifier_hash_ignores_case(
    kind: Seq<char>,
    value: Seq<char>,
    other_kind: Seq<char>,
    other_value: Seq<char>,
)
    requires
        lowercase(kind) == lowercase(other_kind),
        lowercase(value) == lowercase(other_value),
    ensures
        identifier_digest(kind, value) == identifier_digest(other_kind, other_value),
{
}

/// Identifiers of different kinds, or with different values, are hashed from different
/// texts, as long as no kind holds the separator.
pub proof fn law_identifier_text_is_unambiguous(
    kind: Seq<char>,
    value: Seq<char>,
    other_kind: Seq<char>,
    other_value: Seq<char>,
)
    requires
        !lowercase(kind).contains(':'),
        !lowercase(other_kind).contains(':'),
        identifier_text(kind, value) == identifier_text(other_kind, other_value),
    ensures
        lowercase(kind) == lowercase(other_kind),
        lowercase(value) == lowercase(other_value),
{
    reveal_strlit(":");
    let a = lowercase(kind);
    let b = lowercase(other_kind);
    let text = identifier_text(kind, value);
    let other = identifier_text(other_kind, other_value);
    assert(text[a.len() as int] == ':');
    assert(other[b.len() as int] == ':');
    if a.len() < b.len() {
        assert(other[a.len() as int] == b[a.len() as int]);
        assert(b.contains(':'));
    }
    if b.len() < a.len() {
        assert(text[b.len() as int] == a[b.len() as int]);
        assert(a.contains(':'));
    }
    assert(a =~= text.take(a.len() as int));
    assert(b =~= other.take(b.len() as int));
    assert(lowercase(value) =~= text.skip(a.len() + 1int));
    assert(lowercase(other_value) =~= other.skip(b.len() + 1int));
}

/// The hash of an identifier is the hexadecimal SHA-256 digest of its kind and its value in
/// lower case, with a colon between them.
pub proof fn law_identifier_hash_is_the_digest(kind: &str, value: &str, hash: String)
    requires
        call_ensures(identifier_hash, (kind, value), hash),
    ensures
        hash@ == crate::crypto::hex(
            crate::crypto::sha256(bytes_of(lowercase(kind@) + ":"@ + lowercase(value@))),
        ),
{
}

} // verus!
