//! Refresh-token cookie helpers.

use axum_extra::extract::cookie::Cookie;
use vstd::prelude::*;

use crate::config::{CookieConfig, CookieConfigView, SameSite};
use crate::text::{decimal, optional, same};
use crate::time::duration_secs;

pub mod laws;

verus! {

/// The name and value of a cookie as [`cookie::Cookie::encoded`] prints them: both
/// percent-encoded, with `=` between them.
pub uninterp spec fn cookie_pair(name: Seq<char>, value: Seq<char>) -> Seq<char>;

/// The names and values of the cookies that [`cookie::Cookie::split_parse`] reads from a
/// `Cookie` header, with nothing for each part that is no cookie.
pub uninterp spec fn cookies_in(header: Seq<char>) -> Seq<Option<(Seq<char>, Seq<char>)>>;

/// Whether a text holds letters, digits, `-` and `_` only.
pub open spec fn is_plain(text: Seq<char>) -> bool {
    forall|i: int|
        0 <= i < text.len() ==> {
            let c = #[trigger] text[i];
            ('a' <= c && c <= 'z') || ('A' <= c && c <= 'Z') || ('0' <= c && c <= '9') || c == '-'
                || c == '_'
        }
}

/// The `Max-Age` of a cookie in seconds.
pub open spec fn max_age(cookie: CookieConfigView) -> nat {
    if duration_secs(cookie.max_age) <= i64::MAX {
        duration_secs(cookie.max_age) as nat
    } else {
        i64::MAX as nat
    }
}

/// The `SameSite` attribute as a part of a `Set-Cookie` header.
pub open spec fn same_site_part(same_site: SameSite) -> Seq<char> {
    match same_site {
        SameSite::Strict => "; SameSite=Strict"@,
        SameSite::Lax => "; SameSite=Lax"@,
        SameSite::Omitted => seq![],
    }
}

/// The attributes of a cookie as they end a `Set-Cookie` header value.
pub open spec fn cookie_attributes(cookie: CookieConfigView) -> Seq<char> {
    (if cookie.http_only {
        "; HttpOnly"@
    } else {
        seq![]
    }) + same_site_part(cookie.same_site) + (if cookie.secure {
        "; Secure"@
    } else {
        seq![]
    }) + "; Path="@ + cookie.path + "; Max-Age="@ + decimal(max_age(cookie))
}

/// `cookie::Cookie` with the given attributes, printed by `cookie::Cookie::encoded`: the
/// encoded name and value, then the attributes. Plain names and values stay as they are.
#[verifier::external_body]
fn print_cookie(config: &CookieConfig, value: &str, max_age_secs: i64) -> (text: String)
    requires
        max_age_secs == max_age(config@),
    ensures
        text@ == cookie_pair(config@.name, value@) + cookie_attributes(config@),
        is_plain(config@.name) && is_plain(value@) ==> text@ == config@.name + "="@ + value@
            + cookie_attributes(config@),
{
    let mut cookie = Cookie::new(config.name.clone(), value.to_string());
    cookie.set_path(config.path.clone());
    cookie.set_secure(config.secure);
    cookie.set_http_only(config.http_only);
    cookie.set_same_site(match config.same_site {
        SameSite::Strict => Some(axum_extra::extract::cookie::SameSite::Strict),
        SameSite::Lax => Some(axum_extra::extract::cookie::SameSite::Lax),
        SameSite::Omitted => None,
    });
    cookie.set_max_age(time::Duration::seconds(max_age_secs));
    cookie.encoded().to_string()
}

/// A list of cookies with their texts as character sequences.
pub open spec fn cookie_views(cookies: Seq<Option<(String, String)>>) -> Seq<
    Option<(Seq<char>, Seq<char>)>,
> {
    Seq::new(
        cookies.len(),
        |i: int|
            match cookies[i] {
                Some(cookie) => Some((cookie.0@, cookie.1@)),
                None => None,
            },
    )
}

/// Whether a header is one cookie whose name and value need no encoding.
pub open spec fn is_plain_pair(header: Seq<char>, name: Seq<char>, value: Seq<char>) -> bool {
    name.len() > 0 && is_plain(name) && is_plain(value) && header == name + "="@ + value
}

/// `cookie::Cookie::split_parse`: the cookies of a `Cookie` header, none of them decoded.
/// A header that is one plain cookie gives that cookie.
#[verifier::external_body]
fn split_cookies(header: &str) -> (cookies: Vec<Option<(String, String)>>)
    ensures
        cookie_views(cookies@) == cookies_in(header@),
        forall|name: Seq<char>, value: Seq<char>| #[trigger]
            is_plain_pair(header@, name, value) ==> cookie_views(cookies@) == seq![
                Some((name, value)),
            ],
{
    Cookie::split_parse(header)
        .map(|cookie| cookie.ok().map(|c| (c.name().to_string(), c.value().to_string())))
        .collect()
}

/// Build a `Set-Cookie` header value carrying the refresh token.
///
/// Applies the attributes from `CookieConfig` (`__Host-` prefix, `Secure`,
/// `HttpOnly`, `SameSite`, `Max-Age`).
pub fn refresh_token_cookie(config: &CookieConfig, value: &str) -> (text: String)
    ensures
        text@ == cookie_pair(config@.name, value@) + cookie_attributes(config@),
        is_plain(config@.name) && is_plain(value@) ==> text@ == config@.name + "="@ + value@
            + cookie_attributes(config@),
{
    let secs: u64 = config.max_age.as_secs();
    let max_age_secs: i64 = if secs <= i64::MAX as u64 {
        secs as i64
    } else {
        i64::MAX
    };
    print_cookie(config, value, max_age_secs)
}

/// The value of the first cookie with the name.
pub open spec fn first_value(
    cookies: Seq<Option<(Seq<char>, Seq<char>)>>,
    name: Seq<char>,
) -> Option<Seq<char>>
    decreases cookies.len(),
{
    if cookies.len() == 0 {
        None
    } else {
        match cookies[0] {
            Some(cookie) if cookie.0 == name => Some(cookie.1),
            _ => first_value(cookies.skip(1), name),
        }
    }
}

/// The value of the first cookie with the name.
pub fn find_cookie(cookies: &Vec<Option<(String, String)>>, name: &str) -> (value: Option<String>)
    ensures
        optional(value) == first_value(cookie_views(cookies@), name@),
{
    let ghost all = cookie_views(cookies@);
    let mut i: usize = 0;
    assert(all.skip(0) =~= all);
    while i < cookies.len()
        invariant
            all == cookie_views(cookies@),
            i <= cookies@.len(),
            first_value(all.skip(i as int), name@) == first_value(all, name@),
        decreases cookies@.len() - i,
    {
        assert(all.skip(i as int)[0] == all[i as int]);
        if let Some(cookie) = &cookies[i] {
            if same(&cookie.0, name) {
                return Some(cookie.1.clone());
            }
        }
        assert(all.skip(i as int).skip(1) =~= all.skip(i + 1));
        i += 1;
    }
    assert(all.skip(i as int).len() == 0);
    None
}

/// Read a cookie value from a `Cookie` header, if present.
pub fn read_cookie(cookie_header: &str, name: &str) -> (value: Option<String>)
    ensures
        optional(value) == first_value(cookies_in(cookie_header@), name@),
        forall|value_text: Seq<char>| #[trigger]
            is_plain_pair(cookie_header@, name@, value_text) ==> optional(value) == Some(
                value_text,
            ),
{
    let cookies = split_cookies(cookie_header);
    let value = find_cookie(&cookies, name);
    proof {
        assert forall|value_text: Seq<char>| #[trigger]
            is_plain_pair(cookie_header@, name@, value_text) implies optional(value) == Some(
            value_text,
        ) by {
            assert(cookies_in(cookie_header@)[0] == Some((name@, value_text)));
        }
    }
    value
}

/// A refresh secret, which is base64url text, is a cookie value that needs no encoding.
pub proof fn law_refresh_secret_is_plain(bytes: Seq<u8>)
    ensures
        is_plain(crate::crypto::base64url(bytes)),
    decreases bytes.len(),
{
    if bytes.len() >= 3 {
        law_refresh_secret_is_plain(bytes.skip(3));
        lemma_base64url_char_is_plain((bytes[0] / 4) as int);
        lemma_base64url_char_is_plain((bytes[0] % 4) * 16 + bytes[1] / 16);
        lemma_base64url_char_is_plain((bytes[1] % 16) * 4 + bytes[2] / 64);
        lemma_base64url_char_is_plain((bytes[2] % 64) as int);
    } else if bytes.len() == 2 {
        lemma_base64url_char_is_plain((bytes[0] / 4) as int);
        lemma_base64url_char_is_plain((bytes[0] % 4) * 16 + bytes[1] / 16);
        lemma_base64url_char_is_plain((bytes[1] % 16) * 4);
    } else if bytes.len() == 1 {
        lemma_base64url_char_is_plain((bytes[0] / 4) as int);
        lemma_base64url_char_is_plain((bytes[0] % 4) * 16);
    }
}

/// A client that sends a refresh cookie back as it was set hands in the refresh secret:
/// the pair of name and value is one that [`read_cookie`] reads as it stands.
pub proof fn law_refresh_cookie_comes_back(cookie: CookieConfigView, bytes: Seq<u8>)
    requires
        cookie.name.len() > 0,
        is_plain(cookie.name),
    ensures
        ({
            let secret = crate::crypto::base64url(bytes);
            is_plain_pair(cookie.name + "="@ + secret, cookie.name, secret)
        }),
{
    law_refresh_secret_is_plain(bytes);
}

/// Every base64url character is plain.
proof fn lemma_base64url_char_is_plain(six_bits: int)
    requires
        0 <= six_bits < 64,
    ensures
        is_plain(seq![crate::crypto::base64url_char(six_bits)]),
{
    let text = seq![crate::crypto::base64url_char(six_bits)];
    assert(text[0] == crate::crypto::base64url_char(six_bits));
}

} // verus!
