//! What holds of the refresh cookie.

use vstd::prelude::*;

use crate::config::{CookieConfig, SameSite};
use crate::cookie::{cookie_pair, cookies_in, first_value, read_cookie, refresh_token_cookie};
use crate::text::decimal;
use crate::time::duration_secs;

verus! {

/// The refresh cookie carries the token under the name of the configuration, with each of
/// its attributes: `HttpOnly`, `SameSite`, `Secure`, the path and the lifetime in seconds.
pub proof fn law_refresh_cookie_is_as_configured(config: &CookieConfig, value: &str, text: String)
    requires
        call_ensures(refresh_token_cookie, (config, value), text),
    ensures
        ({
            let http_only = if config.http_only {
                "; HttpOnly"@
            } else {
                Seq::<char>::empty()
            };
            let same_site = if config.same_site == SameSite::Strict {
                "; SameSite=Strict"@
            } else if config.same_site == SameSite::Lax {
                "; SameSite=Lax"@
            } else {
                Seq::<char>::empty()
            };
            let secure = if config.secure {
                "; Secure"@
            } else {
                Seq::<char>::empty()
            };
            let lifetime = if duration_secs(config.max_age) <= 9_223_372_036_854_775_807u64 {
                duration_secs(config.max_age) as nat
            } else {
                9_223_372_036_854_775_807nat
            };
            text@ == cookie_pair(config.name@, value@) + (http_only + same_site + secure
                + "; Path="@ + config.path@ + "; Max-Age="@ + decimal(lifetime))
        }),
{
}

/// The cookie that is read is the first one with the name, and there is none only where no
/// cookie of the header has it.
pub proof fn law_first_cookie_with_the_name_is_read(
    header: &str,
    name: &str,
    value: Option<String>,
)
    requires
        call_ensures(read_cookie, (header, name), value),
    ensures
        value matches Some(text) ==> exists|i: int|
            is_first_named(cookies_in(header@), i, name@) && (#[trigger] cookies_in(header@)[i])
                == Some((name@, text@)),
        value is None ==> forall|i: int|
            0 <= i < cookies_in(header@).len() ==> !is_named(
                #[trigger] cookies_in(header@)[i],
                name@,
            ),
{
    lemma_first(cookies_in(header@), name@);
}

/// Whether a part of a header is a cookie with the name.
pub open spec fn is_named(cookie: Option<(Seq<char>, Seq<char>)>, name: Seq<char>) -> bool {
    cookie matches Some(pair) && pair.0 == name
}

/// Whether a place is that of the first cookie with the name.
pub open spec fn is_first_named(
    cookies: Seq<Option<(Seq<char>, Seq<char>)>>,
    i: int,
    name: Seq<char>,
) -> bool {
    &&& 0 <= i < cookies.len()
    &&& is_named(cookies[i], name)
    &&& forall|k: int| 0 <= k < i ==> !is_named(#[trigger] cookies[k], name)
}

/// The first value with a name is that of the first cookie with it.
proof fn lemma_first(cookies: Seq<Option<(Seq<char>, Seq<char>)>>, name: Seq<char>)
    ensures
        first_value(cookies, name) matches Some(text) ==> exists|i: int|
            is_first_named(cookies, i, name) && (#[trigger] cookies[i]) == Some((name, text)),
        first_value(cookies, name) is None ==> forall|i: int|
            0 <= i < cookies.len() ==> !is_named(#[trigger] cookies[i], name),
    decreases cookies.len(),
{
    if cookies.len() > 0 {
        let rest = cookies.skip(1);
        if is_named(cookies[0], name) {
            assert(is_first_named(cookies, 0, name));
        } else {
            lemma_first(rest, name);
            if let Some(text) = first_value(rest, name) {
                let i = choose|i: int|
                    is_first_named(rest, i, name) && (#[trigger] rest[i]) == Some((name, text));
                assert(cookies[i + 1] == rest[i]);
                assert forall|k: int| 0 <= k < i + 1 implies !is_named(
                    #[trigger] cookies[k],
                    name,
                ) by {
                    if k > 0 {
                        assert(rest[k - 1] == cookies[k]);
                    }
                }
                assert(is_first_named(cookies, i + 1, name));
            } else {
                assert forall|i: int| 0 <= i < cookies.len() implies !is_named(
                    #[trigger] cookies[i],
                    name,
                ) by {
                    if i > 0 {
                        assert(rest[i - 1] == cookies[i]);
                    }
                }
            }
        }
    }
}

} // verus!
