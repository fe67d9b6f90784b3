# dpop_auth

DPoP (RFC 9449) authentication, verified with Verus: sender-constrained access tokens,
opaque refresh tokens with rotation (RFC 9700), TOTP two-factor authentication, and a
transactional email outbox.

- `src/` is the library. Its functions carry contracts that Verus proves, and the laws that
  hold of the library as a whole are public proof functions named `law_*`.
- `tests/` runs the library on concrete values.
- `app/` is ordinary Rust around the library: the axum layer and extractor, the PostgreSQL
  store, and the asynchronous email senders.

## Layout of `src/`

| module | what it holds |
| --- | --- |
| `dpop` | reading and judging DPoP proofs |
| `replay` | what holds of one validation after another |
| `token` | issuing and verifying access tokens |
| `middleware`, `extractor`, `state` | which requests are authenticated, and what a handler gets |
| `service` | the account operations as conversations with a store |
| `totp` | TOTP codes and recovery codes |
| `email` | composing email; senders for development and tests |
| `cache`, `crypto`, `cookie`, `jose`, `json` | the calls into moka, SHA-2, Argon2, cookies, JWS and JSON |
| `config`, `error`, `store` | configuration, errors, row types |
| `claims`, `text`, `time` | helpers |

An operation of `service` asks queries (`Query`) and is given replies (`Reply`) until it is
done. `service::world` says what a store makes of the queries; the laws in `service::world`,
`service::laws` and `service::factor_laws` hold of every run against such a store.

A login is refused once ten attempts under its identifier failed in the last 15 minutes
(`LOGIN_FAILURE_LIMIT`, `LOGIN_WINDOW_MICROS`).

## What is trusted

Calls into other crates stand in small functions marked `external_body`. Their contracts say
what the crate's documentation or source promises. Results that take pages to state, such as
a SHA-256 digest, have names without a definition (`uninterp spec fn`). What depends on the
time, on chance or on shared caches is an argument of a verified function that decides what
follows from it. Each lookup, entry and claim in a cache, and each check of a mail relay, gives
a value that only the call can make, so that contracts can say that it was made.
