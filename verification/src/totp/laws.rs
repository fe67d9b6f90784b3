//! What holds of TOTP codes and of recovery codes.

use vstd::prelude::*;

use crate::crypto::entropy::lowercase;
use crate::crypto::{hex, lemma_hex_injective, sha256};
use crate::error::{DpopError, DpopErrorView};
use crate::text::{bytes_of, trimmed};
use crate::totp::{
    base32_bytes, base32_text, hash_recovery_code, recovery_code, recovery_code_from,
    setup_from_secret, step_of, totp_code, totp_fault, totp_url, verify_code_at, TotpSetup,
};

verus! {

/// A code is accepted exactly when it is, without white space around it, the six-digit code
/// of the secret for the time step of 30 seconds that the time lies in, for the one before
/// or for the one after it.
pub proof fn law_code_is_accepted_in_its_steps(
    secret_base32: &str,
    code: &str,
    time: u64,
    accepted: bool,
    bytes: Seq<u8>,
)
    requires
        call_ensures(verify_code_at, (secret_base32, code, time), accepted),
        base32_bytes(secret_base32@) == Ok::<_, Seq<char>>(bytes),
        totp_fault(bytes, 6, 1, 30, None, seq![]) is None,
    ensures
        accepted <==> exists|counter: u64|
            time / 30 - 1 <= counter && counter <= time / 30 + 1 && #[trigger] totp_code(
                bytes,
                6,
                30,
                counter,
            ) == trimmed(code@),
{
    assert(step_of(time, 30) == time / 30);
    if accepted {
        let counter = choose|counter: u64|
            step_of(time, 30) - 1 <= counter && counter <= step_of(time, 30) + 1
                && #[trigger] totp_code(bytes, 6, 30, counter) == trimmed(code@);
        assert(totp_code(bytes, 6, 30, counter) == trimmed(code@));
    }
}

/// No code is accepted for a text that is no secret.
pub proof fn law_no_code_without_a_secret(
    secret_base32: &str,
    code: &str,
    time: u64,
    accepted: bool,
)
    requires
        call_ensures(verify_code_at, (secret_base32, code, time), accepted),
        base32_bytes(secret_base32@) is Err,
    ensures
        !accepted,
{
}

/// A setup shows the secret in Base32 and the URI of it: six digits, steps of 30 seconds,
/// one step of drift, for the issuer and the account name.
pub proof fn law_setup_shows_the_secret(
    secret_base32: &str,
    issuer: &str,
    account_name: &str,
    result: Result<TotpSetup, DpopError>,
)
    requires
        call_ensures(setup_from_secret, (secret_base32, issuer, account_name), result),
    ensures
        result matches Ok(setup) ==> {
            &&& base32_bytes(secret_base32@) matches Ok(bytes)
            &&& setup.secret_base32@ == base32_text(bytes)
            &&& totp_url(bytes, 6, 1, 30, Some(issuer@), account_name@) == Ok::<_, Seq<char>>(
                setup.otpauth_url@,
            )
        },
        result matches Err(error) ==> error@ == match base32_bytes(secret_base32@) {
            Err(text) => DpopErrorView::Internal("invalid TOTP secret: "@ + text),
            Ok(bytes) => match totp_fault(bytes, 6, 1, 30, Some(issuer@), account_name@) {
                Some(text) => DpopErrorView::Internal("failed to build TOTP: "@ + text),
                None => DpopErrorView::Internal(
                    "failed to build otpauth URL: "@ + totp_url(
                        bytes,
                        6,
                        1,
                        30,
                        Some(issuer@),
                        account_name@,
                    )->Err_0,
                ),
            },
        },
{
}

/// A recovery code is made of all its bytes: different bytes make different codes, and the
/// code without its hyphens is their hexadecimal text.
pub proof fn law_recovery_code_is_made_of_all_its_bytes(
    bytes: &[u8],
    other: &[u8],
    code: String,
    other_code: String,
)
    requires
        call_ensures(recovery_code_from, (bytes,), code),
        call_ensures(recovery_code_from, (other,), other_code),
        bytes@.len() == 10,
        other@.len() == 10,
    ensures
        code@.len() == 23,
        forall|i: int|
            0 <= i < 20 ==> code@[i + i / 5] == #[trigger] hex(bytes@)[i],
        code@[5] == '-' && code@[11] == '-' && code@[17] == '-',
        code@ == other_code@ ==> bytes@ == other@,
{
    lemma_groups(bytes@);
    lemma_groups(other@);
    if code@ == other_code@ {
        let (a, b) = (hex(bytes@), hex(other@));
        assert forall|i: int| 0 <= i < 20 implies #[trigger] a[i] == b[i] by {
            assert(recovery_code(bytes@)[i + i / 5] == a[i]);
            assert(recovery_code(other@)[i + i / 5] == b[i]);
        }
        assert(a =~= b);
        lemma_hex_injective(bytes@, other@);
    }
}

/// Where the digits of a recovery code stand.
proof fn lemma_groups(bytes: Seq<u8>)
    requires
        bytes.len() == 10,
    ensures
        recovery_code(bytes).len() == 23,
        forall|i: int| 0 <= i < 20 ==> recovery_code(bytes)[i + i / 5] == #[trigger] hex(bytes)[i],
        recovery_code(bytes)[5] == '-',
        recovery_code(bytes)[11] == '-',
        recovery_code(bytes)[17] == '-',
{
    reveal_strlit("-");
    let (digits, code) = (hex(bytes), recovery_code(bytes));
    assert(digits.len() == 20);
    assert forall|i: int| 0 <= i < 20 implies code[i + i / 5] == #[trigger] digits[i] by {
        if i < 5 {
            assert(i / 5 == 0);
        } else if i < 10 {
            assert(i / 5 == 1);
        } else if i < 15 {
            assert(i / 5 == 2);
        } else {
            assert(i / 5 == 3);
        }
    }
}

/// The stored hash of a recovery code is the hexadecimal SHA-256 hash of it in lower case,
/// without the white space around it.
pub proof fn law_recovery_hash_is_the_digest(code: &str, hash: String)
    requires
        call_ensures(hash_recovery_code, (code,), hash),
    ensures
        hash@ == hex(sha256(bytes_of(lowercase(trimmed(code@))))),
{
}

} // verus!
