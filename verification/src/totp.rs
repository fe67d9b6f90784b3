//! TOTP (RFC 6238) helpers and recovery codes.

use totp_rs::{Builder, Secret};
use vstd::prelude::*;

use crate::crypto::entropy::{lowercase, random_bytes};
use crate::crypto::{encode_hex, hash_token, hex, hex_digit, token_hash};
use crate::error::{DpopError, DpopErrorView};
use crate::text::{
    ascii_lower, ascii_lowered, bytes_of, chars_of, is_white, joined, lemma_trimmed_ignores_white,
    outcome, same, text_between, texts, trim, trimmed, trimmed_left, trimmed_right,
};
use crate::time::unix_time;

pub mod laws;

verus! {

/// Number of digits in generated TOTP verification codes.
pub const TOTP_DIGITS: u8 = 6;

/// Allowable time drift in steps (1 step backwards and 1 step forwards).
pub const TOTP_SKEW: u16 = 1;

/// Time step duration in seconds (RFC 6238 default).
pub const TOTP_STEP: u64 = 30;

/// Random bytes in a recovery code (80 bits of entropy).
pub const RECOVERY_CODE_BYTES: usize = 10;

/// The last time at which a code can be checked.
pub const LAST_CHECK_TIME: u64 = 18_446_744_073_709_551_555;

/// Output of a newly initialized TOTP enrollment flow.
#[derive(Debug, Clone)]
pub struct TotpSetup {
    /// The unpadded Base32-encoded shared secret for manual client entry.
    pub secret_base32: String,
    /// The complete `otpauth://totp/...` URI formatted for QR code generation.
    pub otpauth_url: String,
}

/// A [`TotpSetup`] with its texts as character sequences.
#[verifier::ext_equal]
pub struct TotpSetupView {
    pub secret_base32: Seq<char>,
    pub otpauth_url: Seq<char>,
}

impl View for TotpSetup {
    type V = TotpSetupView;

    open spec fn view(&self) -> TotpSetupView {
        TotpSetupView { secret_base32: self.secret_base32@, otpauth_url: self.otpauth_url@ }
    }
}

/// The bytes that [`totp_rs::Secret::try_from_base32`] reads from a Base32 text, or its
/// error message.
pub uninterp spec fn base32_bytes(text: Seq<char>) -> Result<Seq<u8>, Seq<char>>;

/// The Base32 text that [`totp_rs::Secret::to_base32`] makes of bytes.
pub uninterp spec fn base32_text(bytes: Seq<u8>) -> Seq<char>;

/// What [`totp_rs::Builder::build`] says of a configuration that it refuses: SHA-1 with
/// the given digits, skew, step, secret, issuer and account name.
pub uninterp spec fn totp_fault(
    secret: Seq<u8>,
    digits: u8,
    skew: u16,
    step: u64,
    issuer: Option<Seq<char>>,
    account_name: Seq<char>,
) -> Option<Seq<char>>;

/// The URI that [`totp_rs::Totp::to_url`] makes of a configuration, or its error message.
pub uninterp spec fn totp_url(
    secret: Seq<u8>,
    digits: u8,
    skew: u16,
    step: u64,
    issuer: Option<Seq<char>>,
    account_name: Seq<char>,
) -> Result<Seq<char>, Seq<char>>;

/// The code that [`totp_rs::Totp::generate`] makes with SHA-1 for the time step with the
/// given number.
pub uninterp spec fn totp_code(secret: Seq<u8>, digits: u8, step: u64, counter: u64) -> Seq<char>;

/// `totp_rs::Secret::try_from_base32`: the bytes of a Base32 text, or its error message.
#[verifier::external_body]
fn read_base32(text: &str) -> (bytes: Result<Vec<u8>, String>)
    ensures
        outcome(bytes) == base32_bytes(text@),
{
    match Secret::try_from_base32(text) {
        Ok(secret) => Ok(secret.as_bytes().to_vec()),
        Err(error) => Err(error.to_string()),
    }
}

/// `totp_rs::Secret::to_base32`: a Base32 text from which
/// `totp_rs::Secret::try_from_base32` reads the same bytes.
#[verifier::external_body]
fn write_base32(bytes: &[u8]) -> (text: String)
    ensures
        text@ == base32_text(bytes@),
        base32_bytes(text@) is Ok && base32_bytes(text@)->Ok_0 == bytes@,
{
    Secret::from(bytes.to_vec()).to_base32()
}

/// `totp_rs::Secret::generate`: 20 random bytes.
#[verifier::external_body]
fn random_secret() -> (bytes: Vec<u8>)
    ensures
        bytes@.len() == 20,
{
    Secret::generate().as_bytes().to_vec()
}

/// `totp_rs::Builder::build` and `totp_rs::Totp::to_url`: the URI of a configuration, which
/// starts with `otpauth://totp/`. The outer error is that of the first, the inner one that
/// of the second.
#[verifier::external_body]
fn build_url(
    secret: &[u8],
    digits: u8,
    skew: u16,
    step: u64,
    issuer: &str,
    account_name: &str,
) -> (url: Result<Result<String, String>, String>)
    ensures
        url is Err <==> totp_fault(secret@, digits, skew, step, Some(issuer@), account_name@) is Some,
        url matches Err(text) ==> totp_fault(
            secret@,
            digits,
            skew,
            step,
            Some(issuer@),
            account_name@,
        ) == Some(text@),
        url matches Ok(url) ==> outcome(url) == totp_url(
            secret@,
            digits,
            skew,
            step,
            Some(issuer@),
            account_name@,
        ),
        url matches Ok(Ok(text)) ==> "otpauth://totp/"@.is_prefix_of(text@),
{
    let builder = Builder::new().with_digits(digits).with_skew(skew).with_step_duration(step);
    let builder = builder.with_algorithm(totp_rs::Algorithm::SHA1).with_secret(secret.to_vec());
    match builder.with_account_name(account_name).with_issuer(Some(issuer)).build() {
        Ok(totp) => Ok(totp.to_url().map_err(|e| e.to_string())),
        Err(error) => Err(error.to_string()),
    }
}

/// The number of the time step that a time lies in.
pub open spec fn step_of(time: u64, step: u64) -> nat
    recommends
        step > 0,
{
    (time / step) as nat
}

/// Whether a code is that of a time step at most `skew` steps away from the given time.
pub open spec fn is_code_near(
    secret: Seq<u8>,
    digits: u8,
    skew: u16,
    step: u64,
    code: Seq<char>,
    time: u64,
) -> bool {
    exists|counter: u64|
        step_of(time, step) - skew <= counter && counter <= step_of(time, step) + skew
            && #[trigger] totp_code(secret, digits, step, counter) == code
}

/// `totp_rs::Totp::check`: whether a code is that of a time step near the given time. A
/// configuration that `totp_rs::Builder::build` refuses accepts no code.
#[verifier::external_body]
fn check_code(
    secret: &[u8],
    digits: u8,
    skew: u16,
    step: u64,
    code: &str,
    time: u64,
) -> (accepted: bool)
    requires
        step > 0,
        time + (skew + 1) * step <= u64::MAX,
    ensures
        accepted ==> totp_fault(secret@, digits, skew, step, None, seq![]) is None,
        accepted ==> exists|counter: u64|
            step_of(time, step) - skew <= counter && counter <= step_of(time, step) + skew
                && #[trigger] totp_code(secret@, digits, step, counter) == code@,
        !accepted ==> totp_fault(secret@, digits, skew, step, None, seq![]) is Some || !is_code_near(
            secret@,
            digits,
            skew,
            step,
            code@,
            time,
        ),
{
    let builder = Builder::new().with_digits(digits).with_skew(skew).with_step_duration(step);
    let builder = builder.with_algorithm(totp_rs::Algorithm::SHA1).with_secret(secret.to_vec());
    match builder.with_account_name("").build() {
        Ok(totp) => totp.check(code, time).is_some(),
        Err(_) => false,
    }
}

/// The outcome of rebuilding the setup of a secret.
pub open spec fn setup_outcome(
    secret_base32: Seq<char>,
    issuer: Seq<char>,
    account_name: Seq<char>,
) -> Result<TotpSetupView, DpopErrorView> {
    match base32_bytes(secret_base32) {
        Err(text) => Err(DpopErrorView::Internal("invalid TOTP secret: "@ + text)),
        Ok(secret) => match totp_fault(
            secret,
            TOTP_DIGITS,
            TOTP_SKEW,
            TOTP_STEP,
            Some(issuer),
            account_name,
        ) {
            Some(text) => Err(DpopErrorView::Internal("failed to build TOTP: "@ + text)),
            None => match totp_url(
                secret,
                TOTP_DIGITS,
                TOTP_SKEW,
                TOTP_STEP,
                Some(issuer),
                account_name,
            ) {
                Err(text) => Err(
                    DpopErrorView::Internal("failed to build otpauth URL: "@ + text),
                ),
                Ok(otpauth_url) => Ok(
                    TotpSetupView { secret_base32: base32_text(secret), otpauth_url },
                ),
            },
        },
    }
}

/// Whether a setup is the one that its own secret is rebuilt as.
pub open spec fn is_setup_of(
    setup: TotpSetupView,
    issuer: Seq<char>,
    account_name: Seq<char>,
) -> bool {
    setup_outcome(setup.secret_base32, issuer, account_name) == Ok::<_, DpopErrorView>(setup)
}

/// Reconstruct a [`TotpSetup`] instance from a previously stored Base32 secret.
///
/// Re-generates the configuration and URI for an existing pending
/// secret without rotating the key material.
///
/// # Errors
///
/// Returns [`DpopError::Internal`] if `secret_base32` is malformed
/// or URI generation fails.
pub fn setup_from_secret(secret_base32: &str, issuer: &str, account_name: &str) -> (result: Result<
    TotpSetup,
    DpopError,
>)
    ensures
        outcome(result) == setup_outcome(secret_base32@, issuer@, account_name@),
        result matches Ok(setup) ==> base32_bytes(setup@.secret_base32) == base32_bytes(
            secret_base32@,
        ) && is_setup_of(setup@, issuer@, account_name@) && "otpauth://totp/"@.is_prefix_of(
            setup@.otpauth_url,
        ),
{
    let secret = match read_base32(secret_base32) {
        Ok(secret) => secret,
        Err(text) => return Err(DpopError::Internal(joined("invalid TOTP secret: ", &text))),
    };
    match build_url(&secret, TOTP_DIGITS, TOTP_SKEW, TOTP_STEP, issuer, account_name) {
        Err(text) => Err(DpopError::Internal(joined("failed to build TOTP: ", &text))),
        Ok(Err(text)) => Err(DpopError::Internal(joined("failed to build otpauth URL: ", &text))),
        Ok(Ok(otpauth_url)) => Ok(TotpSetup { secret_base32: write_base32(&secret), otpauth_url }),
    }
}

/// Whether a text is the Base32 text of 160 bits.
pub open spec fn is_fresh_secret(text: Seq<char>) -> bool {
    exists|bytes: Seq<u8>| bytes.len() == 20 && text == #[trigger] base32_text(bytes)
        && base32_bytes(text) == Ok::<Seq<u8>, Seq<char>>(bytes)
}

/// Generate a fresh 160-bit random TOTP setup for a user.
///
/// Generates a cryptographically secure 160-bit shared secret as recommended
/// by RFC 4226 section 4, returning both the Base32 representation and the
/// registration URL.
///
/// # Errors
///
/// Returns [`DpopError::Internal`] if the internal validator or `otpauth://` URI
/// construction fails.
pub fn generate_setup(issuer: &str, account_name: &str) -> (result: Result<TotpSetup, DpopError>)
    ensures
        exists|secret: Seq<char>| #[trigger]
            is_fresh_secret(secret) && outcome(result) == setup_outcome(
                secret,
                issuer@,
                account_name@,
            ),
        result matches Ok(setup) ==> is_fresh_secret(setup@.secret_base32) && is_setup_of(
            setup@,
            issuer@,
            account_name@,
        ) && "otpauth://totp/"@.is_prefix_of(setup@.otpauth_url),
{
    let bytes = random_secret();
    let secret = write_base32(&bytes);
    assert(is_fresh_secret(secret@));
    setup_from_secret(&secret, issuer, account_name)
}

/// Whether a code is accepted for a secret at the given time.
pub open spec fn accepts_code(secret_base32: Seq<char>, code: Seq<char>, time: u64) -> bool {
    match base32_bytes(secret_base32) {
        Err(_) => false,
        Ok(secret) => {
            &&& totp_fault(secret, TOTP_DIGITS, TOTP_SKEW, TOTP_STEP, None, seq![]) is None
            &&& is_code_near(secret, TOTP_DIGITS, TOTP_SKEW, TOTP_STEP, trimmed(code), time)
        },
    }
}

/// Verify a single TOTP verification code against an existing Base32 secret at the given
/// time.
#[must_use]
pub fn verify_code_at(secret_base32: &str, code: &str, time: u64) -> (accepted: bool)
    requires
        time <= LAST_CHECK_TIME,
    ensures
        accepted == accepts_code(secret_base32@, code@, time),
{
    match read_base32(secret_base32) {
        Ok(secret) => check_code(&secret, TOTP_DIGITS, TOTP_SKEW, TOTP_STEP, &trim(code), time),
        Err(_) => false,
    }
}

/// Whether a code is accepted for a secret at the given time, which must not be too late
/// for its window to be computed.
pub open spec fn accepted_at(secret_base32: Seq<char>, code: Seq<char>, time: u64) -> bool {
    time <= LAST_CHECK_TIME && accepts_code(secret_base32, code, time)
}

/// Verify a single TOTP verification code against an existing Base32 secret.
///
/// Compares the provided code against the valid window using the current system
/// timestamp and configured clock skew (30 seconds). At a time so late that its window
/// cannot be computed no code is accepted.
///
/// # Security Note
///
/// Callers must enforce replay protection (RFC 6238 section 5.2) to prevent
/// multiple uses of the same code within its acceptance window.
#[must_use]
pub fn verify_code(secret_base32: &str, code: &str) -> (accepted: bool)
    ensures
        exists|time: u64| accepted == #[trigger] accepted_at(secret_base32@, code@, time),
{
    let time: u64 = unix_time();
    let accepted = time <= LAST_CHECK_TIME && verify_code_at(secret_base32, code, time);
    assert(accepted == accepted_at(secret_base32@, code@, time));
    accepted
}

/// The recovery code made of ten bytes: their hexadecimal digits in groups of five.
pub open spec fn recovery_code(bytes: Seq<u8>) -> Seq<char> {
    let digits = hex(bytes);
    digits.subrange(0, 5) + "-"@ + digits.subrange(5, 10) + "-"@ + digits.subrange(10, 15) + "-"@
        + digits.subrange(15, 20)
}

/// The recovery code made of ten bytes.
pub fn recovery_code_from(bytes: &[u8]) -> (code: String)
    requires
        bytes@.len() == RECOVERY_CODE_BYTES,
    ensures
        code@ == recovery_code(bytes@),
{
    let digits = chars_of(&encode_hex(bytes));
    let mut code = joined(&text_between(&digits, 0, 5), "-");
    code.append(&text_between(&digits, 5, 10));
    code.append("-");
    code.append(&text_between(&digits, 10, 15));
    code.append("-");
    code.append(&text_between(&digits, 15, 20));
    code
}

/// Whether a text is a recovery code made of ten bytes.
pub open spec fn is_generated_code(code: Seq<char>) -> bool {
    exists|bytes: Seq<u8>| bytes.len() == RECOVERY_CODE_BYTES && code == #[trigger] recovery_code(
        bytes,
    )
}

/// Generate a single cryptographically secure recovery code
/// (80 bits of entropy).
///
/// Returns a 23-character string separated into four hyphenated 5-character
/// hexadecimal blocks: `XXXXX-XXXXX-XXXXX-XXXXX`.
///
/// # Errors
///
/// Returns [`DpopError::Internal`] if the operating system entropy source fails.
pub fn generate_recovery_code() -> (result: Result<String, DpopError>)
    ensures
        match result {
            Ok(code) => is_generated_code(code@) && has_code_format(code@),
            Err(error) => error is Internal,
        },
{
    match random_bytes(RECOVERY_CODE_BYTES) {
        Ok(bytes) => {
            proof {
                law_generated_code_has_the_format(bytes@);
            }
            Ok(recovery_code_from(&bytes))
        },
        Err(text) => Err(DpopError::Internal(text)),
    }
}

/// The recovery codes made of bytes, ten bytes each.
pub open spec fn codes_of(bytes: Seq<u8>, count: nat) -> Seq<Seq<char>> {
    Seq::new(count, |i: int| recovery_code(bytes.subrange(10 * i, 10 * i + 10)))
}

/// The recovery codes made of bytes, ten bytes each.
pub fn recovery_codes_from(bytes: &Vec<u8>, count: usize) -> (codes: Vec<String>)
    requires
        bytes@.len() == count * RECOVERY_CODE_BYTES,
    ensures
        texts(codes@) == codes_of(bytes@, count as nat),
{
    let mut codes: Vec<String> = Vec::new();
    let total: usize = bytes.len();
    let mut i: usize = 0;
    while i < count
        invariant
            i <= count,
            total == bytes@.len(),
            total == 10 * count,
            codes@.len() == i,
            forall|j: int|
                0 <= j < i ==> (#[trigger] codes@[j])@ == recovery_code(
                    bytes@.subrange(10 * j, 10 * j + 10),
                ),
        decreases count - i,
    {
        let mut chunk: Vec<u8> = Vec::new();
        let mut k: usize = 0;
        while k < 10
            invariant
                k <= 10,
                i < count,
                total == bytes@.len(),
                total == 10 * count,
                chunk@ =~= bytes@.subrange(10 * i, 10 * i + k),
            decreases 10 - k,
        {
            assert(10 * i + k < total);
            chunk.push(bytes[10 * i + k]);
            k += 1;
        }
        codes.push(recovery_code_from(&chunk));
        i += 1;
    }
    assert(texts(codes@) =~= codes_of(bytes@, count as nat));
    codes
}

/// Whether no two of some texts are the same.
fn are_distinct(codes: &Vec<String>) -> (distinct: bool)
    ensures
        distinct == texts(codes@).no_duplicates(),
{
    let ghost all = texts(codes@);
    let mut i: usize = 0;
    while i < codes.len()
        invariant
            all == texts(codes@),
            i <= codes@.len(),
            forall|a: int, b: int| 0 <= a < i && 0 <= b < a ==> all[a] != all[b],
        decreases codes@.len() - i,
    {
        let mut j: usize = 0;
        while j < i
            invariant
                all == texts(codes@),
                j <= i,
                i < codes@.len(),
                forall|b: int| 0 <= b < j ==> all[i as int] != all[b],
            decreases i - j,
        {
            if same(&codes[i], &codes[j]) {
                assert(all[i as int] == all[j as int]);
                return false;
            }
            assert(all[i as int] != all[j as int]);
            j += 1;
        }
        i += 1;
    }
    assert forall|a: int, b: int| 0 <= a < all.len() && 0 <= b < all.len() && a != b implies all[a]
        != all[b] by {
        if a < b {
            assert(all[b] != all[a]);
        }
    }
    true
}

/// The recovery codes made of bytes, ten bytes each, unless two of them are the same.
pub fn distinct_codes_from(bytes: &Vec<u8>, count: usize) -> (codes: Option<Vec<String>>)
    requires
        bytes@.len() == count * RECOVERY_CODE_BYTES,
    ensures
        codes is Some <==> codes_of(bytes@, count as nat).no_duplicates(),
        codes matches Some(codes) ==> texts(codes@) == codes_of(bytes@, count as nat),
{
    let codes = recovery_codes_from(bytes, count);
    if are_distinct(&codes) {
        Some(codes)
    } else {
        None
    }
}

/// How often a set of codes is drawn before a source that repeats itself is given up.
pub const MAX_CODE_DRAWS: usize = 16;

/// A draw of random bytes, taken by its view.
pub open spec fn draw_views(draws: Seq<Result<Vec<u8>, String>>) -> Seq<
    Result<Seq<u8>, Seq<char>>,
> {
    Seq::new(draws.len(), |i: int| outcome(draws[i]))
}

/// Whether a draw makes a set of codes in which one occurs twice.
pub open spec fn is_repetitive(draw: Result<Seq<u8>, Seq<char>>, count: nat) -> bool {
    draw matches Ok(bytes) && !codes_of(bytes, count).no_duplicates()
}

/// What comes of some draws: the first that is not repetitive decides, and where all are
/// the source is given up.
pub open spec fn draws_outcome(draws: Seq<Result<Seq<u8>, Seq<char>>>, count: nat) -> Result<
    Seq<Seq<char>>,
    DpopErrorView,
>
    decreases draws.len(),
{
    if draws.len() == 0 {
        Err(DpopErrorView::Internal("the random source repeats itself"@))
    } else if is_repetitive(draws[0], count) {
        draws_outcome(draws.skip(1), count)
    } else {
        match draws[0] {
            Ok(bytes) => Ok(codes_of(bytes, count)),
            Err(text) => Err(DpopErrorView::Internal(text)),
        }
    }
}

/// The result of drawing codes, taken by its view.
pub open spec fn codes_view(result: Result<Vec<String>, DpopError>) -> Result<
    Seq<Seq<char>>,
    DpopErrorView,
> {
    match result {
        Ok(codes) => Ok(texts(codes@)),
        Err(error) => Err(error@),
    }
}

/// Whether the bytes of every draw are enough for the codes.
pub open spec fn are_draws(draws: Seq<Result<Seq<u8>, Seq<char>>>, count: nat) -> bool {
    forall|i: int|
        0 <= i < draws.len() ==> ((#[trigger] draws[i]) matches Ok(bytes) ==> bytes.len() == count
            * RECOVERY_CODE_BYTES)
}

/// The recovery codes of the first draw in which no code occurs twice.
pub fn codes_from_draws(draws: &Vec<Result<Vec<u8>, String>>, count: usize) -> (result: Result<
    Vec<String>,
    DpopError,
>)
    requires
        are_draws(draw_views(draws@), count as nat),
    ensures
        codes_view(result) == draws_outcome(draw_views(draws@), count as nat),
{
    let ghost all = draw_views(draws@);
    let mut i: usize = 0;
    assert(all.skip(0) =~= all);
    while i < draws.len()
        invariant
            all == draw_views(draws@),
            are_draws(all, count as nat),
            i <= draws@.len(),
            draws_outcome(all.skip(i as int), count as nat) == draws_outcome(all, count as nat),
        decreases draws@.len() - i,
    {
        assert(all.skip(i as int)[0] == all[i as int]);
        assert(all.skip(i as int).skip(1) =~= all.skip(i + 1));
        match &draws[i] {
            Ok(bytes) => {
                assert(all[i as int] == Ok::<_, Seq<char>>(bytes@));
                if let Some(codes) = distinct_codes_from(bytes, count) {
                    return Ok(codes);
                }
            },
            Err(text) => return Err(DpopError::Internal(text.clone())),
        }
        i += 1;
    }
    Err(DpopError::Internal("the random source repeats itself".to_owned()))
}

/// Whether some draws are those that are made for a set of codes: one after another as long
/// as they are repetitive, and not more than [`MAX_CODE_DRAWS`].
pub open spec fn are_enough_draws(draws: Seq<Result<Seq<u8>, Seq<char>>>, count: nat) -> bool {
    &&& are_draws(draws, count)
    &&& 0 < draws.len() <= MAX_CODE_DRAWS
    &&& forall|i: int| 0 <= i < draws.len() - 1 ==> is_repetitive(#[trigger] draws[i], count)
    &&& is_repetitive(draws.last(), count) ==> draws.len() == MAX_CODE_DRAWS
}

/// Generate a batch of distinct recovery codes using a single
/// operating system entropy call.
///
/// Reads `count * 10` contiguous random bytes in one system
/// invocation to reduce context-switch overhead when provisioning
/// a complete recovery code set. In the unlikely case of a repeat the
/// set is drawn again, up to [`MAX_CODE_DRAWS`] times.
///
/// # Errors
///
/// Returns [`DpopError::Internal`] in the operating system entropy source fails.
pub fn generate_recovery_codes(count: usize) -> (result: Result<Vec<String>, DpopError>)
    requires
        count * RECOVERY_CODE_BYTES <= isize::MAX,
    ensures
        exists|draws: Seq<Result<Seq<u8>, Seq<char>>>| #[trigger]
            are_enough_draws(draws, count as nat) && codes_view(result) == draws_outcome(
                draws,
                count as nat,
            ),
        match result {
            Ok(codes) => codes@.len() == count && texts(codes@).no_duplicates() && forall|i: int|
                0 <= i < count ==> is_generated_code((#[trigger] codes@[i])@) && has_code_format(
                    codes@[i]@,
                ),
            Err(error) => error is Internal,
        },
{
    let mut draws: Vec<Result<Vec<u8>, String>> = Vec::new();
    let mut repetitive = true;
    while repetitive && draws.len() < MAX_CODE_DRAWS
        invariant
            count * RECOVERY_CODE_BYTES <= isize::MAX,
            draws@.len() <= MAX_CODE_DRAWS,
            draws@.len() == 0 ==> repetitive,
            are_draws(draw_views(draws@), count as nat),
            forall|i: int|
                0 <= i < draws@.len() - 1 ==> is_repetitive(
                    #[trigger] draw_views(draws@)[i],
                    count as nat,
                ),
            draws@.len() > 0 ==> repetitive == is_repetitive(
                draw_views(draws@).last(),
                count as nat,
            ),
        decreases MAX_CODE_DRAWS - draws@.len(),
    {
        let draw = random_bytes(count * RECOVERY_CODE_BYTES);
        repetitive = match &draw {
            Ok(bytes) => distinct_codes_from(bytes, count).is_none(),
            Err(_) => false,
        };
        let ghost before = draw_views(draws@);
        draws.push(draw);
        assert(draw_views(draws@) =~= before.push(outcome(draw)));
        proof {
            let all = draw_views(draws@);
            assert forall|i: int| 0 <= i < all.len() - 1 implies is_repetitive(
                #[trigger] all[i],
                count as nat,
            ) by {
                assert(all[i] == before[i]);
            }
            assert forall|i: int| 0 <= i < all.len() implies ((#[trigger] all[i]) matches Ok(bytes)
                ==> bytes.len() == count * RECOVERY_CODE_BYTES) by {
                if i < before.len() {
                    assert(all[i] == before[i]);
                }
            }
        }
    }
    let result = codes_from_draws(&draws, count);
    proof {
        let all = draw_views(draws@);
        assert(are_enough_draws(all, count as nat));
        lemma_draws_give_good_codes(all, count as nat);
        if let Ok(codes) = codes_view(result) {
            assert forall|i: int| 0 <= i < count implies is_generated_code(
                (#[trigger] result->Ok_0@[i])@,
            ) && has_code_format(result->Ok_0@[i]@) by {
                assert(codes[i] == result->Ok_0@[i]@);
            }
        }
    }
    result
}

/// What draws give is a full set of different codes in their format, or an internal error.
proof fn lemma_draws_give_good_codes(draws: Seq<Result<Seq<u8>, Seq<char>>>, count: nat)
    requires
        are_draws(draws, count),
    ensures
        match draws_outcome(draws, count) {
            Ok(codes) => codes.len() == count && codes.no_duplicates() && forall|i: int|
                0 <= i < count ==> is_generated_code(#[trigger] codes[i]) && has_code_format(
                    codes[i],
                ),
            Err(error) => error is Internal,
        },
    decreases draws.len(),
{
    if draws.len() > 0 {
        if is_repetitive(draws[0], count) {
            let rest = draws.skip(1);
            assert forall|i: int| 0 <= i < rest.len() implies ((#[trigger] rest[i]) matches Ok(bytes)
                ==> bytes.len() == count * RECOVERY_CODE_BYTES) by {
                assert(rest[i] == draws[i + 1]);
            }
            lemma_draws_give_good_codes(rest, count);
        } else if let Ok(bytes) = draws[0] {
            let codes = codes_of(bytes, count);
            assert forall|i: int| 0 <= i < count implies is_generated_code(#[trigger] codes[i])
                && has_code_format(codes[i]) by {
                let chunk = bytes.subrange(10 * i, 10 * i + 10);
                assert(codes[i] == recovery_code(chunk));
                law_generated_code_has_the_format(chunk);
            }
        }
    }
}

/// The stored hash of a recovery code.
pub open spec fn recovery_hash(code: Seq<char>) -> Seq<char> {
    token_hash(bytes_of(lowercase(trimmed(code))))
}

/// Compute a normalized cryptographic hash of a recovery code
/// for database storage.
///
/// Normalizes the code (stripping leading/trailing whitespace and lowercasing)
/// before computing its SHA-256 digest to ensure entry formatting does not
/// prevent valid matching.
#[must_use]
pub fn hash_recovery_code(code: &str) -> (hash: String)
    ensures
        hash@ == recovery_hash(code@),
        vstd::utf8::is_ascii_chars(trimmed(code@)) ==> hash@ == token_hash(
            bytes_of(ascii_lowered(trimmed(code@))),
        ),
        hash@.len() == 64,
{
    let inner = trim(code);
    let lower = inner.as_str().to_lowercase();
    hash_token(lower.as_str().as_bytes())
}

/// Whether a character is a hexadecimal digit.
pub open spec fn is_hex_digit(c: char) -> bool {
    ('0' <= c && c <= '9') || ('a' <= c && c <= 'f') || ('A' <= c && c <= 'F')
}

/// Whether a text is four groups of five hexadecimal digits with hyphens between them.
pub open spec fn has_code_format(text: Seq<char>) -> bool {
    &&& text.len() == 23
    &&& forall|i: int|
        0 <= i < 23 ==> if i % 6 == 5 {
            #[trigger] text[i] == '-'
        } else {
            is_hex_digit(text[i])
        }
}

/// Inspect whether a raw input string matches the recovery code format.
///
/// Returns `true` if the input composed of exactly 23 characters matching
/// four hyphen-separated groups of five hexadecimal ASCII characters
/// (`XXXXX-XXXXX-XXXXX-XXXXX`). Used to route login requests between TOTP codes
/// and recovery codes.
#[must_use]
pub fn is_recovery_code(code: &str) -> (is: bool)
    ensures
        is == has_code_format(trimmed(code@)),
{
    let text = chars_of(&trim(code));
    if text.len() != 23 {
        return false;
    }
    let mut i: usize = 0;
    while i < 23
        invariant
            text@ == trimmed(code@),
            text@.len() == 23,
            i <= 23,
            forall|j: int|
                0 <= j < i ==> if j % 6 == 5 {
                    #[trigger] text@[j] == '-'
                } else {
                    is_hex_digit(text@[j])
                },
        decreases 23 - i,
    {
        let c = text[i];
        if i % 6 == 5 {
            if c != '-' {
                assert(text@[i as int] != '-');
                return false;
            }
        } else if !(('0' <= c && c <= '9') || ('a' <= c && c <= 'f') || ('A' <= c && c <= 'F')) {
            assert(!is_hex_digit(text@[i as int]));
            return false;
        }
        i += 1;
    }
    true
}

/// Every generated recovery code has the format by which recovery codes are recognized,
/// in lower case.
pub proof fn law_generated_code_has_the_format(bytes: Seq<u8>)
    requires
        bytes.len() == RECOVERY_CODE_BYTES,
    ensures
        has_code_format(recovery_code(bytes)),
        ascii_lowered(recovery_code(bytes)) == recovery_code(bytes),
{
    reveal_strlit("-");
    let digits = hex(bytes);
    let code = recovery_code(bytes);
    assert(digits.len() == 20);
    assert forall|k: int| 0 <= k < 20 implies is_hex_digit(#[trigger] digits[k]) && ascii_lower(
        digits[k],
    ) == digits[k] by {
        let four = if k % 2 == 0 {
            (bytes[k / 2] / 16) as int
        } else {
            (bytes[k / 2] % 16) as int
        };
        assert(0 <= four < 16);
        assert(digits[k] == hex_digit(four));
    }
    assert forall|i: int| 0 <= i < 23 implies #[trigger] code[i] == (if i % 6 == 5 {
        '-'
    } else {
        digits[i - i / 6]
    }) by {}
    assert(ascii_lowered(code) =~= code);
}

/// White space around a recovery code makes no difference to its hash, nor to whether it
/// is recognized.
pub proof fn law_recovery_code_ignores_white_space(
    before: Seq<char>,
    code: Seq<char>,
    after: Seq<char>,
)
    requires
        forall|i: int| 0 <= i < before.len() ==> is_white(#[trigger] before[i]),
        forall|i: int| 0 <= i < after.len() ==> is_white(#[trigger] after[i]),
        code.len() > 0,
        !is_white(code[0]),
        !is_white(code.last()),
    ensures
        recovery_hash(before + code + after) == recovery_hash(code),
        has_code_format(trimmed(before + code + after)) == has_code_format(code),
{
    lemma_trimmed_ignores_white(before, code, after);
    crate::text::lemma_trimmed_is_stable(code);
}

/// White space around a TOTP code does not matter.
pub proof fn law_totp_code_ignores_white_space(secret_base32: Seq<char>, code: Seq<char>, time: u64)
    ensures
        accepts_code(secret_base32, trimmed(code), time) == accepts_code(secret_base32, code, time),
{
    crate::text::lemma_trimmed_ends(code);
    crate::text::lemma_trimmed_is_stable(trimmed(code));
}

/// The case of its letters makes no difference to the hash of a recovery code.
pub proof fn law_recovery_hash_ignores_case(code: Seq<char>, other: Seq<char>)
    requires
        lowercase(trimmed(code)) == lowercase(trimmed(other)),
    ensures
        recovery_hash(code) == recovery_hash(other),
{
}

/// A code of six digits is never taken for a recovery code.
pub proof fn law_short_code_is_no_recovery_code(code: Seq<char>)
    requires
        code.len() < 23,
    ensures
        !has_code_format(trimmed(code)),
{
    lemma_trimmed_is_no_longer(code);
}

/// Trimming makes no text longer.
proof fn lemma_trimmed_is_no_longer(text: Seq<char>)
    ensures
        trimmed(text).len() <= text.len(),
{
    lemma_trimmed_left_is_no_longer(text);
    lemma_trimmed_right_is_no_longer(trimmed_left(text));
}

proof fn lemma_trimmed_left_is_no_longer(text: Seq<char>)
    ensures
        trimmed_left(text).len() <= text.len(),
    decreases text.len(),
{
    if text.len() > 0 {
        lemma_trimmed_left_is_no_longer(text.skip(1));
    }
}

proof fn lemma_trimmed_right_is_no_longer(text: Seq<char>)
    ensures
        trimmed_right(text).len() <= text.len(),
    decreases text.len(),
{
    if text.len() > 0 {
        lemma_trimmed_right_is_no_longer(text.drop_last());
    }
}

/// A code cannot be replayed after it is forgotten: two times at which the code of one
/// time step is accepted are closer together than the time for which a used code is
/// remembered.
pub proof fn law_used_code_outlives_its_window(counter: u64, first: u64, second: u64)
    requires
        step_of(first, TOTP_STEP) - TOTP_SKEW <= counter,
        counter <= step_of(first, TOTP_STEP) + TOTP_SKEW,
        step_of(second, TOTP_STEP) - TOTP_SKEW <= counter,
        counter <= step_of(second, TOTP_STEP) + TOTP_SKEW,
    ensures
        second - first < crate::cache::TOTP_REPLAY_TTL_SECS,
        first - second < crate::cache::TOTP_REPLAY_TTL_SECS,
{
    assert(step_of(first, TOTP_STEP) == first / 30);
    assert(step_of(second, TOTP_STEP) == second / 30);
}

} // verus!
