//! What holds of the operations on the second factor from the call to the end.

use vstd::prelude::*;

use crate::crypto::entropy::lowercase;
use crate::crypto::{hex, sha256};
use crate::error::DpopErrorView;
use crate::service::auth::AuthService;
use crate::service::factor_laws::{
    confirm_step, disable_step, is_valid_code, law_bad_code_disables_nothing,
    law_confirmation_enrolls, law_enabled_factor_is_not_set_up_again,
    law_failed_confirmation_changes_nothing, law_live_draft_is_shown_again,
    law_recovery_code_disables_the_second_factor, law_recovery_code_is_accepted_once,
    law_setup_writes_only_a_draft, law_totp_code_disables_the_second_factor,
    law_totp_code_is_accepted_once, lemma_verification_is_refused, setup_step, verify_step,
};
use crate::service::flow::{
    CodeForm, Failure, Flow, Reply, SecondFactorKind, Step, Success,
};
use crate::service::world::{
    active_user, is_unused_code, lemma_run_step, live_draft, run, Draws, World,
};
use crate::store::models::{RecoveryCodeRow, UserRow};
use crate::text::{bytes_of, trimmed};
use crate::totp::{is_hex_digit, is_recovery_code, is_setup_of, setup_outcome};

verus! {

/// The draft of a user, if it is younger than ten minutes and the second factor is off.
pub open spec fn young_draft(user: UserRow, now: i64) -> Option<String> {
    match (user.totp_pending_at, user.totp_pending_secret) {
        (Some(at), Some(secret)) if !user.totp_enabled && at > now - 600_000_000 => Some(secret),
        _ => None,
    }
}

/// What a setup comes to. An unknown user and one whose second factor is on are refused. A
/// draft younger than ten minutes is shown again, with the issuer and the account name of
/// the call, and nothing changes. Otherwise a new secret is shown, which is stored as the
/// draft of the user; the active secret stays as it is, and nothing else changes.
pub proof fn law_setup_from_call_to_end(
    service: &AuthService,
    user_id: u128,
    issuer: &str,
    account_name: &str,
    step: Step,
    world: World,
    draws: Draws,
    expires_in: u64,
)
    requires
        call_ensures(AuthService::setup_2fa, (service, user_id, issuer, account_name), step),
        world.open is None,
    ensures
        ({
            let (result, after) = run(world, step, draws, expires_in);
            let found = active_user(world.committed, user_id);
            &&& found is None ==> result == Err::<Success, _>(Failure::Unauthorized) && after
                == world
            &&& found matches Some(user) ==> {
                let now_user = after.committed.users[user_id];
                &&& user.totp_enabled ==> result == Err::<Success, _>(Failure::TotpAlreadyEnabled)
                    && after == world
                &&& young_draft(user, world.now) matches Some(secret) ==> setup_outcome(
                    secret@,
                    issuer@,
                    account_name@,
                ) == Ok::<_, DpopErrorView>(draws.setup@) ==> result == Ok::<_, Failure>(
                    Success::Setup(draws.setup),
                ) && after == world
                &&& !user.totp_enabled && young_draft(user, world.now) is None && is_setup_of(
                    draws.setup@,
                    issuer@,
                    account_name@,
                ) ==> {
                    &&& result == Ok::<_, Failure>(Success::Setup(draws.setup))
                    &&& after.committed.users.remove(user_id) == world.committed.users.remove(
                        user_id,
                    )
                    &&& now_user.totp_pending_secret == Some(draws.setup.secret_base32)
                    &&& now_user.totp_pending_at == Some(world.now)
                    &&& now_user.totp_secret == user.totp_secret
                    &&& !now_user.totp_enabled
                    &&& now_user.id == user.id && now_user.password_hash == user.password_hash
                    &&& after.committed.tokens == world.committed.tokens
                    &&& after.committed.codes == world.committed.codes
                }
            }
        }),
{
    let (result, after) = run(world, step, draws, expires_in);
    let found = active_user(world.committed, user_id);
    if let Step::Ask(query, Flow::FindingForSetup { user_id: id, issuer: i, account_name: a }) =
        step {
        assert(step == setup_step(user_id, i, a));
        if found is None {
            lemma_run_step(
                world,
                query,
                Flow::FindingForSetup { user_id, issuer: i, account_name: a },
                Reply::User(None),
                world,
                draws,
                expires_in,
            );
        } else {
            let user = found->0;
            assert(young_draft(user, world.now) == live_draft(
                world.committed,
                user_id,
                world.now,
            ));
            if user.totp_enabled {
                law_enabled_factor_is_not_set_up_again(
                    world,
                    user_id,
                    i,
                    a,
                    user,
                    draws,
                    expires_in,
                );
            } else if let Some(secret) = young_draft(user, world.now) {
                if setup_outcome(secret@, issuer@, account_name@) == Ok::<_, DpopErrorView>(
                    draws.setup@,
                ) {
                    law_live_draft_is_shown_again(
                        world,
                        user_id,
                        i,
                        a,
                        secret,
                        draws,
                        expires_in,
                    );
                }
            } else if is_setup_of(draws.setup@, issuer@, account_name@) {
                law_setup_writes_only_a_draft(world, user_id, i, a, user, draws, expires_in);
                assert(after.committed.users.remove(user_id) =~= world.committed.users.remove(
                    user_id,
                ));
            }
        }
    }
}

/// What a confirmation comes to. An unknown user, one whose second factor is on, a draft
/// that is missing or ten minutes old, and a code that is wrong for the draft are refused,
/// and nothing changes. The right code makes the draft the active secret and switches the
/// second factor on; all older recovery codes of the user are used up, and the new ones,
/// which the user is shown, are stored by their hashes.
pub proof fn law_confirmation_from_call_to_end(
    service: &AuthService,
    user_id: u128,
    code: &str,
    step: Step,
    world: World,
    draws: Draws,
    expires_in: u64,
)
    requires
        call_ensures(AuthService::confirm_2fa, (service, user_id, code), step),
        world.open is None,
    ensures
        ({
            let (result, after) = run(world, step, draws, expires_in);
            let found = active_user(world.committed, user_id);
            let refused = |reason: Failure| (Err::<Success, _>(reason), world);
            let before = world.committed.codes;
            &&& found is None ==> (result, after) == refused(Failure::Unauthorized)
            &&& found matches Some(user) ==> {
                let now_user = after.committed.users[user_id];
                &&& user.totp_enabled ==> (result, after) == refused(Failure::TotpAlreadyEnabled)
                &&& !user.totp_enabled && young_draft(user, world.now) is None ==> (result, after)
                    == refused(Failure::SetupExpired)
                &&& young_draft(user, world.now) matches Some(secret) ==> {
                    let right = (draws.code_right)(secret@, code@);
                    &&& !right ==> (result, after) == refused(Failure::Unauthorized)
                    &&& right && user.id == user_id ==> {
                        &&& result == Ok::<_, Failure>(Success::RecoveryCodes(draws.codes))
                        &&& after.committed.users.remove(user_id) == world.committed.users.remove(
                            user_id,
                        )
                        &&& now_user.totp_enabled
                        &&& now_user.totp_secret == Some(secret)
                        &&& now_user.totp_enabled_at == Some(world.now)
                        &&& now_user.totp_pending_secret is None
                        &&& now_user.password_hash == user.password_hash
                        &&& after.committed.codes.len() == before.len() + draws.code_hashes@.len()
                        &&& forall|k: int|
                            0 <= k < before.len() ==> {
                                let row = #[trigger] after.committed.codes[k];
                                &&& before[k].user_id == user_id ==> row.used_at is Some
                                &&& before[k].user_id != user_id ==> row == before[k]
                            }
                        &&& forall|k: int|
                            0 <= k < draws.code_hashes@.len() ==> is_fresh_code(
                                #[trigger] after.committed.codes[before.len() + k],
                                user_id,
                                draws.code_hashes@[k],
                            )
                        &&& after.committed.tokens == world.committed.tokens
                    }
                }
            }
        }),
{
    let (result, after) = run(world, step, draws, expires_in);
    let found = active_user(world.committed, user_id);
    if let Step::Ask(query, Flow::FindingForConfirm { user_id: id, code: c }) = step {
        assert(step == confirm_step(user_id, c));
        if found is None || found->0.totp_enabled {
            lemma_run_step(
                world,
                query,
                Flow::FindingForConfirm { user_id, code: c },
                Reply::User(found),
                world,
                draws,
                expires_in,
            );
        } else {
            let user = found->0;
            let draft = young_draft(user, world.now);
            assert(draft == live_draft(world.committed, user_id, world.now));
            if draft is None || !(draws.code_right)(draft->0@, c@) {
                law_failed_confirmation_changes_nothing(
                    world,
                    user_id,
                    c,
                    user,
                    draws,
                    expires_in,
                );
            } else if user.id == user_id {
                law_confirmation_enrolls(world, user_id, c, user, draws, expires_in);
                assert(after.committed.users.remove(user_id) =~= world.committed.users.remove(
                    user_id,
                ));
            }
        }
    }
}

/// Whether a row is an unused recovery code of a user with the hash.
pub open spec fn is_fresh_code(row: RecoveryCodeRow, user_id: u128, hash: String) -> bool {
    row.user_id == user_id && row.code_hash == hash && row.used_at is None
}

/// Whether a text is written as a recovery code: four groups of five hexadecimal digits with
/// hyphens between them.
pub open spec fn is_written_as_code(text: Seq<char>) -> bool {
    &&& text.len() == 23
    &&& text[5] == '-' && text[11] == '-' && text[17] == '-'
    &&& forall|i: int|
        0 <= i < 23 && i != 5 && i != 11 && i != 17 ==> {
            let c = #[trigger] text[i];
            ('0' <= c && c <= '9') || ('a' <= c && c <= 'f') || ('A' <= c && c <= 'F')
        }
}

/// The two ways to say how a recovery code is written come to the same.
proof fn lemma_written_as_code(text: Seq<char>)
    ensures
        crate::totp::has_code_format(text) <==> is_written_as_code(text),
{
    if crate::totp::has_code_format(text) {
        assert(text[5] == '-');
        assert(text[11] == '-');
        assert(text[17] == '-');
        assert forall|i: int| 0 <= i < 23 && i != 5 && i != 11 && i != 17 implies ({
            let c = #[trigger] text[i];
            ('0' <= c && c <= '9') || ('a' <= c && c <= 'f') || ('A' <= c && c <= 'F')
        }) by {
            assert(i % 6 != 5);
            assert(is_hex_digit(text[i]));
        }
    }
    if is_written_as_code(text) {
        assert forall|i: int| 0 <= i < 23 implies if i % 6 == 5 {
            #[trigger] text[i] == '-'
        } else {
            is_hex_digit(text[i])
        } by {}
    }
}

/// The hash of a recovery code: that of the code in lower case, without white space around
/// it.
pub open spec fn code_hash(code: Seq<char>) -> Seq<char> {
    hex(sha256(bytes_of(lowercase(trimmed(code)))))
}

/// Whether a user has an unused recovery code with the hash.
pub open spec fn has_unused_code(world: World, user_id: u128, hash: Seq<char>) -> bool {
    exists|k: int|
        0 <= k < world.committed.codes.len() && (#[trigger] world.committed.codes[k]).user_id
            == user_id && world.committed.codes[k].code_hash@ == hash
            && world.committed.codes[k].used_at is None
}

/// Whether a code is good for a user: written as a recovery code, one that the user has and
/// did not use; else the right TOTP code for the secret of the user, not used in its window.
pub open spec fn is_good_code(world: World, user: UserRow, code: Seq<char>, draws: Draws) -> bool {
    if is_written_as_code(trimmed(code)) {
        has_unused_code(world, user.id, code_hash(code))
    } else {
        user.totp_secret matches Some(secret) && (draws.code_right)(secret@, trimmed(code))
            && !world.used.contains((user.id, trimmed(code)))
    }
}

/// A code that is good is valid for the form of the call.
proof fn lemma_good_code(world: World, user: UserRow, form: CodeForm, code: Seq<char>, draws: Draws)
    requires
        active_user(world.committed, form.user_id) == Some(user),
        user.totp_enabled,
        crate::service::auth::is_code_form(form, form.user_id, code),
    ensures
        is_valid_code(world, form, draws) <==> is_good_code(world, user, code, draws),
        form.is_recovery <==> is_written_as_code(trimmed(code)),
        form.code@ == trimmed(code),
        form.code_hash@ == code_hash(code),
{
    lemma_written_as_code(trimmed(code));
    let codes = world.committed.codes;
    if form.is_recovery {
        if is_valid_code(world, form, draws) {
            let k = choose|k: int| is_unused_code(codes, k, user.id, form.code_hash@);
            assert(codes[k].user_id == user.id);
        }
        if has_unused_code(world, user.id, code_hash(code)) {
            let k = choose|k: int|
                0 <= k < codes.len() && (#[trigger] codes[k]).user_id == user.id
                    && codes[k].code_hash@ == code_hash(code) && codes[k].used_at is None;
            assert(is_unused_code(codes, k, user.id, form.code_hash@));
        }
    }
}

/// What a verification of the second factor comes to. An unknown user is refused, and so is
/// one whose second factor is off. A good code is accepted: a recovery code is marked as
/// used, and no other code of the user, nor of another user, is; a TOTP code is remembered.
/// Any other code is refused, and nothing changes.
pub proof fn law_verification_from_call_to_end(
    service: &AuthService,
    user_id: u128,
    code: &str,
    step: Step,
    world: World,
    draws: Draws,
    expires_in: u64,
)
    requires
        call_ensures(AuthService::verify_2fa_code, (service, user_id, code), step),
        world.open is None,
    ensures
        ({
            let (result, after) = run(world, step, draws, expires_in);
            let found = active_user(world.committed, user_id);
            let refused = |reason: Failure| (Err::<Success, _>(reason), world);
            let before = world.committed.codes;
            let recovery = is_written_as_code(trimmed(code@));
            &&& found is None ==> (result, after) == refused(Failure::Unauthorized)
            &&& found matches Some(user) ==> {
                let good = is_good_code(world, user, code@, draws);
                &&& !user.totp_enabled ==> (result, after) == refused(Failure::TotpNotEnabled)
                &&& user.totp_enabled && !good ==> (result, after) == refused(
                    Failure::Unauthorized,
                )
                &&& user.totp_enabled && good && recovery ==> {
                    &&& result == Ok::<_, Failure>(
                        Success::SecondFactor(SecondFactorKind::RecoveryCode),
                    )
                    &&& after.committed.codes.len() == before.len()
                    &&& forall|k: int|
                        0 <= k < before.len() ==> {
                            let row = #[trigger] after.committed.codes[k];
                            let this = before[k].user_id == user.id && before[k].code_hash@
                                == code_hash(code@);
                            &&& this ==> row.used_at is Some
                            &&& !this ==> row == before[k]
                        }
                    &&& after.committed.users == world.committed.users
                }
                &&& user.totp_enabled && good && !recovery ==> {
                    &&& result == Ok::<_, Failure>(Success::SecondFactor(SecondFactorKind::Totp))
                    &&& after.committed == world.committed
                }
            }
        }),
{
    let found = active_user(world.committed, user_id);
    if let Step::Ask(_, Flow::FindingForCode(form)) = step {
        assert(step == verify_step(form));
        if found is None || !found->0.totp_enabled {
            assert(!is_valid_code(world, form, draws));
            lemma_verification_is_refused(world, form, draws, expires_in);
        } else {
            let user = found->0;
            lemma_good_code(world, user, form, code@, draws);
            if !is_good_code(world, user, code@, draws) {
                lemma_verification_is_refused(world, form, draws, expires_in);
            } else if form.is_recovery {
                let k = choose|k: int|
                    is_unused_code(world.committed.codes, k, user.id, form.code_hash@);
                law_recovery_code_is_accepted_once(
                    world,
                    form,
                    form,
                    user,
                    k,
                    draws,
                    draws,
                    expires_in,
                );
            } else {
                law_totp_code_is_accepted_once(
                    world,
                    form,
                    form,
                    user,
                    draws,
                    draws,
                    expires_in,
                );
            }
        }
    }
}

/// What switching the second factor off comes to. An unknown user is refused, and so is one
/// whose second factor is off. Without a good code it stays on, and nothing changes. With
/// one it is off: the secret and any draft are gone, no recovery code of the user is left
/// unused, and no session ends.
pub proof fn law_disabling_from_call_to_end(
    service: &AuthService,
    user_id: u128,
    code: &str,
    step: Step,
    world: World,
    draws: Draws,
    expires_in: u64,
)
    requires
        call_ensures(AuthService::disable_2fa, (service, user_id, code), step),
        world.open is None,
    ensures
        ({
            let (result, after) = run(world, step, draws, expires_in);
            let found = active_user(world.committed, user_id);
            let refused = |reason: Failure| (Err::<Success, _>(reason), world);
            &&& found is None ==> (result, after) == refused(Failure::Unauthorized)
            &&& found matches Some(user) ==> {
                let good = is_good_code(world, user, code@, draws);
                let now_user = after.committed.users[user_id];
                &&& !user.totp_enabled ==> (result, after) == refused(Failure::TotpNotEnabled)
                &&& user.totp_enabled && !good ==> (result, after) == refused(
                    Failure::Unauthorized,
                )
                &&& user.totp_enabled && good && user.id == user_id ==> {
                    &&& result == Ok::<_, Failure>(Success::Disabled)
                    &&& after.committed.users.remove(user_id) == world.committed.users.remove(
                        user_id,
                    )
                    &&& !now_user.totp_enabled
                    &&& now_user.totp_secret is None
                    &&& now_user.totp_pending_secret is None
                    &&& now_user.password_hash == user.password_hash
                    &&& forall|k: int|
                        0 <= k < after.committed.codes.len() && (
                        #[trigger] after.committed.codes[k]).user_id == user_id
                            ==> after.committed.codes[k].used_at is Some
                    &&& after.committed.tokens == world.committed.tokens
                }
            }
        }),
{
    let (result, after) = run(world, step, draws, expires_in);
    let found = active_user(world.committed, user_id);
    if let Step::Ask(query, Flow::FindingForDisable(form)) = step {
        assert(step == disable_step(form));
        if found is None || !found->0.totp_enabled {
            lemma_run_step(
                world,
                query,
                Flow::FindingForDisable(form),
                Reply::User(found),
                world,
                draws,
                expires_in,
            );
        } else {
            let user = found->0;
            lemma_good_code(world, user, form, code@, draws);
            if !is_good_code(world, user, code@, draws) {
                law_bad_code_disables_nothing(world, form, user, draws, expires_in);
            } else if user.id == user_id {
                if form.is_recovery {
                    let k = choose|k: int|
                        is_unused_code(world.committed.codes, k, user.id, form.code_hash@);
                    law_recovery_code_disables_the_second_factor(
                        world,
                        form,
                        user,
                        k,
                        draws,
                        expires_in,
                    );
                } else {
                    law_totp_code_disables_the_second_factor(
                        world,
                        form,
                        user,
                        draws,
                        expires_in,
                    );
                }
                assert(after.committed.users.remove(user_id) =~= world.committed.users.remove(
                    user_id,
                ));
            }
        }
    }
}

/// A text is taken for a recovery code exactly when, without white space around it, it is
/// written as one.
pub proof fn law_recovery_code_is_known_by_its_form(code: &str, is: bool)
    requires
        call_ensures(is_recovery_code, (code,), is),
    ensures
        is <==> is_written_as_code(trimmed(code@)),
{
    lemma_written_as_code(trimmed(code@));
}

} // verus!
