//! What holds of the operations on the second factor.

use vstd::prelude::*;

use crate::cache::CodeClaim;
use crate::error::DpopErrorView;
use crate::service::auth::is_code_form;
use crate::service::flow::{
    next, CodeForm, Failure, Flow, Query, Reply, SecondFactorKind, Step, Success,
};
use crate::service::world::{
    active_user, code_rows, codes_consumed, codes_invalidated, end_of, enrolled, is_unused_code,
    lemma_done, lemma_end_of_run, lemma_run_step, lemma_step, live_draft, run, unenrolled, Draws,
    Tables, World, DRAFT_MICROS,
};
use crate::store::models::UserRow;
use crate::text::trimmed;
use crate::totp::{has_code_format, is_setup_of, setup_outcome};

verus! {

/// The first step of a setup.
pub open spec fn setup_step(user_id: u128, issuer: String, account_name: String) -> Step {
    Step::Ask(
        Query::FindUserById { user_id },
        Flow::FindingForSetup { user_id, issuer, account_name },
    )
}

/// A setup writes a draft and nothing else: the active secret of the user stays as it is.
pub proof fn law_setup_writes_only_a_draft(
    world: World,
    user_id: u128,
    issuer: String,
    account_name: String,
    user: UserRow,
    draws: Draws,
    expires_in: u64,
)
    requires
        world.open is None,
        active_user(world.committed, user_id) == Some(user),
        !user.totp_enabled,
        live_draft(world.committed, user_id, world.now) is None,
        is_setup_of(draws.setup@, issuer@, account_name@),
    ensures
        run(world, setup_step(user_id, issuer, account_name), draws, expires_in) == (
            Ok::<_, Failure>(Success::Setup(draws.setup)),
            World {
                committed: Tables {
                    users: world.committed.users.insert(
                        user_id,
                        UserRow {
                            totp_pending_secret: Some(draws.setup.secret_base32),
                            totp_pending_at: Some(world.now),
                            ..user
                        },
                    ),
                    ..world.committed
                },
                ..world
            },
        ),
{
    let setup = draws.setup;
    let drafted = UserRow {
        totp_pending_secret: Some(setup.secret_base32),
        totp_pending_at: Some(world.now),
        ..user
    };
    let done = World {
        committed: Tables {
            users: world.committed.users.insert(user_id, drafted),
            ..world.committed
        },
        ..world
    };
    lemma_run_step(
        world,
        Query::FindUserById { user_id },
        Flow::FindingForSetup { user_id, issuer, account_name },
        Reply::User(Some(user)),
        world,
        draws,
        expires_in,
    );
    lemma_run_step(
        world,
        Query::GetPendingSecret { user_id },
        Flow::ReadingDraft { user_id, issuer, account_name },
        Reply::Pending(None),
        world,
        draws,
        expires_in,
    );
    lemma_run_step(
        world,
        Query::NewTotpSetup { issuer, account_name },
        Flow::GeneratingSetup { user_id },
        Reply::Setup(setup),
        world,
        draws,
        expires_in,
    );
    lemma_run_step(
        world,
        Query::SetPendingSecret { user_id, secret: setup.secret_base32 },
        Flow::SavingDraft { setup },
        Reply::Done,
        done,
        draws,
        expires_in,
    );
}

/// A setup that finds a live draft shows that draft again, and writes nothing.
pub proof fn law_live_draft_is_shown_again(
    world: World,
    user_id: u128,
    issuer: String,
    account_name: String,
    secret: String,
    draws: Draws,
    expires_in: u64,
)
    requires
        world.open is None,
        live_draft(world.committed, user_id, world.now) == Some(secret),
        setup_outcome(secret@, issuer@, account_name@) == Ok::<_, DpopErrorView>(draws.setup@),
    ensures
        next(
            Flow::ReadingDraft { user_id, issuer, account_name },
            Reply::Pending(Some(secret)),
            expires_in,
        ) == Step::Ask(
            Query::TotpSetupFrom { secret, issuer, account_name },
            Flow::RebuildingSetup,
        ),
        run(world, setup_step(user_id, issuer, account_name), draws, expires_in) == (
            Ok::<_, Failure>(Success::Setup(draws.setup)),
            world,
        ),
{
    let user = active_user(world.committed, user_id)->0;
    lemma_run_step(
        world,
        Query::FindUserById { user_id },
        Flow::FindingForSetup { user_id, issuer, account_name },
        Reply::User(Some(user)),
        world,
        draws,
        expires_in,
    );
    lemma_run_step(
        world,
        Query::GetPendingSecret { user_id },
        Flow::ReadingDraft { user_id, issuer, account_name },
        Reply::Pending(Some(secret)),
        world,
        draws,
        expires_in,
    );
    lemma_run_step(
        world,
        Query::TotpSetupFrom { secret, issuer, account_name },
        Flow::RebuildingSetup,
        Reply::Setup(draws.setup),
        world,
        draws,
        expires_in,
    );
}

/// A setup that is repeated while its draft lives gives the same secret and the same URI
/// again, and writes nothing.
pub proof fn law_repeated_setup_is_the_same(
    world: World,
    user_id: u128,
    issuer: String,
    account_name: String,
    again_issuer: String,
    again_account_name: String,
    user: UserRow,
    later: i64,
    draws: Draws,
    other_draws: Draws,
    expires_in: u64,
)
    requires
        world.open is None,
        active_user(world.committed, user_id) == Some(user),
        !user.totp_enabled,
        live_draft(world.committed, user_id, world.now) is None,
        is_setup_of(draws.setup@, issuer@, account_name@),
        again_issuer@ == issuer@,
        again_account_name@ == account_name@,
        later < world.now + DRAFT_MICROS,
    ensures
        ({
            let (first, after) = run(
                world,
                setup_step(user_id, issuer, account_name),
                draws,
                expires_in,
            );
            let then = World { now: later, ..after };
            let (second, end) = run(
                then,
                setup_step(user_id, again_issuer, again_account_name),
                other_draws,
                expires_in,
            );
            &&& first == Ok::<_, Failure>(Success::Setup(draws.setup))
            &&& second matches Ok(success) ==> {
                &&& success matches Success::Setup(setup)
                &&& setup@ == draws.setup@
            }
            &&& other_draws.setup@ == draws.setup@ ==> second is Ok
            &&& end == then
        }),
{
    law_setup_writes_only_a_draft(
        world,
        user_id,
        issuer,
        account_name,
        user,
        draws,
        expires_in,
    );
    let after = run(world, setup_step(user_id, issuer, account_name), draws, expires_in).1;
    let then = World { now: later, ..after };
    let secret = draws.setup.secret_base32;
    let drafted = active_user(then.committed, user_id)->0;
    let reply = if other_draws.setup@ == draws.setup@ {
        Reply::Setup(other_draws.setup)
    } else {
        Reply::Failed { message: other_draws.message }
    };
    assert(live_draft(then.committed, user_id, later) == Some(secret));
    lemma_run_step(
        then,
        Query::FindUserById { user_id },
        Flow::FindingForSetup {
            user_id,
            issuer: again_issuer,
            account_name: again_account_name,
        },
        Reply::User(Some(drafted)),
        then,
        other_draws,
        expires_in,
    );
    lemma_run_step(
        then,
        Query::GetPendingSecret { user_id },
        Flow::ReadingDraft {
            user_id,
            issuer: again_issuer,
            account_name: again_account_name,
        },
        Reply::Pending(Some(secret)),
        then,
        other_draws,
        expires_in,
    );
    lemma_run_step(
        then,
        Query::TotpSetupFrom {
            secret,
            issuer: again_issuer,
            account_name: again_account_name,
        },
        Flow::RebuildingSetup,
        reply,
        then,
        other_draws,
        expires_in,
    );
}

/// Where the second factor is on, a setup is refused and writes nothing.
pub proof fn law_enabled_factor_is_not_set_up_again(
    world: World,
    user_id: u128,
    issuer: String,
    account_name: String,
    user: UserRow,
    draws: Draws,
    expires_in: u64,
)
    requires
        world.open is None,
        active_user(world.committed, user_id) == Some(user),
        user.totp_enabled,
    ensures
        run(world, setup_step(user_id, issuer, account_name), draws, expires_in) == (
            Err::<Success, _>(Failure::TotpAlreadyEnabled),
            world,
        ),
{
    reveal_with_fuel(run, 3);
}

/// The first step of a confirmation.
pub open spec fn confirm_step(user_id: u128, code: String) -> Step {
    Step::Ask(Query::FindUserById { user_id }, Flow::FindingForConfirm { user_id, code })
}

/// A wrong code, or a draft that is missing or too old, activates nothing.
pub proof fn law_failed_confirmation_changes_nothing(
    world: World,
    user_id: u128,
    code: String,
    user: UserRow,
    draws: Draws,
    expires_in: u64,
)
    requires
        world.open is None,
        active_user(world.committed, user_id) == Some(user),
        !user.totp_enabled,
        live_draft(world.committed, user_id, world.now) matches Some(secret) ==> !(
        draws.code_right)(secret@, code@),
    ensures
        run(world, confirm_step(user_id, code), draws, expires_in) == (
            Err::<Success, _>(
                if live_draft(world.committed, user_id, world.now) is None {
                    Failure::SetupExpired
                } else {
                    Failure::Unauthorized
                },
            ),
            world,
        ),
{
    lemma_run_step(
        world,
        Query::FindUserById { user_id },
        Flow::FindingForConfirm { user_id, code },
        Reply::User(Some(user)),
        world,
        draws,
        expires_in,
    );
    lemma_run_step(
        world,
        Query::GetPendingSecret { user_id },
        Flow::ReadingPending { user_id: user.id, code },
        Reply::Pending(live_draft(world.committed, user_id, world.now)),
        world,
        draws,
        expires_in,
    );
    if let Some(secret) = live_draft(world.committed, user_id, world.now) {
        lemma_run_step(
            world,
            Query::VerifyTotp { secret, code },
            Flow::CheckingFirstCode { user_id: user.id },
            Reply::Verdict(false),
            world,
            draws,
            expires_in,
        );
    }
}

/// The first right code promotes the draft to the active secret, clears the draft, and
/// replaces all recovery codes of the user by the new ones, in one transaction.
pub proof fn law_confirmation_enrolls(
    world: World,
    user_id: u128,
    code: String,
    user: UserRow,
    draws: Draws,
    expires_in: u64,
)
    requires
        world.open is None,
        active_user(world.committed, user_id) == Some(user),
        user.id == user_id,
        live_draft(world.committed, user_id, world.now) is Some,
        (draws.code_right)(live_draft(world.committed, user_id, world.now)->0@, code@),
    ensures
        ({
            let (result, after) = run(world, confirm_step(user_id, code), draws, expires_in);
            &&& result == Ok::<_, Failure>(Success::RecoveryCodes(draws.codes))
            &&& after == World {
                committed: Tables {
                    users: world.committed.users.insert(user_id, enrolled(user, world.now)),
                    codes: codes_invalidated(world.committed.codes, user_id, world.now)
                        + code_rows(user_id, draws.code_hashes@, draws.id, world.now),
                    ..world.committed
                },
                ..world
            }
            &&& enrolled(user, world.now).totp_secret == live_draft(
                world.committed,
                user_id,
                world.now,
            )
        }),
{
    let secret = live_draft(world.committed, user_id, world.now)->0;
    let (codes, hashes) = (draws.codes, draws.code_hashes);
    let start = world.committed;
    let active = Tables {
        users: start.users.insert(user_id, enrolled(user, world.now)),
        ..start
    };
    let cleared = Tables {
        codes: codes_invalidated(start.codes, user_id, world.now),
        ..active
    };
    let full = Tables {
        codes: cleared.codes + code_rows(user_id, hashes@, draws.id, world.now),
        ..cleared
    };
    let begun = World { open: Some(start), ..world };
    let activated = World { open: Some(active), ..world };
    let invalidated = World { open: Some(cleared), ..world };
    let stored = World { open: Some(full), ..world };
    let done = World { committed: full, ..world };
    let step0 = Step::Ask(
        Query::FindUserById { user_id },
        Flow::FindingForConfirm { user_id, code },
    );
    let step1 = Step::Ask(
        Query::GetPendingSecret { user_id },
        Flow::ReadingPending { user_id, code },
    );
    let step2 = Step::Ask(Query::VerifyTotp { secret, code }, Flow::CheckingFirstCode { user_id });
    let step3 = Step::Ask(Query::NewRecoveryCodes, Flow::DrawingCodes { user_id });
    let step4 = Step::Ask(Query::Begin, Flow::BeginningActivation { user_id, codes, hashes });
    let step5 = Step::Ask(
        Query::ActivateTotp { user_id },
        Flow::Activating { user_id, codes, hashes },
    );
    let step6 = Step::Ask(
        Query::InvalidateRecoveryCodes { user_id },
        Flow::InvalidatingOld { user_id, codes, hashes },
    );
    let step7 = Step::Ask(
        Query::CreateRecoveryCodes { user_id, hashes },
        Flow::StoringCodes { codes },
    );
    let step8 = Step::Ask(Query::Commit, Flow::CommittingActivation { codes });
    let then = Step::Done(Ok(Success::RecoveryCodes(codes)));
    assert(end_of(world, step0, draws, expires_in) == end_of(world, step1, draws, expires_in)) by {
        lemma_step(
            world,
            Query::FindUserById { user_id },
            Flow::FindingForConfirm { user_id, code },
            Reply::User(Some(user)),
            world,
            step1,
            draws,
            expires_in,
        );
    }
    assert(end_of(world, step1, draws, expires_in) == end_of(world, step2, draws, expires_in)) by {
        lemma_step(
            world,
            Query::GetPendingSecret { user_id },
            Flow::ReadingPending { user_id, code },
            Reply::Pending(Some(secret)),
            world,
            step2,
            draws,
            expires_in,
        );
    }
    assert(end_of(world, step2, draws, expires_in) == end_of(world, step3, draws, expires_in)) by {
        lemma_step(
            world,
            Query::VerifyTotp { secret, code },
            Flow::CheckingFirstCode { user_id },
            Reply::Verdict(true),
            world,
            step3,
            draws,
            expires_in,
        );
    }
    assert(end_of(world, step3, draws, expires_in) == end_of(world, step4, draws, expires_in)) by {
        lemma_step(
            world,
            Query::NewRecoveryCodes,
            Flow::DrawingCodes { user_id },
            Reply::Codes { codes, hashes },
            world,
            step4,
            draws,
            expires_in,
        );
    }
    assert(end_of(world, step4, draws, expires_in) == end_of(begun, step5, draws, expires_in)) by {
        lemma_step(
            world,
            Query::Begin,
            Flow::BeginningActivation { user_id, codes, hashes },
            Reply::Done,
            begun,
            step5,
            draws,
            expires_in,
        );
    }
    assert(end_of(begun, step5, draws, expires_in) == end_of(activated, step6, draws, expires_in))
        by {
        lemma_step(
            begun,
            Query::ActivateTotp { user_id },
            Flow::Activating { user_id, codes, hashes },
            Reply::Done,
            activated,
            step6,
            draws,
            expires_in,
        );
    }
    assert(end_of(activated, step6, draws, expires_in) == end_of(
        invalidated,
        step7,
        draws,
        expires_in,
    )) by {
        lemma_step(
            activated,
            Query::InvalidateRecoveryCodes { user_id },
            Flow::InvalidatingOld { user_id, codes, hashes },
            Reply::Done,
            invalidated,
            step7,
            draws,
            expires_in,
        );
    }
    assert(end_of(invalidated, step7, draws, expires_in) == end_of(
        stored,
        step8,
        draws,
        expires_in,
    )) by {
        lemma_step(
            invalidated,
            Query::CreateRecoveryCodes { user_id, hashes },
            Flow::StoringCodes { codes },
            Reply::Done,
            stored,
            step8,
            draws,
            expires_in,
        );
    }
    assert(end_of(stored, step8, draws, expires_in) == end_of(done, then, draws, expires_in)) by {
        lemma_step(
            stored,
            Query::Commit,
            Flow::CommittingActivation { codes },
            Reply::Done,
            done,
            then,
            draws,
            expires_in,
        );
    }
    lemma_done(done, Ok(Success::RecoveryCodes(codes)), draws, expires_in);
    lemma_end_of_run(world, confirm_step(user_id, code), draws, expires_in);
}

/// The first step of a verification.
pub open spec fn verify_step(form: CodeForm) -> Step {
    Step::Ask(Query::FindUserById { user_id: form.user_id }, Flow::FindingForCode(form))
}

/// A right TOTP code is accepted once in its window: after it was accepted, the same code
/// of the same user is refused.
pub proof fn law_totp_code_is_accepted_once(
    world: World,
    form: CodeForm,
    again: CodeForm,
    user: UserRow,
    draws: Draws,
    other_draws: Draws,
    expires_in: u64,
)
    requires
        world.open is None,
        active_user(world.committed, form.user_id) == Some(user),
        user.totp_enabled,
        user.totp_secret is Some,
        !form.is_recovery,
        !again.is_recovery,
        form.disabling is None,
        again.disabling is None,
        again.user_id == form.user_id,
        again.code@ == form.code@,
        (draws.code_right)(user.totp_secret->0@, form.code@),
        !world.used.contains((user.id, form.code@)),
    ensures
        ({
            let (first, after) = run(world, verify_step(form), draws, expires_in);
            let (second, later) = run(after, verify_step(again), other_draws, expires_in);
            &&& first == Ok::<_, Failure>(Success::SecondFactor(SecondFactorKind::Totp))
            &&& after.committed == world.committed
            &&& second == Err::<Success, _>(Failure::Unauthorized)
            &&& later.committed == world.committed
        }),
{
    let secret = user.totp_secret->0;
    let user_id = user.id;
    let key = (user_id, form.code@);
    CodeClaim::lemma_made(draws.code_cache, user_id, form.code, true);
    CodeClaim::lemma_made(other_draws.code_cache, user_id, again.code, false);
    let claimed = World { used: world.used.insert(key), ..world };
    lemma_run_step(
        world,
        Query::FindUserById { user_id: form.user_id },
        Flow::FindingForCode(form),
        Reply::User(Some(user)),
        world,
        draws,
        expires_in,
    );
    lemma_run_step(
        world,
        Query::VerifyTotp { secret, code: form.code },
        Flow::CheckingCode { user_id, code: form.code, disabling: None },
        Reply::Verdict(true),
        world,
        draws,
        expires_in,
    );
    lemma_run_step(
        world,
        Query::ClaimTotp { user_id, code: form.code },
        Flow::ClaimingCode { disabling: None },
        Reply::Fresh(CodeClaim::made(draws.code_cache, user_id, form.code, true)),
        claimed,
        draws,
        expires_in,
    );
    lemma_run_step(
        claimed,
        Query::FindUserById { user_id: again.user_id },
        Flow::FindingForCode(again),
        Reply::User(Some(user)),
        claimed,
        other_draws,
        expires_in,
    );
    lemma_run_step(
        claimed,
        Query::VerifyTotp { secret, code: again.code },
        Flow::CheckingCode { user_id, code: again.code, disabling: None },
        Reply::Verdict((other_draws.code_right)(secret@, again.code@)),
        claimed,
        other_draws,
        expires_in,
    );
    assert(claimed.used.insert(key) =~= claimed.used);
    lemma_run_step(
        claimed,
        Query::ClaimTotp { user_id, code: again.code },
        Flow::ClaimingCode { disabling: None },
        Reply::Fresh(CodeClaim::made(other_draws.code_cache, user_id, again.code, false)),
        claimed,
        other_draws,
        expires_in,
    );
}

/// A recovery code is accepted once: it is marked as used, and the same code of the same
/// user is refused from then on.
pub proof fn law_recovery_code_is_accepted_once(
    world: World,
    form: CodeForm,
    again: CodeForm,
    user: UserRow,
    i: int,
    draws: Draws,
    other_draws: Draws,
    expires_in: u64,
)
    requires
        world.open is None,
        active_user(world.committed, form.user_id) == Some(user),
        user.totp_enabled,
        form.is_recovery,
        again.is_recovery,
        form.disabling is None,
        again.disabling is None,
        again.user_id == form.user_id,
        again.code_hash@ == form.code_hash@,
        is_unused_code(world.committed.codes, i, user.id, form.code_hash@),
    ensures
        ({
            let (first, after) = run(world, verify_step(form), draws, expires_in);
            let (second, later) = run(after, verify_step(again), other_draws, expires_in);
            &&& first == Ok::<_, Failure>(Success::SecondFactor(SecondFactorKind::RecoveryCode))
            &&& after.committed.codes == codes_consumed(
                world.committed.codes,
                user.id,
                form.code_hash@,
                world.now,
            )
            &&& after.committed.users == world.committed.users
            &&& second == Err::<Success, _>(Failure::Unauthorized)
            &&& later == after
        }),
{
    let codes = world.committed.codes;
    let left = codes_consumed(codes, user.id, form.code_hash@, world.now);
    assert forall|k: int| !is_unused_code(left, k, user.id, form.code_hash@) by {
    }
    let user_id = user.id;
    let spent = World { committed: Tables { codes: left, ..world.committed }, ..world };
    lemma_run_step(
        world,
        Query::FindUserById { user_id: form.user_id },
        Flow::FindingForCode(form),
        Reply::User(Some(user)),
        world,
        draws,
        expires_in,
    );
    lemma_run_step(
        world,
        Query::ConsumeRecoveryCode { user_id, code_hash: form.code_hash },
        Flow::ConsumingCode { disabling: None },
        Reply::Consumed(true),
        spent,
        draws,
        expires_in,
    );
    lemma_run_step(
        spent,
        Query::FindUserById { user_id: again.user_id },
        Flow::FindingForCode(again),
        Reply::User(Some(user)),
        spent,
        other_draws,
        expires_in,
    );
    lemma_run_step(
        spent,
        Query::ConsumeRecoveryCode { user_id, code_hash: again.code_hash },
        Flow::ConsumingCode { disabling: None },
        Reply::Consumed(false),
        spent,
        other_draws,
        expires_in,
    );
}

/// A code that belongs to another user is refused, and is not burned.
pub proof fn law_foreign_recovery_code_is_not_burned(
    world: World,
    form: CodeForm,
    user: UserRow,
    draws: Draws,
    expires_in: u64,
)
    requires
        world.open is None,
        active_user(world.committed, form.user_id) == Some(user),
        user.totp_enabled,
        form.is_recovery,
        forall|k: int| !is_unused_code(world.committed.codes, k, user.id, form.code_hash@),
    ensures
        run(world, verify_step(form), draws, expires_in) == (
            Err::<Success, _>(Failure::Unauthorized),
            world,
        ),
{
    lemma_run_step(
        world,
        Query::FindUserById { user_id: form.user_id },
        Flow::FindingForCode(form),
        Reply::User(Some(user)),
        world,
        draws,
        expires_in,
    );
    lemma_run_step(
        world,
        Query::ConsumeRecoveryCode { user_id: user.id, code_hash: form.code_hash },
        Flow::ConsumingCode { disabling: form.disabling },
        Reply::Consumed(false),
        world,
        draws,
        expires_in,
    );
}

/// A verification without a valid code is refused, and changes nothing.
pub proof fn lemma_verification_is_refused(
    world: World,
    form: CodeForm,
    draws: Draws,
    expires_in: u64,
)
    requires
        world.open is None,
        !is_valid_code(world, form, draws),
    ensures
        run(world, verify_step(form), draws, expires_in) == (
            Err::<Success, _>(refusal(world, form)),
            world,
        ),
{
    let found = active_user(world.committed, form.user_id);
    lemma_run_step(
        world,
        Query::FindUserById { user_id: form.user_id },
        Flow::FindingForCode(form),
        Reply::User(found),
        world,
        draws,
        expires_in,
    );
    if let Some(user) = found {
        let disabling = form.disabling;
        if user.totp_enabled && form.is_recovery {
            lemma_run_step(
                world,
                Query::ConsumeRecoveryCode { user_id: user.id, code_hash: form.code_hash },
                Flow::ConsumingCode { disabling },
                Reply::Consumed(false),
                world,
                draws,
                expires_in,
            );
        } else if user.totp_enabled && user.totp_secret is Some {
            let secret = user.totp_secret->0;
            lemma_run_step(
                world,
                Query::VerifyTotp { secret, code: form.code },
                Flow::CheckingCode { user_id: user.id, code: form.code, disabling },
                Reply::Verdict((draws.code_right)(secret@, form.code@)),
                world,
                draws,
                expires_in,
            );
            if (draws.code_right)(secret@, form.code@) {
                let key = (user.id, form.code@);
                assert(world.used.insert(key) =~= world.used);
                CodeClaim::lemma_made(draws.code_cache, user.id, form.code, false);
                lemma_run_step(
                    world,
                    Query::ClaimTotp { user_id: user.id, code: form.code },
                    Flow::ClaimingCode { disabling },
                    Reply::Fresh(CodeClaim::made(draws.code_cache, user.id, form.code, false)),
                    world,
                    draws,
                    expires_in,
                );
            }
        }
    }
}

/// Why a code that is not valid is refused.
pub open spec fn refusal(world: World, form: CodeForm) -> Failure {
    match active_user(world.committed, form.user_id) {
        Some(user) if !user.totp_enabled => Failure::TotpNotEnabled,
        _ => Failure::Unauthorized,
    }
}

/// Whether a code is valid for the user of the form: an unused recovery code, or a right
/// TOTP code that was not used in its window.
pub open spec fn is_valid_code(world: World, form: CodeForm, draws: Draws) -> bool {
    &&& active_user(world.committed, form.user_id) matches Some(user)
    &&& user.totp_enabled
    &&& if form.is_recovery {
        exists|i: int| is_unused_code(world.committed.codes, i, user.id, form.code_hash@)
    } else {
        &&& user.totp_secret is Some
        &&& (draws.code_right)(user.totp_secret->0@, form.code@)
        &&& !world.used.contains((user.id, form.code@))
    }
}

/// A second factor is accepted once: whatever was accepted, the same code of the same user
/// is refused from then on, as long as a used TOTP code is remembered. What it was is told
/// by its format.
pub proof fn law_second_factor_is_accepted_once(
    world: World,
    form: CodeForm,
    again: CodeForm,
    user_id: u128,
    code: Seq<char>,
    draws: Draws,
    other_draws: Draws,
    expires_in: u64,
)
    requires
        world.open is None,
        is_code_form(form, user_id, code),
        is_code_form(again, user_id, code),
        run(world, verify_step(form), draws, expires_in).0 is Ok,
    ensures
        ({
            let (first, after) = run(world, verify_step(form), draws, expires_in);
            let (second, later) = run(after, verify_step(again), other_draws, expires_in);
            &&& first == Ok::<_, Failure>(
                Success::SecondFactor(
                    if has_code_format(trimmed(code)) {
                        SecondFactorKind::RecoveryCode
                    } else {
                        SecondFactorKind::Totp
                    },
                ),
            )
            &&& second == Err::<Success, _>(Failure::Unauthorized)
        }),
{
    if !is_valid_code(world, form, draws) {
        lemma_verification_is_refused(world, form, draws, expires_in);
    }
    let user = active_user(world.committed, user_id)->0;
    if form.is_recovery {
        let i = choose|i: int|
            is_unused_code(world.committed.codes, i, user.id, form.code_hash@);
        law_recovery_code_is_accepted_once(
            world,
            form,
            again,
            user,
            i,
            draws,
            other_draws,
            expires_in,
        );
    } else {
        law_totp_code_is_accepted_once(
            world,
            form,
            again,
            user,
            draws,
            other_draws,
            expires_in,
        );
    }
}

/// The first step of switching the second factor off.
pub open spec fn disable_step(form: CodeForm) -> Step {
    Step::Ask(Query::FindUserById { user_id: form.user_id }, Flow::FindingForDisable(form))
}

/// A recovery code switches the second factor off: the secret and any draft are purged,
/// and no recovery code of the user is left unused.
pub proof fn law_recovery_code_disables_the_second_factor(
    world: World,
    form: CodeForm,
    user: UserRow,
    i: int,
    draws: Draws,
    expires_in: u64,
)
    requires
        world.open is None,
        active_user(world.committed, form.user_id) == Some(user),
        user.id == form.user_id,
        user.totp_enabled,
        form.is_recovery,
        is_unused_code(world.committed.codes, i, user.id, form.code_hash@),
    ensures
        ({
            let (result, after) = run(world, disable_step(form), draws, expires_in);
            &&& result == Ok::<_, Failure>(Success::Disabled)
            &&& after.committed.users == world.committed.users.insert(user.id, unenrolled(user))
            &&& forall|k: int|
                0 <= k < after.committed.codes.len() && (
                #[trigger] after.committed.codes[k]).user_id == user.id
                    ==> after.committed.codes[k].used_at is Some
            &&& after.committed.tokens == world.committed.tokens
            &&& after.open is None
        }),
{
    let user_id = user.id;
    let start = world.committed;
    let spent = Tables {
        codes: codes_consumed(start.codes, user_id, form.code_hash@, world.now),
        ..start
    };
    let off = Tables { users: start.users.insert(user_id, unenrolled(user)), ..spent };
    let clear = Tables { codes: codes_invalidated(spent.codes, user_id, world.now), ..off };
    let verifying = CodeForm { disabling: Some(user_id), ..form };
    let consumed = World { committed: spent, ..world };
    let begun = World { open: Some(spent), ..consumed };
    let disabled = World { open: Some(off), ..consumed };
    let invalidated = World { open: Some(clear), ..consumed };
    let done = World { committed: clear, ..world };
    let step0 = Step::Ask(
        Query::FindUserById { user_id: form.user_id },
        Flow::FindingForDisable(form),
    );
    let step1 = Step::Ask(
        Query::FindUserById { user_id: form.user_id },
        Flow::FindingForCode(verifying),
    );
    let step2 = Step::Ask(
        Query::ConsumeRecoveryCode { user_id, code_hash: form.code_hash },
        Flow::ConsumingCode { disabling: Some(user_id) },
    );
    let step3 = Step::Ask(Query::Begin, Flow::BeginningDisable { user_id });
    let step4 = Step::Ask(Query::DisableTotp { user_id }, Flow::Disabling { user_id });
    let step5 = Step::Ask(Query::InvalidateRecoveryCodes { user_id }, Flow::InvalidatingCodes);
    let step6 = Step::Ask(Query::Commit, Flow::CommittingDisable);
    let then = Step::Done(Ok(Success::Disabled));
    assert(end_of(world, step0, draws, expires_in) == end_of(world, step1, draws, expires_in)) by {
        lemma_step(
            world,
            Query::FindUserById { user_id: form.user_id },
            Flow::FindingForDisable(form),
            Reply::User(Some(user)),
            world,
            step1,
            draws,
            expires_in,
        );
    }
    assert(end_of(world, step1, draws, expires_in) == end_of(world, step2, draws, expires_in)) by {
        lemma_step(
            world,
            Query::FindUserById { user_id: form.user_id },
            Flow::FindingForCode(verifying),
            Reply::User(Some(user)),
            world,
            step2,
            draws,
            expires_in,
        );
    }
    assert(end_of(world, step2, draws, expires_in) == end_of(consumed, step3, draws, expires_in))
        by {
        lemma_step(
            world,
            Query::ConsumeRecoveryCode { user_id, code_hash: form.code_hash },
            Flow::ConsumingCode { disabling: Some(user_id) },
            Reply::Consumed(true),
            consumed,
            step3,
            draws,
            expires_in,
        );
    }
    assert(end_of(consumed, step3, draws, expires_in) == end_of(begun, step4, draws, expires_in))
        by {
        lemma_step(
            consumed,
            Query::Begin,
            Flow::BeginningDisable { user_id },
            Reply::Done,
            begun,
            step4,
            draws,
            expires_in,
        );
    }
    assert(end_of(begun, step4, draws, expires_in) == end_of(disabled, step5, draws, expires_in))
        by {
        lemma_step(
            begun,
            Query::DisableTotp { user_id },
            Flow::Disabling { user_id },
            Reply::Done,
            disabled,
            step5,
            draws,
            expires_in,
        );
    }
    assert(end_of(disabled, step5, draws, expires_in) == end_of(
        invalidated,
        step6,
        draws,
        expires_in,
    )) by {
        lemma_step(
            disabled,
            Query::InvalidateRecoveryCodes { user_id },
            Flow::InvalidatingCodes,
            Reply::Done,
            invalidated,
            step6,
            draws,
            expires_in,
        );
    }
    assert(end_of(invalidated, step6, draws, expires_in) == end_of(done, then, draws, expires_in))
        by {
        lemma_step(
            invalidated,
            Query::Commit,
            Flow::CommittingDisable,
            Reply::Done,
            done,
            then,
            draws,
            expires_in,
        );
    }
    lemma_done(done, Ok(Success::Disabled), draws, expires_in);
    lemma_end_of_run(world, disable_step(form), draws, expires_in);
}

/// A TOTP code switches the second factor off: the secret and any draft are purged, and no
/// recovery code of the user is left unused.
pub proof fn law_totp_code_disables_the_second_factor(
    world: World,
    form: CodeForm,
    user: UserRow,
    draws: Draws,
    expires_in: u64,
)
    requires
        world.open is None,
        active_user(world.committed, form.user_id) == Some(user),
        user.id == form.user_id,
        user.totp_enabled,
        user.totp_secret is Some,
        !form.is_recovery,
        (draws.code_right)(user.totp_secret->0@, form.code@),
        !world.used.contains((user.id, form.code@)),
    ensures
        run(world, disable_step(form), draws, expires_in) == (
            Ok::<_, Failure>(Success::Disabled),
            World {
                committed: Tables {
                    users: world.committed.users.insert(user.id, unenrolled(user)),
                    codes: codes_invalidated(world.committed.codes, user.id, world.now),
                    ..world.committed
                },
                used: world.used.insert((user.id, form.code@)),
                ..world
            },
        ),
{
    let user_id = user.id;
    let secret = user.totp_secret->0;
    let start = world.committed;
    let off = Tables { users: start.users.insert(user_id, unenrolled(user)), ..start };
    let clear = Tables { codes: codes_invalidated(start.codes, user_id, world.now), ..off };
    let verifying = CodeForm { disabling: Some(user_id), ..form };
    let claimed = World { used: world.used.insert((user_id, form.code@)), ..world };
    let begun = World { open: Some(start), ..claimed };
    let disabled = World { open: Some(off), ..claimed };
    let invalidated = World { open: Some(clear), ..claimed };
    let done = World { committed: clear, ..claimed };
    CodeClaim::lemma_made(draws.code_cache, user_id, form.code, true);
    let step0 = Step::Ask(
        Query::FindUserById { user_id: form.user_id },
        Flow::FindingForDisable(form),
    );
    let step1 = Step::Ask(
        Query::FindUserById { user_id: form.user_id },
        Flow::FindingForCode(verifying),
    );
    let step2 = Step::Ask(
        Query::VerifyTotp { secret, code: form.code },
        Flow::CheckingCode { user_id, code: form.code, disabling: Some(user_id) },
    );
    let step3 = Step::Ask(
        Query::ClaimTotp { user_id, code: form.code },
        Flow::ClaimingCode { disabling: Some(user_id) },
    );
    let step4 = Step::Ask(Query::Begin, Flow::BeginningDisable { user_id });
    let step5 = Step::Ask(Query::DisableTotp { user_id }, Flow::Disabling { user_id });
    let step6 = Step::Ask(Query::InvalidateRecoveryCodes { user_id }, Flow::InvalidatingCodes);
    let step7 = Step::Ask(Query::Commit, Flow::CommittingDisable);
    let then = Step::Done(Ok(Success::Disabled));
    assert(end_of(world, step0, draws, expires_in) == end_of(world, step1, draws, expires_in)) by {
        lemma_step(
            world,
            Query::FindUserById { user_id: form.user_id },
            Flow::FindingForDisable(form),
            Reply::User(Some(user)),
            world,
            step1,
            draws,
            expires_in,
        );
    }
    assert(end_of(world, step1, draws, expires_in) == end_of(world, step2, draws, expires_in)) by {
        lemma_step(
            world,
            Query::FindUserById { user_id: form.user_id },
            Flow::FindingForCode(verifying),
            Reply::User(Some(user)),
            world,
            step2,
            draws,
            expires_in,
        );
    }
    assert(end_of(world, step2, draws, expires_in) == end_of(world, step3, draws, expires_in)) by {
        lemma_step(
            world,
            Query::VerifyTotp { secret, code: form.code },
            Flow::CheckingCode { user_id, code: form.code, disabling: Some(user_id) },
            Reply::Verdict(true),
            world,
            step3,
            draws,
            expires_in,
        );
    }
    assert(end_of(world, step3, draws, expires_in) == end_of(claimed, step4, draws, expires_in))
        by {
        lemma_step(
            world,
            Query::ClaimTotp { user_id, code: form.code },
            Flow::ClaimingCode { disabling: Some(user_id) },
            Reply::Fresh(CodeClaim::made(draws.code_cache, user_id, form.code, true)),
            claimed,
            step4,
            draws,
            expires_in,
        );
    }
    assert(end_of(claimed, step4, draws, expires_in) == end_of(begun, step5, draws, expires_in))
        by {
        lemma_step(
            claimed,
            Query::Begin,
            Flow::BeginningDisable { user_id },
            Reply::Done,
            begun,
            step5,
            draws,
            expires_in,
        );
    }
    assert(end_of(begun, step5, draws, expires_in) == end_of(disabled, step6, draws, expires_in))
        by {
        lemma_step(
            begun,
            Query::DisableTotp { user_id },
            Flow::Disabling { user_id },
            Reply::Done,
            disabled,
            step6,
            draws,
            expires_in,
        );
    }
    assert(end_of(disabled, step6, draws, expires_in) == end_of(
        invalidated,
        step7,
        draws,
        expires_in,
    )) by {
        lemma_step(
            disabled,
            Query::InvalidateRecoveryCodes { user_id },
            Flow::InvalidatingCodes,
            Reply::Done,
            invalidated,
            step7,
            draws,
            expires_in,
        );
    }
    assert(end_of(invalidated, step7, draws, expires_in) == end_of(done, then, draws, expires_in))
        by {
        lemma_step(
            invalidated,
            Query::Commit,
            Flow::CommittingDisable,
            Reply::Done,
            done,
            then,
            draws,
            expires_in,
        );
    }
    lemma_done(done, Ok(Success::Disabled), draws, expires_in);
    lemma_end_of_run(world, disable_step(form), draws, expires_in);
}

/// Without a valid code the second factor stays on: a wrong or used TOTP code and a wrong
/// or used recovery code are refused, and nothing changes.
pub proof fn law_bad_code_disables_nothing(
    world: World,
    form: CodeForm,
    user: UserRow,
    draws: Draws,
    expires_in: u64,
)
    requires
        world.open is None,
        active_user(world.committed, form.user_id) == Some(user),
        user.totp_enabled,
        !is_valid_code(world, form, draws),
    ensures
        run(world, disable_step(form), draws, expires_in) == (
            Err::<Success, _>(Failure::Unauthorized),
            world,
        ),
{
    let verifying = CodeForm { disabling: Some(user.id), ..form };
    lemma_run_step(
        world,
        Query::FindUserById { user_id: form.user_id },
        Flow::FindingForDisable(form),
        Reply::User(Some(user)),
        world,
        draws,
        expires_in,
    );
    assert(!is_valid_code(world, verifying, draws));
    lemma_verification_is_refused(world, verifying, draws, expires_in);
}

} // verus!
