//! What holds of a whole batch: which emails are sent, and what is written of each.

use vstd::arithmetic::power2::pow2;
use vstd::prelude::*;

use crate::email::{EmailError, EmailErrorView};
use crate::service::email::{
    compute_backoff_secs, is_batch_step, is_update, BatchQuery, BatchReply, BatchStage, BatchStep,
    OutboxEmailRow, OutboxUpdate,
};

verus! {

/// An email that is handed to the sender.
#[verifier::ext_equal]
pub struct Handed {
    pub to: Seq<char>,
    pub subject: Seq<char>,
    pub body: Seq<char>,
}

/// Whether a batch goes from one step to the next when it gets a reply at a time.
pub open spec fn is_turn(step: BatchStep, reply: BatchReply, now: i64, then: BatchStep) -> bool {
    step matches BatchStep::Ask(_, stage) && is_batch_step(stage, reply, now, then)
}

/// Whether some steps are those of a batch from its start on, which gets the replies one
/// after another at the times.
pub open spec fn is_batch_run(
    batch_size: i64,
    steps: Seq<BatchStep>,
    replies: Seq<BatchReply>,
    times: Seq<i64>,
) -> bool {
    &&& steps.len() == replies.len() + 1
    &&& times.len() == replies.len()
    &&& steps[0] == BatchStep::Ask(BatchQuery::Claim { batch_size }, BatchStage::Claiming)
    &&& forall|k: int|
        0 <= k < replies.len() ==> is_turn(
            #[trigger] steps[k],
            replies[k],
            times[k],
            steps[k + 1],
        )
}

/// The emails that some steps hand to the sender, in their order.
pub open spec fn handed(steps: Seq<BatchStep>) -> Seq<Handed>
    decreases steps.len(),
{
    if steps.len() == 0 {
        seq![]
    } else {
        match steps.last() {
            BatchStep::Ask(BatchQuery::Send { to, subject, body }, _) => handed(
                steps.drop_last(),
            ).push(Handed { to: to@, subject: subject@, body: body@ }),
            _ => handed(steps.drop_last()),
        }
    }
}

/// The updates that some steps write, in their order.
pub open spec fn written(steps: Seq<BatchStep>) -> Seq<OutboxUpdate>
    decreases steps.len(),
{
    if steps.len() == 0 {
        seq![]
    } else {
        match steps.last() {
            BatchStep::Ask(BatchQuery::Write(update), _) => written(steps.drop_last()).push(update),
            _ => written(steps.drop_last()),
        }
    }
}

/// The row that an update is about.
pub open spec fn row_of(update: OutboxUpdate) -> u128 {
    match update {
        OutboxUpdate::Sent { id } => id,
        OutboxUpdate::Failed { id, .. } => id,
    }
}

/// Whether the emails handed on so far are those of the first rows, each with the address,
/// the subject and the body of its row.
spec fn are_first(rows: Seq<OutboxEmailRow>, emails: Seq<Handed>) -> bool {
    &&& emails.len() <= rows.len()
    &&& forall|i: int|
        0 <= i < emails.len() ==> {
            &&& (#[trigger] emails[i]).to == rows[i].to_address@
            &&& emails[i].subject == rows[i].subject@
            &&& emails[i].body == rows[i].body@
        }
}

/// Whether a step stands where so many emails are handed on and so many updates written.
spec fn stands_at(step: BatchStep, rows: Seq<OutboxEmailRow>, sent: nat, updates: nat) -> bool {
    match step {
        BatchStep::Ask(query, BatchStage::Sending { batch, row }) => {
            &&& query is Send
            &&& 0 < sent <= rows.len()
            &&& row == rows[sent - 1]
            &&& batch@ == rows.skip(sent as int)
            &&& updates == sent - 1
        },
        BatchStep::Ask(query, BatchStage::Writing { batch }) => {
            &&& query is Write
            &&& sent <= rows.len()
            &&& batch@ == rows.skip(sent as int)
            &&& updates == sent
        },
        BatchStep::Ask(_, BatchStage::Claiming) => false,
        BatchStep::Done(Ok(())) => sent == rows.len() && updates == sent,
        _ => updates <= sent,
    }
}

/// A run stands where its steps have brought it.
#[verifier::rlimit(40)]
proof fn lemma_run(
    batch_size: i64,
    steps: Seq<BatchStep>,
    replies: Seq<BatchReply>,
    times: Seq<i64>,
    rows: Seq<OutboxEmailRow>,
    k: int,
)
    requires
        is_batch_run(batch_size, steps, replies, times),
        replies.len() > 0,
        replies[0] matches BatchReply::Claimed(claimed) && claimed@ == rows,
        1 <= k < steps.len(),
    ensures
        are_first(rows, handed(steps.take(k + 1))),
        stands_at(
            steps[k],
            rows,
            handed(steps.take(k + 1)).len(),
            written(steps.take(k + 1)).len(),
        ),
        forall|i: int|
            0 <= i < written(steps.take(k + 1)).len() ==> row_of(
                #[trigger] written(steps.take(k + 1))[i],
            ) == rows[i].id,
    decreases k,
{
    let upto = steps.take(k + 1);
    assert(upto.last() == steps[k]);
    assert(upto.drop_last() =~= steps.take(k));
    assert(is_turn(steps[k - 1], replies[k - 1], times[k - 1], steps[k - 1 + 1]));
    if k == 1 {
        assert(steps.take(1).last() == steps[0]);
        assert(steps.take(1).drop_last().len() == 0);
        reveal_with_fuel(handed, 2);
        reveal_with_fuel(written, 2);
        assert(handed(steps.take(1)) =~= seq![]);
        assert(written(steps.take(1)) =~= seq![]);
        assert(rows.skip(0) =~= rows);
    } else {
        lemma_run(batch_size, steps, replies, times, rows, k - 1);
        let before = handed(steps.take(k));
        assert(steps.take(k - 1 + 1) == steps.take(k));
        if before.len() < rows.len() {
            let rest = rows.skip(before.len() as int);
            assert(rest[0] == rows[before.len() as int]);
            assert(rest.skip(1) =~= rows.skip(before.len() as int + 1));
        }
    }
}

/// Over a whole batch, the emails that are sent are those of the claimed rows in their
/// order, each to the address of its row, with the subject and the body of its row. None is
/// sent twice, none is left out by a batch that ends well, and after each delivery the
/// outcome is written to the row of that email.
pub proof fn law_batch_sends_the_rows_in_order(
    batch_size: i64,
    steps: Seq<BatchStep>,
    replies: Seq<BatchReply>,
    times: Seq<i64>,
    rows: Vec<OutboxEmailRow>,
)
    requires
        is_batch_run(batch_size, steps, replies, times),
        replies.len() > 0,
        replies[0] == BatchReply::Claimed(rows),
    ensures
        handed(steps).len() <= rows@.len(),
        forall|i: int|
            0 <= i < handed(steps).len() ==> {
                &&& (#[trigger] handed(steps)[i]).to == rows@[i].to_address@
                &&& handed(steps)[i].subject == rows@[i].subject@
                &&& handed(steps)[i].body == rows@[i].body@
            },
        written(steps).len() <= handed(steps).len(),
        handed(steps).len() <= written(steps).len() + 1,
        forall|i: int|
            0 <= i < written(steps).len() ==> row_of(#[trigger] written(steps)[i]) == rows@[i].id,
        steps.last() == BatchStep::Done(Ok(())) ==> handed(steps).len() == rows@.len()
            && written(steps).len() == rows@.len(),
{
    let last = steps.len() - 1;
    lemma_run(batch_size, steps, replies, times, rows@, last);
    assert(steps.take(last + 1) =~= steps);
    lemma_written_follows(batch_size, steps, replies, times, rows@, last);
}

/// At most one email is on its way whose outcome is not written.
proof fn lemma_written_follows(
    batch_size: i64,
    steps: Seq<BatchStep>,
    replies: Seq<BatchReply>,
    times: Seq<i64>,
    rows: Seq<OutboxEmailRow>,
    k: int,
)
    requires
        is_batch_run(batch_size, steps, replies, times),
        replies.len() > 0,
        replies[0] matches BatchReply::Claimed(claimed) && claimed@ == rows,
        1 <= k < steps.len(),
    ensures
        handed(steps.take(k + 1)).len() <= written(steps.take(k + 1)).len() + 1,
{
    lemma_run(batch_size, steps, replies, times, rows, k);
    let upto = steps.take(k + 1);
    assert(upto.last() == steps[k]);
    assert(upto.drop_last() =~= steps.take(k));
    if k > 1 {
        lemma_run(batch_size, steps, replies, times, rows, k - 1);
        assert(steps.take(k - 1 + 1) == steps.take(k));
        assert(is_turn(steps[k - 1], replies[k - 1], times[k - 1], steps[k - 1 + 1]));
    } else {
        assert(steps.take(1).last() == steps[0]);
        assert(steps.take(1).drop_last().len() == 0);
        reveal_with_fuel(handed, 3);
    }
}

/// What is written of an email: that it is sent, if it was delivered. If not, when it is
/// tried again, which is 30 seconds later for the first attempt, twice as long after each
/// further one, and never more than an hour; and why.
pub proof fn law_outcome_of_a_delivery_is_written(
    row: OutboxEmailRow,
    error: EmailError,
    now: i64,
    delivered: Option<OutboxUpdate>,
    failed: Option<OutboxUpdate>,
)
    requires
        is_update(row, Ok(()), now, delivered),
        is_update(row, Err(error), now, failed),
        row.attempts >= 0,
    ensures
        delivered == Some(OutboxUpdate::Sent { id: row.id }),
        failed is Some && failed->0 is Failed ==> {
            let secs = 30 * pow2(row.attempts as nat);
            let wait = if secs < 3600 {
                secs as int
            } else {
                3600
            };
            &&& failed->0->Failed_id == row.id
            &&& failed->0->Failed_available_at == now + wait * 1_000_000
            &&& failed->0->Failed_error@ == match error@ {
                EmailErrorView::Build(text) => "failed to build email: "@ + text,
                EmailErrorView::Send(text) => "failed to send email: "@ + text,
                EmailErrorView::Internal(text) => "internal error: "@ + text,
            }
        },
        failed is Some ==> failed->0 is Failed,
        failed is None ==> now + 3600 * 1_000_000 > 8_210_266_876_799_999_999,
{
    assert(0 <= crate::service::email::backoff_secs(row.attempts) <= 3600) by {
        vstd::arithmetic::power2::lemma2_to64();
    }
}

/// A batch that has nothing to deliver ends well at once, and a store that fails ends it
/// with that failure.
pub proof fn law_batch_ends_as_the_store_says(
    rows: Vec<OutboxEmailRow>,
    message: String,
    stage: BatchStage,
    now: i64,
    step: BatchStep,
)
    ensures
        rows@.len() == 0 && is_batch_step(
            BatchStage::Claiming,
            BatchReply::Claimed(rows),
            now,
            step,
        ) ==> step == BatchStep::Done(Ok(())),
        is_batch_step(stage, BatchReply::Failed { message }, now, step) ==> (step
            matches BatchStep::Done(Err(error)) && error@ == EmailErrorView::Internal(message@)),
{
}

/// How long a failed email waits: 30 seconds, twice as long after each attempt, and at most
/// an hour.
pub proof fn law_backoff_doubles_up_to_an_hour(attempts: i16, secs: i64)
    requires
        call_ensures(compute_backoff_secs, (attempts,), secs),
    ensures
        attempts >= 0 && 30 * pow2(attempts as nat) < 3600 ==> secs == 30 * pow2(attempts as nat),
        attempts >= 0 && 30 * pow2(attempts as nat) >= 3600 ==> secs == 3600,
        attempts < 0 ==> secs == 30,
{
    vstd::arithmetic::power2::lemma2_to64();
}

} // verus!
