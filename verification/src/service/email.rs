//! Transactional email outbox worker: what becomes of the emails of a batch.

use vstd::arithmetic::power2::{lemma2_to64, lemma_pow2_strictly_increases, lemma_pow2_unfold, pow2};
use vstd::prelude::*;

use crate::email::{email_error_text, EmailError, EmailErrorView};
use crate::service::auth::LAST_TIME;

pub mod laws;

verus! {

/// Default number of emails claimed per batch.
pub const DEFAULT_BATCH_SIZE: i64 = 10;

/// Base backoff (seconds) for the first retry (30s, 60s, 120s ...).
pub const BACKOFF_BASE_SECS: u64 = 30;

/// Maximum retry backoff limit (1 hour).
pub const BACKOFF_MAX_SECS: u64 = 3600;

/// Re-claim a row whose lock is older than this many seconds (crash recovery).
pub const RECLAIM_AFTER_SECS: u64 = 300;

/// A row of the `dpop_email_outbox`.
#[derive(Debug)]
pub struct OutboxEmailRow {
    /// Internal primary key.
    pub id: u128,
    /// Recipient address.
    pub to_address: String,
    /// Email subject.
    pub subject: String,
    /// Email plain-text body.
    pub body: String,
    /// Delivery attempts so far.
    pub attempts: i16,
    /// Maximum delivery attempts before giving up.
    pub max_attempts: i16,
}

/// The backoff after a number of attempts:
/// `min(BACKOFF_BASE_SECS * 2^attempts, BACKOFF_MAX_SECS)`.
pub open spec fn backoff_secs(attempts: i16) -> int {
    let doublings: nat = if attempts > 0 {
        attempts as nat
    } else {
        0
    };
    let backoff = BACKOFF_BASE_SECS * pow2(doublings);
    if backoff < BACKOFF_MAX_SECS {
        backoff as int
    } else {
        BACKOFF_MAX_SECS as int
    }
}

/// Computes exponential backoff in seconds, safely saturated to avoid overflow.
///
/// The formula is `min(BACKOFF_BASE_SECS * 2^attempts, BACKOFF_MAX_SECS)`.
pub fn compute_backoff_secs(attempts: i16) -> (secs: i64)
    ensures
        secs == backoff_secs(attempts),
        BACKOFF_BASE_SECS <= secs <= BACKOFF_MAX_SECS,
{
    let mut backoff: i64 = 30;
    let mut done: i16 = 0;
    proof {
        lemma2_to64();
    }
    while done < attempts && backoff < 3600
        invariant
            0 <= done,
            done == 0 || done <= attempts,
            backoff == 30 * pow2(done as nat),
            30 <= backoff < 7200,
        decreases attempts - done,
    {
        proof {
            lemma_pow2_unfold((done + 1) as nat);
        }
        backoff = backoff * 2;
        done = done + 1;
    }
    proof {
        if done < attempts {
            lemma_pow2_strictly_increases(done as nat, attempts as nat);
        }
    }
    if backoff < 3600 {
        backoff
    } else {
        3600
    }
}

/// What is written to the outbox after an attempt to deliver an email.
pub enum OutboxUpdate {
    /// The email is sent and leaves the queue.
    Sent {
        /// The email.
        id: u128,
    },
    /// The attempt failed; the email is available again later.
    Failed {
        /// The email.
        id: u128,
        /// When it is available again.
        available_at: i64,
        /// Why it failed.
        error: String,
    },
}

/// When an email is available again after a failed attempt, if that is a time.
pub open spec fn retry_time(attempts: i16, now: i64) -> Option<i64> {
    let at = now + backoff_secs(attempts) * 1_000_000;
    if at <= LAST_TIME {
        Some(at as i64)
    } else {
        None
    }
}

/// Whether an update is what an attempt to deliver an email leads to.
pub open spec fn is_update(
    row: OutboxEmailRow,
    result: Result<(), EmailError>,
    now: i64,
    update: Option<OutboxUpdate>,
) -> bool {
    match result {
        Ok(()) => update == Some(OutboxUpdate::Sent { id: row.id }),
        Err(error) => match retry_time(row.attempts, now) {
            None => update is None,
            Some(at) => update matches Some(OutboxUpdate::Failed { id, available_at, error: text })
                && id == row.id && available_at == at && text@ == email_error_text(error@),
        },
    }
}

/// Decides what is written to the outbox after an attempt to deliver an email at the time
/// `now`: nothing where the time of the retry cannot be expressed.
pub fn conclude_delivery(row: &OutboxEmailRow, result: Result<(), EmailError>, now: i64) -> (update:
    Option<OutboxUpdate>)
    ensures
        is_update(*row, result, now, update),
{
    match result {
        Ok(()) => Some(OutboxUpdate::Sent { id: row.id }),
        Err(error) => {
            let at: i128 = now as i128 + compute_backoff_secs(row.attempts) as i128 * 1_000_000;
            if at <= LAST_TIME as i128 {
                Some(
                    OutboxUpdate::Failed {
                        id: row.id,
                        available_at: at as i64,
                        error: error.to_string(),
                    },
                )
            } else {
                None
            }
        },
    }
}

/// The emails of a claimed batch that are still to be delivered, the next one last.
pub struct Batch {
    waiting: Vec<OutboxEmailRow>,
}

impl View for Batch {
    type V = Seq<OutboxEmailRow>;

    /// The emails in the order in which they are delivered.
    closed spec fn view(&self) -> Seq<OutboxEmailRow> {
        self.waiting@.reverse()
    }
}

impl Batch {
    /// A claimed batch.
    pub fn new(claimed: Vec<OutboxEmailRow>) -> (batch: Batch)
        ensures
            batch@ == claimed@,
    {
        let mut claimed = claimed;
        let ghost all = claimed@;
        let mut waiting: Vec<OutboxEmailRow> = Vec::new();
        while claimed.len() > 0
            invariant
                claimed@.len() + waiting@.len() == all.len(),
                claimed@ =~= all.take(claimed@.len() as int),
                waiting@ =~= all.skip(claimed@.len() as int).reverse(),
            decreases claimed@.len(),
        {
            if let Some(row) = claimed.pop() {
                waiting.push(row);
            }
        }
        assert(waiting@.reverse() =~= all);
        Batch { waiting }
    }

    /// The next email of the batch: each one is delivered once, in the order of the batch.
    pub fn next_email(&mut self) -> (row: Option<OutboxEmailRow>)
        ensures
            match row {
                Some(row) => old(self)@.len() > 0 && row == old(self)@[0] && final(self)@ == old(
                    self,
                )@.skip(1),
                None => old(self)@.len() == 0 && final(self)@ == old(self)@,
            },
    {
        let row = self.waiting.pop();
        proof {
            if row is Some {
                assert(self@ =~= old(self)@.skip(1));
            }
        }
        row
    }
}

/// A failed attempt never makes an email available at once.
pub proof fn law_retry_is_later(attempts: i16, now: i64)
    ensures
        retry_time(attempts, now) matches Some(at) ==> at >= now + 30_000_000,
{
    lemma_backoff_bounds(attempts);
}

/// The backoff lies between its base and its maximum.
proof fn lemma_backoff_bounds(attempts: i16)
    ensures
        30 <= backoff_secs(attempts) <= 3600,
{
    lemma2_to64();
    if attempts > 0 {
        lemma_pow2_strictly_increases(0, attempts as nat);
    }
}

/// The backoff never shrinks from one attempt to the next.
pub proof fn law_backoff_never_shrinks(attempts: i16)
    requires
        attempts < i16::MAX,
    ensures
        backoff_secs(attempts) <= backoff_secs((attempts + 1) as i16),
{
    lemma2_to64();
    if attempts >= 0 {
        lemma_pow2_strictly_increases(attempts as nat, (attempts + 1) as nat);
    }
}

/// A question of the worker.
pub enum BatchQuery {
    /// Claim pending emails, at most as many as the batch size.
    Claim { batch_size: i64 },
    /// Deliver an email.
    Send { to: String, subject: String, body: String },
    /// Write what became of an email.
    Write(OutboxUpdate),
}

/// The answer to a [`BatchQuery`].
pub enum BatchReply {
    /// The claimed emails.
    Claimed(Vec<OutboxEmailRow>),
    /// Whether the email was delivered.
    Sent(Result<(), EmailError>),
    /// The statement was executed.
    Done,
    /// The store failed.
    Failed { message: String },
}

/// A stage of a batch: what it waits for, and what it knows.
pub enum BatchStage {
    /// Waits for the claimed emails.
    Claiming,
    /// Waits for the delivery of an email.
    Sending { batch: Batch, row: OutboxEmailRow },
    /// Waits for the outcome of an email to be written.
    Writing { batch: Batch },
}

/// What comes next.
pub enum BatchStep {
    /// A query, and the stage that waits for its reply.
    Ask(BatchQuery, BatchStage),
    /// The result.
    Done(Result<(), EmailError>),
    /// Nothing: the time of a retry cannot be expressed.
    OutOfRange,
}

/// Whether a step goes on to the next of the emails that are still to be delivered, or is
/// done where there is none.
pub open spec fn goes_on(waiting: Seq<OutboxEmailRow>, step: BatchStep) -> bool {
    if waiting.len() == 0 {
        step == BatchStep::Done(Ok(()))
    } else {
        step matches BatchStep::Ask(query, stage) && {
            &&& query == BatchQuery::Send {
                to: waiting[0].to_address,
                subject: waiting[0].subject,
                body: waiting[0].body,
            }
            &&& stage matches BatchStage::Sending { batch, row } && row == waiting[0] && batch@
                == waiting.skip(1)
        }
    }
}

/// Whether a step ends the batch with an internal error.
pub open spec fn ends_with(step: BatchStep, message: Seq<char>) -> bool {
    step matches BatchStep::Done(Err(error)) && error@ == EmailErrorView::Internal(message)
}

/// Whether a step is the one from a stage and a reply at the time `now`.
pub open spec fn is_batch_step(
    stage: BatchStage,
    reply: BatchReply,
    now: i64,
    step: BatchStep,
) -> bool {
    match (stage, reply) {
        (BatchStage::Claiming, BatchReply::Claimed(rows)) => goes_on(rows@, step),
        (BatchStage::Sending { batch, row }, BatchReply::Sent(result)) => match step {
            BatchStep::Ask(BatchQuery::Write(update), BatchStage::Writing { batch: rest }) =>
                is_update(row, result, now, Some(update)) && rest@ == batch@,
            BatchStep::OutOfRange => is_update(row, result, now, None),
            _ => false,
        },
        (BatchStage::Writing { batch }, BatchReply::Done) => goes_on(batch@, step),
        (_, BatchReply::Failed { message }) => ends_with(step, message@),
        _ => ends_with(step, "the reply answers another query"@),
    }
}

/// Goes on to the next email of a batch.
fn deliver_next(batch: Batch) -> (step: BatchStep)
    ensures
        goes_on(batch@, step),
{
    let mut batch = batch;
    match batch.next_email() {
        Some(row) => BatchStep::Ask(
            BatchQuery::Send {
                to: row.to_address.clone(),
                subject: row.subject.clone(),
                body: row.body.clone(),
            },
            BatchStage::Sending { batch, row },
        ),
        None => BatchStep::Done(Ok(())),
    }
}

/// Claims a single batch of emails and attempts delivery for each
/// item sequentially.
///
/// * Successful deliveries update `sent_at` and unlock the row.
/// * Failed deliveries compute an exponential backoff delay and
///   reschedule `available_at`.
///
/// # Errors
///
/// Ends with [`EmailError`] if acquiring a pool connection or executing database
/// operations fails.
pub fn process_batch(batch_size: i64) -> (step: BatchStep)
    ensures
        step == BatchStep::Ask(BatchQuery::Claim { batch_size }, BatchStage::Claiming),
{
    BatchStep::Ask(BatchQuery::Claim { batch_size }, BatchStage::Claiming)
}

/// Takes the step of a batch from a stage and a reply at the time `now`.
pub fn advance_batch(stage: BatchStage, reply: BatchReply, now: i64) -> (step: BatchStep)
    ensures
        is_batch_step(stage, reply, now, step),
{
    match (stage, reply) {
        (BatchStage::Claiming, BatchReply::Claimed(rows)) => deliver_next(Batch::new(rows)),
        (BatchStage::Sending { batch, row }, BatchReply::Sent(result)) => {
            match conclude_delivery(&row, result, now) {
                Some(update) => BatchStep::Ask(
                    BatchQuery::Write(update),
                    BatchStage::Writing { batch },
                ),
                None => BatchStep::OutOfRange,
            }
        },
        (BatchStage::Writing { batch }, BatchReply::Done) => deliver_next(batch),
        (_, BatchReply::Failed { message }) => BatchStep::Done(Err(EmailError::Internal(message))),
        _ => BatchStep::Done(
            Err(EmailError::Internal("the reply answers another query".to_owned())),
        ),
    }
}

/// The emails that a stage still has to deliver, the one that it waits for counted in.
pub open spec fn emails_left(stage: BatchStage) -> int {
    match stage {
        BatchStage::Claiming => 0,
        BatchStage::Sending { batch, row } => batch@.len() + 1int,
        BatchStage::Writing { batch } => batch@.len() as int,
    }
}

/// Every batch ends: a delivery leaves one email less, and writing its outcome does not
/// bring one back.
pub proof fn law_batch_ends(stage: BatchStage, reply: BatchReply, now: i64, step: BatchStep)
    requires
        is_batch_step(stage, reply, now, step),
        !(stage is Claiming),
    ensures
        step matches BatchStep::Ask(query, later) ==> {
            &&& stage is Sending ==> query is Write && emails_left(later) == emails_left(stage) - 1
            &&& stage is Writing ==> query is Send && emails_left(later) == emails_left(stage)
        },
{
}

} // verus!
