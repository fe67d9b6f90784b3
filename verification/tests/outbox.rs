use dpop_auth::email::{ComposedEmail, SentEmail};
use dpop_auth::service::email::{
    advance_batch, compute_backoff_secs, conclude_delivery, process_batch, Batch, BatchQuery,
    BatchReply, BatchStep, OutboxEmailRow, OutboxUpdate, DEFAULT_BATCH_SIZE,
};
use dpop_auth::{
    EmailError, EmailSender, LogEmailSender, SmtpConfig, SmtpEmailSender, StubEmailSender,
};

struct FailingSender;

impl EmailSender for FailingSender {
    fn send(&mut self, _to: &str, _subject: &str, _body: &str) -> Result<(), EmailError> {
        Err(EmailError::Send("smtp down".into()))
    }
}

/// A row of the outbox as the store keeps it.
struct StoredEmail {
    id: u128,
    to_address: String,
    attempts: i16,
    max_attempts: i16,
    available_at: i64,
    locked: bool,
    sent: bool,
    last_error: Option<String>,
}

fn stored(id: u128, to: &str, max_attempts: i16) -> StoredEmail {
    StoredEmail {
        id,
        to_address: to.to_string(),
        attempts: 0,
        max_attempts,
        available_at: 0,
        locked: false,
        sent: false,
        last_error: None,
    }
}

fn row(stored: &StoredEmail) -> OutboxEmailRow {
    OutboxEmailRow {
        id: stored.id,
        to_address: stored.to_address.clone(),
        subject: "Subject".to_string(),
        body: "Body".to_string(),
        attempts: stored.attempts,
        max_attempts: stored.max_attempts,
    }
}

/// Runs one batch against an outbox.
fn run(
    outbox: &mut Vec<StoredEmail>,
    sender: &mut impl EmailSender,
    now: i64,
) -> Result<(), EmailError> {
    let mut step = process_batch(DEFAULT_BATCH_SIZE);
    loop {
        let (query, stage) = match step {
            BatchStep::Ask(query, stage) => (query, stage),
            BatchStep::Done(result) => return result,
            BatchStep::OutOfRange => panic!("the retry cannot be expressed"),
        };
        let reply = match query {
            BatchQuery::Claim { batch_size } => {
                let mut claimed = Vec::new();
                for email in outbox.iter_mut() {
                    if (claimed.len() as i64) < batch_size
                        && !email.sent
                        && !email.locked
                        && email.attempts < email.max_attempts
                        && email.available_at <= now
                    {
                        email.locked = true;
                        claimed.push(row(email));
                    }
                }
                BatchReply::Claimed(claimed)
            }
            BatchQuery::Send { to, subject, body } => {
                BatchReply::Sent(sender.send(&to, &subject, &body))
            }
            BatchQuery::Write(update) => {
                match update {
                    OutboxUpdate::Sent { id } => {
                        let email = outbox.iter_mut().find(|email| email.id == id).unwrap();
                        email.sent = true;
                        email.locked = false;
                    }
                    OutboxUpdate::Failed { id, available_at, error } => {
                        let email = outbox.iter_mut().find(|email| email.id == id).unwrap();
                        email.attempts += 1;
                        email.available_at = available_at;
                        email.last_error = Some(error);
                        email.locked = false;
                    }
                }
                BatchReply::Done
            }
        };
        step = advance_batch(stage, reply, now);
    }
}

#[test]
fn worker_failure_backs_off() {
    let mut outbox = vec![stored(1, "a@b.c", 5)];
    run(&mut outbox, &mut FailingSender, 1_000).unwrap();

    assert_eq!(outbox[0].attempts, 1);
    assert!(!outbox[0].sent);
    assert!(!outbox[0].locked);
    assert_eq!(
        outbox[0].last_error.as_deref(),
        Some("failed to send email: smtp down")
    );
    assert_eq!(outbox[0].available_at, 30_001_000, "next retry is in the future");
}

#[test]
fn worker_skips_not_available() {
    let mut outbox = vec![stored(1, "a@b.c", 5)];
    run(&mut outbox, &mut FailingSender, 1_000).unwrap();
    run(&mut outbox, &mut FailingSender, 1_000).unwrap();

    assert_eq!(outbox[0].attempts, 1, "backoff must prevent immediate re-claim");
    run(&mut outbox, &mut FailingSender, 30_001_000).unwrap();
    assert_eq!(outbox[0].attempts, 2);
    assert_eq!(outbox[0].available_at, 90_001_000);
}

#[test]
fn worker_respects_max_attempts() {
    let mut outbox = vec![stored(1, "a@b.c", 1)];
    run(&mut outbox, &mut FailingSender, 0).unwrap();

    assert_eq!(outbox[0].attempts, 1, "attempts reaches max_attempts");
    assert!(!outbox[0].sent);
    run(&mut outbox, &mut FailingSender, 1_000_000_000).unwrap();
    assert_eq!(outbox[0].attempts, 1);
}

#[test]
fn each_email_of_a_batch_is_sent_once_in_order() {
    let mut outbox = vec![stored(1, "a@b.c", 5), stored(2, "d@e.f", 5), stored(3, "g@h.i", 5)];
    let mut stub = StubEmailSender::new();
    run(&mut outbox, &mut stub, 0).unwrap();
    run(&mut outbox, &mut stub, 0).unwrap();

    let recipients: Vec<String> = stub.messages().into_iter().map(|email| email.to).collect();
    assert_eq!(recipients, vec!["a@b.c", "d@e.f", "g@h.i"]);
    assert!(outbox.iter().all(|email| email.sent && !email.locked));
}

#[test]
fn a_failing_store_ends_the_batch() {
    let failed = || BatchReply::Failed { message: "db down".to_string() };
    match process_batch(10) {
        BatchStep::Ask(BatchQuery::Claim { batch_size: 10 }, stage) => {
            assert!(matches!(
                advance_batch(stage, failed(), 0),
                BatchStep::Done(Err(EmailError::Internal(text))) if text == "db down"
            ));
        }
        _ => panic!("expected a claim"),
    }
    match process_batch(10) {
        BatchStep::Ask(_, stage) => assert!(matches!(
            advance_batch(stage, BatchReply::Done, 0),
            BatchStep::Done(Err(EmailError::Internal(_)))
        )),
        _ => panic!("expected a claim"),
    }
}

#[test]
fn backoff_doubles_up_to_an_hour() {
    let expected = vec![30, 60, 120, 240, 480, 960, 1920, 3600, 3600];
    for (attempts, secs) in expected.into_iter().enumerate() {
        assert_eq!(compute_backoff_secs(attempts as i16), secs);
    }
    assert_eq!(compute_backoff_secs(i16::MAX), 3600);
    assert_eq!(compute_backoff_secs(-1), 30);
    assert_eq!(compute_backoff_secs(i16::MIN), 30);
}

#[test]
fn deliveries_are_concluded() {
    let email = row(&stored(7, "a@b.c", 5));
    assert!(matches!(
        conclude_delivery(&email, Ok(()), 0),
        Some(OutboxUpdate::Sent { id: 7 })
    ));
    assert!(matches!(
        conclude_delivery(&email, Err(EmailError::Build("x".to_string())), 5),
        Some(OutboxUpdate::Failed { id: 7, available_at: 30_000_005, error })
            if error == "failed to build email: x"
    ));
    assert!(conclude_delivery(&email, Err(EmailError::Build("x".to_string())), i64::MAX).is_none());
}

#[test]
fn a_batch_hands_out_its_emails_in_order() {
    let mut batch = Batch::new(vec![row(&stored(1, "a", 1)), row(&stored(2, "b", 1))]);
    assert_eq!(batch.next_email().unwrap().id, 1);
    assert_eq!(batch.next_email().unwrap().id, 2);
    assert!(batch.next_email().is_none());
}

#[test]
fn stub_and_log_senders_accept_email() {
    let mut stub = StubEmailSender::default();
    assert_eq!(stub.count(), 0);
    stub.send("a@b.c", "Hello", "Body").unwrap();
    assert_eq!(stub.count(), 1);
    assert_eq!(
        stub.messages(),
        vec![SentEmail {
            to: "a@b.c".to_string(),
            subject: "Hello".to_string(),
            body: "Body".to_string(),
        }]
    );
    stub.clear();
    assert_eq!(stub.count(), 0);
    assert!(LogEmailSender.send("a@b.c", "Hello", "Body").is_ok());
}

fn smtp(from_name: &str, from_email: &str, starttls: bool) -> SmtpConfig {
    SmtpConfig {
        host: "smtp.example.com".to_string(),
        port: 587,
        username: Some("user".to_string()),
        password: Some("pass".to_string()),
        from_name: from_name.to_string(),
        from_email: from_email.to_string(),
        starttls,
    }
}

#[test]
fn smtp_senders_are_prepared() {
    let sender = SmtpEmailSender::from_config(&smtp("Example", "no-reply@example.com", false))
        .unwrap_or_else(|error| panic!("{}", error.to_string()));
    assert_eq!(sender.from.name.as_deref(), Some("Example"));
    assert_eq!(sender.from.email, "no-reply@example.com");
    assert_eq!(sender.host, "smtp.example.com");
    assert_eq!(sender.port, 587);
    assert!(!sender.starttls);
    assert_eq!(sender.credentials, Some(("user".to_string(), "pass".to_string())));

    let sender =
        SmtpEmailSender::with_relay(&smtp("", "John <john@example.com>", true), Ok(())).ok();
    let sender = sender.unwrap();
    assert_eq!(sender.from.name.as_deref(), Some("John"));
    assert_eq!(sender.from.email, "john@example.com");
    assert!(sender.starttls);

    let mut anonymous = smtp("Example", "no-reply@example.com", false);
    anonymous.password = None;
    assert_eq!(SmtpEmailSender::from_config(&anonymous).ok().unwrap().credentials, None);
}

#[test]
fn bad_smtp_settings_are_refused() {
    assert!(matches!(
        SmtpEmailSender::from_config(&smtp("Example", "no address", false)),
        Err(EmailError::Build(_))
    ));
    assert!(matches!(
        SmtpEmailSender::from_config(&smtp("", "no address", false)),
        Err(EmailError::Build(_))
    ));
    assert!(matches!(
        SmtpEmailSender::with_relay(
            &smtp("Example", "no-reply@example.com", true),
            Err("no certificates".to_string()),
        ),
        Err(EmailError::Build(text)) if text == "invalid SMTP relay host: no certificates"
    ));
    assert!(SmtpEmailSender::with_relay(
        &smtp("Example", "no-reply@example.com", false),
        Err("no certificates".to_string()),
    )
    .is_ok());
}

#[test]
fn a_secure_connection_is_prepared() {
    let sender = SmtpEmailSender::from_config(&smtp("Example", "no-reply@example.com", true))
        .ok()
        .unwrap();
    assert!(sender.starttls);
}

#[test]
fn emails_are_composed() {
    let sender = SmtpEmailSender::from_config(&smtp("Example", "no-reply@example.com", false))
        .ok()
        .unwrap();
    let ComposedEmail { from, to, bytes } =
        sender.compose("John <john@example.com>", "Hello", "Body", 1_700_000_000).unwrap();
    assert_eq!(from, "no-reply@example.com");
    assert_eq!(to, "john@example.com");
    let text = String::from_utf8(bytes).unwrap();
    assert!(text.contains("From: Example <no-reply@example.com>\r\n"));
    assert!(text.contains("To: John <john@example.com>\r\n"));
    assert!(text.contains("Subject: Hello\r\n"));
    assert!(text.contains("Content-Type: text/plain"));
    assert!(text.contains("Date: Tue, 14 Nov 2023 22:13:20 +0000\r\n"));
    assert!(text.ends_with("\r\n\r\nBody"));

    assert!(matches!(
        sender.compose("no address", "Hello", "Body", 0),
        Err(EmailError::Build(_))
    ));
}
