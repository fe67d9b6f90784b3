//! Email delivery abstraction.

use lettre::message::header::ContentType;
use lettre::message::Mailbox;
use vstd::prelude::*;

pub mod laws;
pub mod relay;

use crate::email::relay::{check_relay, relay_view, RelayCheck};
use crate::text::{joined, optional, outcome};

verus! {

/// Errors raised while building or sending an email.
#[derive(Debug, Clone, PartialEq, Eq)]
#[non_exhaustive]
pub enum EmailError {
    /// The email could not be built (bad address or headers).
    Build(String),
    /// The email could not be send over the transport.
    Send(String),
    /// An internal error occurred.
    Internal(String),
}

/// An [`EmailError`] with its texts as character sequences.
#[verifier::ext_equal]
pub enum EmailErrorView {
    Build(Seq<char>),
    Send(Seq<char>),
    Internal(Seq<char>),
}

impl View for EmailError {
    type V = EmailErrorView;

    open spec fn view(&self) -> EmailErrorView {
        match *self {
            EmailError::Build(text) => EmailErrorView::Build(text@),
            EmailError::Send(text) => EmailErrorView::Send(text@),
            EmailError::Internal(text) => EmailErrorView::Internal(text@),
        }
    }
}

/// The message of an error.
pub open spec fn email_error_text(error: EmailErrorView) -> Seq<char> {
    match error {
        EmailErrorView::Build(text) => "failed to build email: "@ + text,
        EmailErrorView::Send(text) => "failed to send email: "@ + text,
        EmailErrorView::Internal(text) => "internal error: "@ + text,
    }
}

impl EmailError {
    /// The message of the error.
    pub fn to_string(&self) -> (text: String)
        ensures
            text@ == email_error_text(self@),
    {
        match self {
            EmailError::Build(text) => joined("failed to build email: ", text),
            EmailError::Send(text) => joined("failed to send email: ", text),
            EmailError::Internal(text) => joined("internal error: ", text),
        }
    }
}

/// An email sender.
///
/// The library never depends on a concrete transport. Applications typically use:
///
/// * **[`SmtpEmailSender`]** - In production.
/// * **[`LogEmailSender`]** - In development.
/// * **[`StubEmailSender`]** - In tests.
/// * A custom implementation tailored to specific infrastructure.
pub trait EmailSender {
    /// Send a plain-text email.
    fn send(&mut self, to: &str, subject: &str, body: &str) -> Result<(), EmailError>;
}

/// SMTP connection settings for [`SmtpEmailSender`].
#[derive(Clone)]
pub struct SmtpConfig {
    /// SMTP server host.
    pub host: String,
    /// SMTP server port (587 for STARTTLS, 25/1025 for plain relay).
    pub port: u16,
    /// Optional SMTP username.
    pub username: Option<String>,
    /// Optional SMTP password.
    pub password: Option<String>,
    /// Sender display name.
    pub from_name: String,
    /// Sender email address.
    pub from_email: String,
    /// Whether to use STARTTLS.
    pub starttls: bool,
}

/// An email address with the name of its owner.
#[derive(Debug, Clone, PartialEq, Eq)]
pub struct MailAddress {
    /// The name, if there is one.
    pub name: Option<String>,
    /// The email address.
    pub email: String,
}

/// A [`MailAddress`] with its texts as character sequences.
#[verifier::ext_equal]
pub struct MailAddressView {
    pub name: Option<Seq<char>>,
    pub email: Seq<char>,
}

impl View for MailAddress {
    type V = MailAddressView;

    open spec fn view(&self) -> MailAddressView {
        MailAddressView { name: optional(self.name), email: self.email@ }
    }
}

/// The mailbox that [`lettre::message::Mailbox`] reads from a text, or its error message.
pub uninterp spec fn mailbox_in(text: Seq<char>) -> Result<MailAddressView, Seq<char>>;

/// What [`lettre::Address`] says of a text that is no address.
pub uninterp spec fn address_fault(text: Seq<char>) -> Option<Seq<char>>;

/// The first second since the Unix epoch that is no date of an email: the year 10000.
pub const DATES_END: u64 = 253_402_300_800;

/// An email that is ready to be sent.
#[derive(Debug, Clone, PartialEq, Eq)]
pub struct ComposedEmail {
    /// The address that the email is sent from.
    pub from: String,
    /// The address that the email is sent to.
    pub to: String,
    /// The email as it goes over the wire.
    pub bytes: Vec<u8>,
}

/// A [`ComposedEmail`] with its texts as character sequences.
#[verifier::ext_equal]
pub struct ComposedEmailView {
    pub from: Seq<char>,
    pub to: Seq<char>,
    pub bytes: Seq<u8>,
}

impl View for ComposedEmail {
    type V = ComposedEmailView;

    open spec fn view(&self) -> ComposedEmailView {
        ComposedEmailView { from: self.from@, to: self.to@, bytes: self.bytes@ }
    }
}

/// The bytes of the email that [`lettre::Message`] makes of a sender, a recipient, a
/// subject, a plain text and a date in seconds since the Unix epoch, or its error message.
pub uninterp spec fn message_bytes(
    from: MailAddressView,
    to: MailAddressView,
    subject: Seq<char>,
    body: Seq<char>,
    date: u64,
) -> Result<Seq<u8>, Seq<char>>;

/// `lettre::message::Mailbox::from_str`: the mailbox in a text, or its error message.
#[verifier::external_body]
fn read_mailbox(text: &str) -> (mailbox: Result<MailAddress, String>)
    ensures
        outcome(mailbox) == mailbox_in(text@),
{
    match text.parse::<Mailbox>() {
        Ok(mailbox) => Ok(MailAddress { name: mailbox.name, email: mailbox.email.to_string() }),
        Err(error) => Err(error.to_string()),
    }
}

/// `lettre::Address::from_str`: the error message for a text that is no address.
#[verifier::external_body]
fn check_address(text: &str) -> (fault: Option<String>)
    ensures
        optional(fault) == address_fault(text@),
{
    text.parse::<lettre::Address>().err().map(|error| error.to_string())
}

/// `lettre::Message::builder`: the bytes of the plain-text email with the given parts and
/// date, or the error message. There are no dates from the year 10000 on.
#[verifier::external_body]
fn format_message(
    from: &MailAddress,
    to: &MailAddress,
    subject: &str,
    body: &str,
    date: u64,
) -> (bytes: Result<Vec<u8>, String>)
    requires
        date < DATES_END,
    ensures
        outcome(bytes) == message_bytes(from@, to@, subject@, body@, date),
{
    let mailbox = |address: &MailAddress| -> Result<Mailbox, String> {
        let email = address.email.parse::<lettre::Address>().map_err(|error| error.to_string())?;
        Ok(Mailbox::new(address.name.clone(), email))
    };
    lettre::Message::builder()
        .from(mailbox(from)?)
        .to(mailbox(to)?)
        .subject(subject)
        .header(ContentType::TEXT_PLAIN)
        .date(std::time::UNIX_EPOCH + std::time::Duration::from_secs(date))
        .body(body.to_string())
        .map(|message| message.formatted())
        .map_err(|error| error.to_string())
}

/// How email is sent over SMTP.
pub struct SmtpEmailSender {
    /// The sender.
    pub from: MailAddress,
    /// SMTP server host.
    pub host: String,
    /// SMTP server port.
    pub port: u16,
    /// Whether the connection is upgraded with STARTTLS; it is plain otherwise.
    pub starttls: bool,
    /// Username and password.
    pub credentials: Option<(String, String)>,
}

/// A [`SmtpEmailSender`] with its texts as character sequences.
#[verifier::ext_equal]
pub struct SmtpEmailSenderView {
    pub from: MailAddressView,
    pub host: Seq<char>,
    pub port: u16,
    pub starttls: bool,
    pub credentials: Option<(Seq<char>, Seq<char>)>,
}

impl View for SmtpEmailSender {
    type V = SmtpEmailSenderView;

    open spec fn view(&self) -> SmtpEmailSenderView {
        SmtpEmailSenderView {
            from: self.from@,
            host: self.host@,
            port: self.port,
            starttls: self.starttls,
            credentials: match self.credentials {
                Some(credentials) => Some((credentials.0@, credentials.1@)),
                None => None,
            },
        }
    }
}

/// The sender in a configuration: without a display name the address is read as a whole
/// mailbox, which may bring a name of its own.
pub open spec fn sender_of(config: SmtpConfig) -> Result<MailAddressView, Seq<char>> {
    if config.from_name@.len() == 0 {
        mailbox_in(config.from_email@)
    } else {
        match address_fault(config.from_email@) {
            Some(text) => Err(text),
            None => Ok(
                MailAddressView { name: Some(config.from_name@), email: config.from_email@ },
            ),
        }
    }
}

/// The outcome of preparing an SMTP sender. `relay` says whether a STARTTLS connection can
/// be prepared, and counts only where one is asked for.
pub open spec fn smtp_outcome(config: SmtpConfig, relay: Result<(), Seq<char>>) -> Result<
    SmtpEmailSenderView,
    EmailErrorView,
> {
    match sender_of(config) {
        Err(text) => Err(EmailErrorView::Build(text)),
        Ok(from) => if config.starttls && relay is Err {
            Err(EmailErrorView::Build("invalid SMTP relay host: "@ + relay->Err_0))
        } else {
            Ok(
                SmtpEmailSenderView {
                    from,
                    host: config.host@,
                    port: config.port,
                    starttls: config.starttls,
                    credentials: match (config.username, config.password) {
                        (Some(username), Some(password)) => Some((username@, password@)),
                        _ => None,
                    },
                },
            )
        },
    }
}

/// The outcome of composing an email: the recipient is read as a whole mailbox, and
/// whatever fails is a fault of the parts.
pub open spec fn compose_outcome(
    sender: SmtpEmailSenderView,
    to: Seq<char>,
    subject: Seq<char>,
    body: Seq<char>,
    date: u64,
) -> Result<ComposedEmailView, EmailErrorView> {
    match mailbox_in(to) {
        Err(text) => Err(EmailErrorView::Build(text)),
        Ok(recipient) => match message_bytes(sender.from, recipient, subject, body, date) {
            Err(text) => Err(EmailErrorView::Build(text)),
            Ok(bytes) => Ok(
                ComposedEmailView { from: sender.from.email, to: recipient.email, bytes },
            ),
        },
    }
}

/// Reads the sender in a configuration.
fn read_sender(config: &SmtpConfig) -> (from: Result<MailAddress, String>)
    ensures
        outcome(from) == sender_of(*config),
{
    if config.from_name.as_str().is_empty() {
        read_mailbox(&config.from_email)
    } else {
        match check_address(&config.from_email) {
            Some(text) => Err(text),
            None => Ok(
                MailAddress {
                    name: Some(config.from_name.clone()),
                    email: config.from_email.clone(),
                },
            ),
        }
    }
}

impl SmtpEmailSender {
    /// Build a sender from [`SmtpConfig`], where `relay` says whether a STARTTLS
    /// connection can be prepared.
    pub fn with_relay(config: &SmtpConfig, relay: Result<(), String>) -> (result: Result<
        SmtpEmailSender,
        EmailError,
    >)
        ensures
            outcome(result) == smtp_outcome(*config, relay_view(relay)),
    {
        let from = match read_sender(config) {
            Ok(from) => from,
            Err(text) => return Err(EmailError::Build(text)),
        };
        if config.starttls {
            if let Err(text) = relay {
                return Err(EmailError::Build(joined("invalid SMTP relay host: ", &text)));
            }
        }
        let credentials = match (&config.username, &config.password) {
            (Some(username), Some(password)) => Some((username.clone(), password.clone())),
            _ => None,
        };
        Ok(
            SmtpEmailSender {
                from,
                host: config.host.clone(),
                port: config.port,
                starttls: config.starttls,
                credentials,
            },
        )
    }

    /// Build a sender from [`SmtpConfig`].
    pub fn from_config(config: &SmtpConfig) -> (result: Result<SmtpEmailSender, EmailError>)
        ensures
            config.starttls ==> exists|check: RelayCheck|
                check.host() == config.host@ && outcome(result) == smtp_outcome(
                    *config,
                    #[trigger] check.result(),
                ),
            !config.starttls ==> outcome(result) == smtp_outcome(*config, Ok(())),
    {
        if config.starttls {
            let check = check_relay(&config.host);
            let ghost found = check;
            let result = SmtpEmailSender::with_relay(config, check.into_result());
            assert(outcome(result) == smtp_outcome(*config, found.result()));
            result
        } else {
            SmtpEmailSender::with_relay(config, Ok(()))
        }
    }

    /// Composes an email from the sender to a recipient, with a date in seconds since the
    /// Unix epoch.
    pub fn compose(&self, to: &str, subject: &str, body: &str, date: u64) -> (result: Result<
        ComposedEmail,
        EmailError,
    >)
        requires
            date < DATES_END,
        ensures
            outcome(result) == compose_outcome(self@, to@, subject@, body@, date),
    {
        let recipient = match read_mailbox(to) {
            Ok(recipient) => recipient,
            Err(text) => return Err(EmailError::Build(text)),
        };
        match format_message(&self.from, &recipient, subject, body, date) {
            Ok(bytes) => Ok(
                ComposedEmail { from: self.from.email.clone(), to: recipient.email, bytes },
            ),
            Err(text) => Err(EmailError::Build(text)),
        }
    }
}

/// Accepts email without sending it (development).
#[derive(Debug, Clone, Copy, Default)]
pub struct LogEmailSender;

impl EmailSender for LogEmailSender {
    fn send(&mut self, to: &str, subject: &str, body: &str) -> (sent: Result<(), EmailError>)
        ensures
            sent is Ok,
    {
        Ok(())
    }
}

/// A captured email message for inspection in tests.
#[derive(Debug, PartialEq, Eq)]
pub struct SentEmail {
    /// Recipient address.
    pub to: String,
    /// Email subject.
    pub subject: String,
    /// Email plain-text body.
    pub body: String,
}

impl Clone for SentEmail {
    fn clone(&self) -> (copy: SentEmail)
        ensures
            copy == *self,
    {
        SentEmail {
            to: self.to.clone(),
            subject: self.subject.clone(),
            body: self.body.clone(),
        }
    }
}

/// Records sent emails in memory (tests).
#[derive(Debug)]
pub struct StubEmailSender {
    sent: Vec<SentEmail>,
}

impl View for StubEmailSender {
    type V = Seq<SentEmail>;

    closed spec fn view(&self) -> Seq<SentEmail> {
        self.sent@
    }
}

impl Default for StubEmailSender {
    fn default() -> (stub: StubEmailSender)
        ensures
            stub@ == Seq::<SentEmail>::empty(),
    {
        StubEmailSender { sent: Vec::new() }
    }
}

impl StubEmailSender {
    /// Create a new empty stub sender.
    #[must_use]
    pub fn new() -> (stub: StubEmailSender)
        ensures
            stub@ == Seq::<SentEmail>::empty(),
    {
        StubEmailSender { sent: Vec::new() }
    }

    /// Snapshot of recorded messages.
    pub fn messages(&self) -> (messages: Vec<SentEmail>)
        ensures
            messages@ == self@,
    {
        let mut messages: Vec<SentEmail> = Vec::new();
        let mut i: usize = 0;
        while i < self.sent.len()
            invariant
                i <= self.sent@.len(),
                messages@ =~= self.sent@.take(i as int),
            decreases self.sent@.len() - i,
        {
            messages.push(self.sent[i].clone());
            i += 1;
        }
        assert(messages@ =~= self@);
        messages
    }

    /// Number of recorded messages without cloning string data.
    pub fn count(&self) -> (count: usize)
        ensures
            count == self@.len(),
    {
        self.sent.len()
    }

    /// Clear all captured messages.
    pub fn clear(&mut self)
        ensures
            final(self)@ == Seq::<SentEmail>::empty(),
    {
        self.sent.clear();
    }
}

/// Whether a captured message has the given parts.
pub open spec fn is_email(email: SentEmail, to: Seq<char>, subject: Seq<char>, body: Seq<char>) -> bool {
    email.to@ == to && email.subject@ == subject && email.body@ == body
}

impl EmailSender for StubEmailSender {
    fn send(&mut self, to: &str, subject: &str, body: &str) -> (sent: Result<(), EmailError>)
        ensures
            sent is Ok,
            final(self)@.len() == old(self)@.len() + 1,
            final(self)@.drop_last() == old(self)@,
            is_email(final(self)@.last(), to@, subject@, body@),
    {
        self.sent.push(
            SentEmail {
                to: to.to_owned(),
                subject: subject.to_owned(),
                body: body.to_owned(),
            },
        );
        assert(self@.drop_last() =~= old(self)@);
        Ok(())
    }
}

} // verus!
