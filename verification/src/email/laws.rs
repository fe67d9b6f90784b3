//! What holds of the senders of email and of the emails that they compose.

use vstd::prelude::*;

use crate::email::{
    address_fault, is_email, mailbox_in, message_bytes, ComposedEmail, EmailError, EmailErrorView,
    SentEmail, SmtpConfig, SmtpEmailSender, DATES_END,
};

verus! {

/// A sender connects as the configuration says: to its host and port, with STARTTLS where it
/// is asked for, and with the username and the password where both are there. It sends from
/// the address of the configuration, under its display name if it has one.
pub proof fn law_sender_is_as_configured(
    config: &SmtpConfig,
    relay: Result<(), String>,
    sender: SmtpEmailSender,
)
    requires
        call_ensures(SmtpEmailSender::with_relay, (config, relay), Ok(sender)),
    ensures
        sender.host@ == config.host@,
        sender.port == config.port,
        sender.starttls == config.starttls,
        config.starttls ==> relay is Ok,
        sender.credentials is Some <==> config.username is Some && config.password is Some,
        sender.credentials matches Some(pair) ==> pair.0@ == config.username->0@ && pair.1@
            == config.password->0@,
        config.from_name@.len() == 0 ==> mailbox_in(config.from_email@) == Ok::<_, Seq<char>>(
            sender.from@,
        ),
        config.from_name@.len() > 0 ==> {
            &&& address_fault(config.from_email@) is None
            &&& sender.from.email@ == config.from_email@
            &&& sender.from.name matches Some(name)
            &&& name@ == config.from_name@
        },
{
    let _ = sender@;
    assert(sender@.from == sender.from@);
}

/// A sender is refused for one of two reasons: its own address is bad, or a STARTTLS
/// connection cannot be prepared.
pub proof fn law_refused_sender_says_why(
    config: &SmtpConfig,
    relay: Result<(), String>,
    error: EmailError,
)
    requires
        call_ensures(SmtpEmailSender::with_relay, (config, relay), Err(error)),
    ensures
        error@ is Build,
        config.from_name@.len() == 0 && mailbox_in(config.from_email@) is Err ==> error@
            == EmailErrorView::Build(mailbox_in(config.from_email@)->Err_0),
        config.from_name@.len() > 0 && address_fault(config.from_email@) is Some ==> error@
            == EmailErrorView::Build(address_fault(config.from_email@)->0),
        (config.from_name@.len() == 0 ==> mailbox_in(config.from_email@) is Ok) && (
        config.from_name@.len() > 0 ==> address_fault(config.from_email@) is None) ==> {
            &&& config.starttls
            &&& relay matches Err(text)
            &&& error@ == EmailErrorView::Build("invalid SMTP relay host: "@ + text@)
        },
{
}

/// A composed email is from the sender to the recipient, with the subject, the body and the
/// date that it was composed of.
pub proof fn law_composed_email_has_its_parts(
    sender: &SmtpEmailSender,
    to: &str,
    subject: &str,
    body: &str,
    date: u64,
    email: ComposedEmail,
)
    requires
        date < DATES_END,
        call_ensures(SmtpEmailSender::compose, (sender, to, subject, body, date), Ok(email)),
    ensures
        ({
            &&& mailbox_in(to@) matches Ok(recipient)
            &&& message_bytes(sender.from@, recipient, subject@, body@, date) == Ok::<
                _,
                Seq<char>,
            >(email.bytes@)
            &&& email.from@ == sender.from.email@
            &&& email.to@ == recipient.email
        }),
{
}

/// A captured email has its parts in their places.
pub proof fn law_captured_email_has_its_parts(
    email: SentEmail,
    to: Seq<char>,
    subject: Seq<char>,
    body: Seq<char>,
)
    ensures
        is_email(email, to, subject, body) <==> email.to@ == to && email.subject@ == subject
            && email.body@ == body,
{
}

/// The text of an error names what failed.
pub proof fn law_error_text_names_what_failed(error: EmailError, text: String)
    requires
        call_ensures(EmailError::to_string, (&error,), text),
    ensures
        error matches EmailError::Build(detail) ==> text@ == "failed to build email: "@ + detail@,
        error matches EmailError::Send(detail) ==> text@ == "failed to send email: "@ + detail@,
        error matches EmailError::Internal(detail) ==> text@ == "internal error: "@ + detail@,
{
}

} // verus!
