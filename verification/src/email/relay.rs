//! Preparing a STARTTLS connection to an SMTP relay.

use vstd::prelude::*;

verus! {

/// What preparing a STARTTLS connection to a relay came to. It comes from preparing one
/// alone.
pub struct RelayCheck {
    host: String,
    result: Result<(), String>,
}

impl RelayCheck {
    /// The host of the relay.
    pub closed spec fn host(&self) -> Seq<char> {
        self.host@
    }

    /// Whether the connection can be prepared, or the error message.
    pub closed spec fn result(&self) -> Result<(), Seq<char>> {
        relay_view(self.result)
    }

    /// Whether the connection can be prepared, or the error message.
    pub fn into_result(self) -> (result: Result<(), String>)
        ensures
            relay_view(result) == self.result(),
    {
        self.result
    }
}

/// The result of preparing a relay, taken by its view.
pub open spec fn relay_view(relay: Result<(), String>) -> Result<(), Seq<char>> {
    match relay {
        Ok(()) => Ok(()),
        Err(text) => Err(text@),
    }
}

/// `lettre::AsyncSmtpTransport::starttls_relay`: whether a STARTTLS connection to a host
/// can be prepared. That rests on the cryptography that the process has at hand, and is not
/// stated.
#[verifier::external_body]
pub(crate) fn check_relay(host: &str) -> (check: RelayCheck)
    ensures
        check.host() == host@,
{
    let relay = lettre::AsyncSmtpTransport::<lettre::Tokio1Executor>::starttls_relay(host);
    let result = match relay {
        Ok(_) => Ok(()),
        Err(error) => Err(error.to_string()),
    };
    RelayCheck { host: host.to_string(), result }
}

} // verus!
