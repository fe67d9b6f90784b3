//! Store-layer error type.

use vstd::prelude::*;

use crate::text::joined;

verus! {

/// Errors raised by the auth service.
///
/// The `Unauthorized` variant carries no detail: from the outside,
/// a wrong password and a missing user are indistinguishable (anti-reconnaissance).
/// The audit log (`dpop_login_attempts`) still records the real reason.
#[derive(Debug, Clone, PartialEq, Eq)]
#[non_exhaustive]
pub enum ServiceError {
    /// Bad credentials or an unknown/invalid refresh token.
    Unauthorized,
    /// The identifier is already taken.
    Conflict(String),
    /// Self-registration is disabled by configuration.
    RegistrationDisabled,
    /// The input failed validation.
    Validation(String),
    /// An internal error (database, crypto).
    Internal(String),
}

/// A [`ServiceError`] with its texts as character sequences.
#[verifier::ext_equal]
pub enum ServiceErrorView {
    Unauthorized,
    Conflict(Seq<char>),
    RegistrationDisabled,
    Validation(Seq<char>),
    Internal(Seq<char>),
}

impl View for ServiceError {
    type V = ServiceErrorView;

    open spec fn view(&self) -> ServiceErrorView {
        match *self {
            ServiceError::Unauthorized => ServiceErrorView::Unauthorized,
            ServiceError::Conflict(text) => ServiceErrorView::Conflict(text@),
            ServiceError::RegistrationDisabled => ServiceErrorView::RegistrationDisabled,
            ServiceError::Validation(text) => ServiceErrorView::Validation(text@),
            ServiceError::Internal(text) => ServiceErrorView::Internal(text@),
        }
    }
}

/// The message of an error.
pub open spec fn service_error_text(error: ServiceErrorView) -> Seq<char> {
    match error {
        ServiceErrorView::Unauthorized => "invalid credentials"@,
        ServiceErrorView::Conflict(text) => "conflict: "@ + text,
        ServiceErrorView::RegistrationDisabled => "registration is disabled"@,
        ServiceErrorView::Validation(text) => "validation failed: "@ + text,
        ServiceErrorView::Internal(text) => "internal error: "@ + text,
    }
}

/// The HTTP status of the response to an error.
pub open spec fn response_status(error: ServiceErrorView) -> u16 {
    match error {
        ServiceErrorView::Unauthorized => 401,
        ServiceErrorView::Conflict(_) => 409,
        ServiceErrorView::RegistrationDisabled => 403,
        ServiceErrorView::Validation(_) => 400,
        ServiceErrorView::Internal(_) => 500,
    }
}

/// What the response to an error tells the client.
pub open spec fn response_message(error: ServiceErrorView) -> Seq<char> {
    match error {
        ServiceErrorView::Unauthorized => "invalid credentials"@,
        ServiceErrorView::Conflict(text) => text,
        ServiceErrorView::RegistrationDisabled => "registration is disabled"@,
        ServiceErrorView::Validation(text) => text,
        ServiceErrorView::Internal(_) => "internal error"@,
    }
}

impl ServiceError {
    /// The message of the error.
    pub fn to_string(&self) -> (text: String)
        ensures
            text@ == service_error_text(self@),
    {
        match self {
            ServiceError::Unauthorized => "invalid credentials".to_owned(),
            ServiceError::Conflict(text) => joined("conflict: ", text),
            ServiceError::RegistrationDisabled => "registration is disabled".to_owned(),
            ServiceError::Validation(text) => joined("validation failed: ", text),
            ServiceError::Internal(text) => joined("internal error: ", text),
        }
    }

    /// The HTTP status of the response, and what it tells the client. The detail of an
    /// internal error stays inside.
    pub fn response(self) -> (response: (u16, String))
        ensures
            response.0 == response_status(self@),
            response.1@ == response_message(self@),
    {
        match self {
            ServiceError::Unauthorized => (401, "invalid credentials".to_owned()),
            ServiceError::Conflict(text) => (409, text),
            ServiceError::RegistrationDisabled => (403, "registration is disabled".to_owned()),
            ServiceError::Validation(text) => (400, text),
            ServiceError::Internal(_) => (500, "internal error".to_owned()),
        }
    }
}

/// No detail of an internal error reaches the client: whatever went wrong, the response
/// is the same.
pub proof fn law_internal_detail_stays_inside(one: Seq<char>, other: Seq<char>)
    ensures
        response_status(ServiceErrorView::Internal(one)) == response_status(
            ServiceErrorView::Internal(other),
        ),
        response_message(ServiceErrorView::Internal(one)) == response_message(
            ServiceErrorView::Internal(other),
        ),
{
}

/// What a client is answered: the status of the kind of error, and its text, but for an
/// internal error.
pub proof fn law_error_is_answered_by_its_kind(error: ServiceError, response: (u16, String))
    requires
        call_ensures(ServiceError::response, (error,), response),
    ensures
        error is Unauthorized ==> response.0 == 401 && response.1@ == "invalid credentials"@,
        error matches ServiceError::Conflict(text) ==> response.0 == 409 && response.1@ == text@,
        error is RegistrationDisabled ==> response.0 == 403 && response.1@
            == "registration is disabled"@,
        error matches ServiceError::Validation(text) ==> response.0 == 400 && response.1@ == text@,
        error is Internal ==> response.0 == 500 && response.1@ == "internal error"@,
{
}

} // verus!
