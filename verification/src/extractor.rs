//! The `DpopSession` extractor.

use vstd::prelude::*;

use crate::error::DpopError;
use crate::json::JsonMap;

verus! {

/// The authenticated session, extracted by handlers.
#[derive(Debug, Clone)]
pub struct DpopSession<T = ()> {
    /// Subject identifier (the authenticated user).
    pub sub: String,
    /// The access token's `jti`.
    pub jti: String,
    /// The `cnf.jkt` thumbprint the token is bound to.
    pub jkt: String,
    /// Application-specific claims.
    pub claims: T,
}

/// Session data injected by the middleware.
#[derive(Debug, Clone)]
pub struct ValidatedSession {
    /// Subject identifier (the authenticated user).
    pub sub: String,
    /// The access token's `jti`.
    pub jti: String,
    /// The `cnf.jkt` thumbprint the token is bound to.
    pub jkt: String,
    /// The extra claims of the access token.
    pub extra: JsonMap,
}

/// A [`ValidatedSession`] with its texts as character sequences.
#[verifier::ext_equal]
pub struct SessionView {
    pub sub: Seq<char>,
    pub jti: Seq<char>,
    pub jkt: Seq<char>,
    pub extra: Map<Seq<char>, Seq<char>>,
}

impl View for ValidatedSession {
    type V = SessionView;

    open spec fn view(&self) -> SessionView {
        SessionView { sub: self.sub@, jti: self.jti@, jkt: self.jkt@, extra: self.extra@ }
    }
}

/// Decode the extra claims of an access token into a concrete type.
pub trait FromExtra: Sized + Send + Sync + 'static {
    /// Build the claims from the token's extra JSON subject.
    fn from_extra(extra: JsonMap) -> Result<Self, DpopError>;
}

impl FromExtra for () {
    fn from_extra(extra: JsonMap) -> (claims: Result<(), DpopError>)
        ensures
            claims is Ok,
    {
        Ok(())
    }
}

/// Whether a result is what a session gives: no session is a missing header, and the
/// claims are those that the type decodes, or its error.
pub open spec fn is_extraction<T: FromExtra>(
    session: Option<ValidatedSession>,
    result: Result<DpopSession<T>, DpopError>,
) -> bool {
    match session {
        None => result matches Err(error) && error is MissingHeader,
        Some(session) => match result {
            Ok(extracted) => {
                &&& extracted.sub == session.sub
                &&& extracted.jti == session.jti
                &&& extracted.jkt == session.jkt
                &&& call_ensures(T::from_extra, (session.extra,), Ok(extracted.claims))
            },
            Err(error) => call_ensures(T::from_extra, (session.extra,), Err(error)),
        },
    }
}

impl<T: FromExtra> DpopSession<T> {
    /// The session that a handler gets of what the middleware found.
    pub fn extract(session: Option<ValidatedSession>) -> (result: Result<DpopSession<T>, DpopError>)
        ensures
            is_extraction::<T>(session, result),
    {
        let session = match session {
            Some(session) => session,
            None => return Err(DpopError::MissingHeader),
        };
        match T::from_extra(session.extra) {
            Ok(claims) => Ok(
                DpopSession { sub: session.sub, jti: session.jti, jkt: session.jkt, claims },
            ),
            Err(error) => Err(error),
        }
    }
}

} // verus!
