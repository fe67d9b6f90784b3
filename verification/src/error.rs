//! Error types for DPoP proof validation and token handling.

use vstd::prelude::*;

use crate::text::{joined, optional};

verus! {

/// Errors raised while validating a DPoP proof or handling tokens.
///
/// Every variant is a specific reason for rejection. The distinction
/// matters: a nonce variant tells the client to retry with a fresh
/// nonce, while the others are final rejections.
#[derive(Debug, Clone, PartialEq, Eq)]
#[non_exhaustive]
pub enum DpopError {
    /// The request is missing the `DPoP` header.
    MissingHeader,
    /// The `typ` JOSE header is not `dpop+jwt`.
    InvalidTyp(String),
    /// The `alg` header is not an allowed asymmetric algorithm.
    InvalidAlgorithm(String),
    /// The proof signature or structure is invalid.
    InvalidSignature(String),
    /// The `htm` claim does not match the request method.
    HtmMismatch {
        /// The expected HTTP method from the request.
        expected: String,
        /// The actual HTTP method found in the DPoP proof token.
        got: String,
    },
    /// The `htu` claim does not match the request URI.
    HtuMismatch,
    /// The `jti` claim was already seen (replay attack).
    JtiReplay,
    /// The proof is outside the accepted time window (`iat`).
    Expired,
    /// A nonce is required on the token endpoint (RFC 9449 section 8).
    TokenNonceRequired(String),
    /// A nonce is required on a protected resource (RFC 9449 section 9).
    ResourceNonceRequired(String),
    /// An internal error occurred.
    Internal(String),
}

/// A [`DpopError`] with its texts as character sequences.
#[verifier::ext_equal]
pub enum DpopErrorView {
    MissingHeader,
    InvalidTyp(Seq<char>),
    InvalidAlgorithm(Seq<char>),
    InvalidSignature(Seq<char>),
    HtmMismatch { expected: Seq<char>, got: Seq<char> },
    HtuMismatch,
    JtiReplay,
    Expired,
    TokenNonceRequired(Seq<char>),
    ResourceNonceRequired(Seq<char>),
    Internal(Seq<char>),
}

impl View for DpopError {
    type V = DpopErrorView;

    open spec fn view(&self) -> DpopErrorView {
        match *self {
            DpopError::MissingHeader => DpopErrorView::MissingHeader,
            DpopError::InvalidTyp(got) => DpopErrorView::InvalidTyp(got@),
            DpopError::InvalidAlgorithm(text) => DpopErrorView::InvalidAlgorithm(text@),
            DpopError::InvalidSignature(text) => DpopErrorView::InvalidSignature(text@),
            DpopError::HtmMismatch { expected, got } => DpopErrorView::HtmMismatch {
                expected: expected@,
                got: got@,
            },
            DpopError::HtuMismatch => DpopErrorView::HtuMismatch,
            DpopError::JtiReplay => DpopErrorView::JtiReplay,
            DpopError::Expired => DpopErrorView::Expired,
            DpopError::TokenNonceRequired(nonce) => DpopErrorView::TokenNonceRequired(nonce@),
            DpopError::ResourceNonceRequired(nonce) => DpopErrorView::ResourceNonceRequired(nonce@),
            DpopError::Internal(text) => DpopErrorView::Internal(text@),
        }
    }
}

/// The message of an error.
pub open spec fn error_text(error: DpopErrorView) -> Seq<char> {
    match error {
        DpopErrorView::MissingHeader => "missing DPoP header"@,
        DpopErrorView::InvalidTyp(got) => "invalid typ: expected dpop+jwt, got "@ + got,
        DpopErrorView::InvalidAlgorithm(text) => "symmetric or unsupported algorithm: "@ + text,
        DpopErrorView::InvalidSignature(text) => "proof signature or structure invalid: "@ + text,
        DpopErrorView::HtmMismatch { expected, got } => "htm mismatch: expected "@ + expected
            + ", got "@ + got,
        DpopErrorView::HtuMismatch => "htu mismatch or invalid URI"@,
        DpopErrorView::JtiReplay => "jti replay detected"@,
        DpopErrorView::Expired => "proof expired (iat out of window)"@,
        DpopErrorView::TokenNonceRequired(_) => "nonce required on token endpoint"@,
        DpopErrorView::ResourceNonceRequired(_) => "nonce required on protected resource"@,
        DpopErrorView::Internal(text) => "internal error: "@ + text,
    }
}

/// The parts of the HTTP response that refuses a request.
#[derive(Debug, Clone, PartialEq, Eq)]
pub struct Rejection {
    /// The HTTP status code.
    pub status: u16,
    /// The value of the `WWW-Authenticate` header.
    pub challenge: String,
    /// The value of the `DPoP-Nonce` header, if the client is to retry with a nonce.
    pub nonce: Option<String>,
}

/// Whether an error asks the client to retry with the nonce that it carries.
pub open spec fn carried_nonce(error: DpopErrorView) -> Option<Seq<char>> {
    match error {
        DpopErrorView::TokenNonceRequired(nonce) => Some(nonce),
        DpopErrorView::ResourceNonceRequired(nonce) => Some(nonce),
        _ => None,
    }
}

/// The status of the response to an error: the token endpoint asks for a nonce with 400
/// (RFC 9449 section 8), an internal error is 500, all else is 401.
pub open spec fn error_status(error: DpopErrorView) -> u16 {
    match error {
        DpopErrorView::TokenNonceRequired(_) => 400,
        DpopErrorView::Internal(_) => 500,
        _ => 401,
    }
}

/// The challenge of the response to an error: `use_dpop_nonce` where the error carries
/// a nonce, `invalid_dpop_proof` elsewhere.
pub open spec fn error_challenge(error: DpopErrorView) -> Seq<char> {
    if carried_nonce(error) is Some {
        "DPoP error=\"use_dpop_nonce\""@
    } else {
        "DPoP error=\"invalid_dpop_proof\""@
    }
}

impl DpopError {
    /// The message of the error.
    pub fn to_string(&self) -> (text: String)
        ensures
            text@ == error_text(self@),
    {
        match self {
            DpopError::MissingHeader => "missing DPoP header".to_owned(),
            DpopError::InvalidTyp(got) => joined("invalid typ: expected dpop+jwt, got ", got),
            DpopError::InvalidAlgorithm(text) => joined(
                "symmetric or unsupported algorithm: ",
                text,
            ),
            DpopError::InvalidSignature(text) => joined(
                "proof signature or structure invalid: ",
                text,
            ),
            DpopError::HtmMismatch { expected, got } => {
                let mut text = joined("htm mismatch: expected ", expected);
                text.append(", got ");
                text.append(got);
                text
            },
            DpopError::HtuMismatch => "htu mismatch or invalid URI".to_owned(),
            DpopError::JtiReplay => "jti replay detected".to_owned(),
            DpopError::Expired => "proof expired (iat out of window)".to_owned(),
            DpopError::TokenNonceRequired(_) => "nonce required on token endpoint".to_owned(),
            DpopError::ResourceNonceRequired(_) =>
                "nonce required on protected resource".to_owned(),
            DpopError::Internal(text) => joined("internal error: ", text),
        }
    }

    /// The response that reports the error to the client.
    pub fn rejection(&self) -> (rejection: Rejection)
        ensures
            rejection.status == error_status(self@),
            rejection.challenge@ == error_challenge(self@),
            optional(rejection.nonce) == carried_nonce(self@),
    {
        let nonce = match self {
            DpopError::TokenNonceRequired(nonce) => Some(nonce.clone()),
            DpopError::ResourceNonceRequired(nonce) => Some(nonce.clone()),
            _ => None,
        };
        let status: u16 = match self {
            DpopError::TokenNonceRequired(_) => 400,
            DpopError::Internal(_) => 500,
            _ => 401,
        };
        let challenge = if nonce.is_some() {
            "DPoP error=\"use_dpop_nonce\"".to_owned()
        } else {
            "DPoP error=\"invalid_dpop_proof\"".to_owned()
        };
        Rejection { status, challenge, nonce }
    }
}

/// A refusal hands the client a nonce exactly when it challenges it to use one.
pub proof fn law_nonce_comes_with_its_challenge(error: DpopErrorView)
    ensures
        carried_nonce(error) is Some <==> error_challenge(error)
            == "DPoP error=\"use_dpop_nonce\""@,
{
    reveal_strlit("DPoP error=\"use_dpop_nonce\"");
    reveal_strlit("DPoP error=\"invalid_dpop_proof\"");
    assert("DPoP error=\"use_dpop_nonce\""@.len() != "DPoP error=\"invalid_dpop_proof\""@.len());
}

/// What a client is answered: 400 and the nonce where the token endpoint asks for one, 401
/// and the nonce where a resource does, 500 for an internal error, and 401 without a nonce
/// for everything else.
pub proof fn law_refusal_is_answered_by_its_kind(error: DpopError, rejection: Rejection)
    requires
        call_ensures(DpopError::rejection, (&error,), rejection),
    ensures
        error matches DpopError::TokenNonceRequired(nonce) ==> {
            &&& rejection.status == 400
            &&& rejection.challenge@ == "DPoP error=\"use_dpop_nonce\""@
            &&& rejection.nonce matches Some(given) && given@ == nonce@
        },
        error matches DpopError::ResourceNonceRequired(nonce) ==> {
            &&& rejection.status == 401
            &&& rejection.challenge@ == "DPoP error=\"use_dpop_nonce\""@
            &&& rejection.nonce matches Some(given) && given@ == nonce@
        },
        error is Internal ==> rejection.status == 500,
        !(error is TokenNonceRequired) && !(error is ResourceNonceRequired) ==> {
            &&& rejection.challenge@ == "DPoP error=\"invalid_dpop_proof\""@
            &&& rejection.nonce is None
            &&& !(error is Internal) ==> rejection.status == 401
        },
{
    if rejection.nonce is Some {
        assert(optional(rejection.nonce) == Some(rejection.nonce->0@));
    }
}

} // verus!
