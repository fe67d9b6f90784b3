//! DPoP (RFC 9449) authentication: proof validation, sender-constrained access tokens,
//! opaque refresh tokens and the account flows around them.

pub mod cache;
pub mod claims;
pub mod config;
pub mod cookie;
pub mod crypto;
pub mod dpop;
pub mod email;
pub mod error;
pub mod extractor;
pub mod jose;
pub mod json;
pub mod middleware;
pub mod replay;
pub mod service;
pub mod state;
pub mod store;
pub mod text;
pub mod time;
pub mod token;
pub mod totp;

pub use config::{DpopConfig, TokenSigner};
pub use email::{
    EmailError, EmailSender, LogEmailSender, SmtpConfig, SmtpEmailSender, StubEmailSender,
};
pub use error::DpopError;
pub use extractor::{DpopSession, FromExtra};
pub use jose::Jwk;
pub use service::auth::{AuthService, LoginOutcome, RegisterParams, TokenPair};
pub use state::DpopState;
pub use store::error::ServiceError;
pub use totp::TotpSetup;
