//! TOTP code replay prevention.

pub use crate::cache::{create_totp_replay_cache, TotpReplayCache};
