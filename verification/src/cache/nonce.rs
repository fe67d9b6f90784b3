//! DPoP `nonce` caching for challenges.

pub use crate::cache::{create_nonce_cache, NonceCache};
