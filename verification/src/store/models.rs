//! Row types of the `dpop_*` tables. Identifiers are UUIDs as numbers, times are
//! microseconds since the Unix epoch.

use vstd::prelude::*;

verus! {

/// A row representing a user in the `dpop_users` table.
pub struct UserRow {
    /// Internal primary key (time-ordered UUIDv7).
    pub id: u128,
    /// Publicly exposed user identifier (UUIDv4 for safe use in external APIs).
    pub public_id: u128,
    /// Password hash (e.g., Argon2id).
    pub password_hash: String,
    /// Display name or full name of the user.
    pub name: String,
    /// Timestamp of the last password modification (used to invalidate older sessions).
    pub password_changed_at: Option<i64>,
    /// Base32-encoded or encrypted TOTP secret key for two-factor authentication.
    pub totp_secret: Option<String>,
    /// Indicates whether two-factor authentication (TOTP) is currently enabled.
    pub totp_enabled: bool,
    /// Timestamp when two-factor authentication was activated.
    pub totp_enabled_at: Option<i64>,
    /// Unconfirmed Base32 TOTP secret generated during the 2FA enrollment flow.
    ///
    /// Cleared and atomically promoted to [`Self::totp_secret`] upon successful verification.
    pub totp_pending_secret: Option<String>,
    /// Timestamp when the pending TOTP setup was initiated (used to enforce enrollment TTL).
    pub totp_pending_at: Option<i64>,
    /// Timestamp of the user's most recent successful login.
    pub last_login_at: Option<i64>,
    /// Record creation timestamp.
    pub created_at: i64,
    /// Record last update timestamp (automatically maintained via trigger).
    pub updated_at: i64,
    /// Soft-delete timestamp. `None` if the account is active.
    pub deleted_at: Option<i64>,
}

/// A row representing a user's login identifier in the `dpop_identifiers` table.
pub struct IdentifierRow {
    /// Internal primary key (time-ordered UUIDv7).
    pub id: u128,
    /// Foreign key referencing the parent user in `dpop_users(id)`.
    pub user_id: u128,
    /// Identifier type or scheme (e.g., `"email"`, `"phone"`, `"username"`).
    pub kind: String,
    /// Normalized identifier value (e.g., lowercase email address).
    pub value: String,
    /// Indicates if this is the primary identifier for the user and kind.
    pub is_primary: bool,
    /// Timestamp when ownership of this identifier was verified. `None` if unverified.
    pub verified_at: Option<i64>,
    /// Record creation timestamp.
    pub created_at: i64,
    /// Record last update timestamp (automatically maintained via trigger).
    pub updated_at: i64,
    /// Soft-delete timestamp. `None` if the identifier is active.
    pub deleted_at: Option<i64>,
}

/// A row representing a stored refresh token in the `dpop_refresh_tokens` table.
pub struct RefreshTokenRow {
    /// Internal primary key (time-ordered UUIDv7).
    pub id: u128,
    /// Foreign key referencing the token owner in `dpop_users(id)`.
    pub user_id: u128,
    /// Cryptographic hash of the refresh token secret (e.g., SHA-256).
    pub token_hash: String,
    /// Family identifier (UUID) grouping rotated tokens for reuse detection.
    pub fam: u128,
    /// JWK SHA-256 thumbprint (`jkt`) binding the token to the client's public key.
    pub dpop_jkt: String,
    /// Captured `User-Agent` header value of the client at token issuance.
    pub user_agent: Option<String>,
    /// Absolute expiration timestamp after which the token is invalid.
    pub expires_at: i64,
    /// Timestamp when the token was revoked or rotated. `None` if active.
    pub revoked_at: Option<i64>,
    /// Record creation timestamp.
    pub created_at: i64,
}

/// Parameters required to insert a new refresh token into `dpop_refresh_tokens`.
pub struct CreateRefreshTokenParams {
    /// Owner user ID.
    pub user_id: u128,
    /// Precomputed cryptographic hash of the raw refresh token string.
    pub token_hash: String,
    /// Refresh token family identifier for rotation tracking.
    pub fam: u128,
    /// DPoP public key thumbprint (`jkt`) the token is bound to.
    pub dpop_jkt: String,
    /// Client `User-Agent` string at creation time.
    pub user_agent: Option<String>,
    /// Expiration timestamp for the newly issued token.
    pub expires_at: i64,
}

/// A row representing an authentication audit entry in the `dpop_login_attempts` table.
pub struct LoginAttemptRow {
    /// Internal primary key (time-ordered UUIDv7).
    pub id: u128,
    /// Identifier type used during the attempt (e.g., `"email"`).
    pub identifier_kind: String,
    /// Identifier value submitted during the attempt.
    pub identifier_value: String,
    /// Originating IP address of the client (IPv4 or IPv6 with subnet mask).
    pub ip_address: String,
    /// Outcome of the login attempt (`true` if authentication succeeded).
    pub success: bool,
    /// Explanation message or error code if the attempt failed (e.g., `"invalid_credentials"`).
    pub failure_reason: Option<String>,
    /// Timestamp when the login attempt occurred.
    pub created_at: i64,
}

/// A row representing a recovery code in the `dpop_recovery_codes` table.
pub struct RecoveryCodeRow {
    /// Internal primary key (time-ordered UUIDv7).
    pub id: u128,
    /// Foreign key referencing the owner in `dpop_users(id)`.
    pub user_id: u128,
    /// Cryptographic hash of the recovery code (SHA-256).
    pub code_hash: String,
    /// Timestamp when the code was used. `None` if still active.
    pub used_at: Option<i64>,
    /// Record creation timestamp.
    pub created_at: i64,
}

} // verus!
