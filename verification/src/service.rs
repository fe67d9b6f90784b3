//! High level authentication service: register, login, refresh (RTR), logout, and the
//! second factor.
//!
//! Each operation is a conversation: the service asks a [`flow::Query`], the caller
//! answers it with a [`flow::Reply`], until the operation is done.
//!
//! - [`flow`] - the queries, the replies, and the steps from one to the next.
//! - [`grace`] - the cache of replacements in their grace period.
//! - [`auth`] - the operations, and the queries that the service answers itself.
//! - [`world`] - what the store makes of the queries, and what holds of a refresh.
//! - [`laws`] - what holds of registration, login, logout, and of one refresh after another.
//! - [`session_laws`] - what holds of these operations from the call to the end.
//! - [`factor_laws`] - what holds of the second factor.
//! - [`enrollment_laws`] - what holds of these operations from the call to the end.
//! - [`answer_laws`] - what holds of the queries that the service answers itself.
//! - [`email`] - transactional email outbox worker.

pub mod answer_laws;
pub mod auth;
pub mod email;
pub mod enrollment_laws;
pub mod factor_laws;
pub mod flow;
pub mod grace;
pub mod laws;
pub mod session_laws;
pub mod world;
