//! What the store keeps: rows, errors, and the meaning of the queries on them.

pub mod error;
pub mod models;
