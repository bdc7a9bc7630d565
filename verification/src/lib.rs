//! A manager for a PostgreSQL connection that survives connection loss: the
//! verified core of its state machine, its listener registry and its errors.

pub mod error;
pub mod persistent;
pub mod postgres_uri;
