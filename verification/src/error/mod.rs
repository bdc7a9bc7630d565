pub mod connection;
pub mod listener;

use vstd::prelude::*;

use crate::error::connection::PersistentPostgresConnectionError;

verus! {

/// Any error the manager reports.
#[derive(Debug, Clone, Copy, PartialEq, Eq, Structural)]
pub enum PersistentPostgresError {
    ConnectionError(PersistentPostgresConnectionError),
}

} // verus!
