use vstd::prelude::*;

verus! {

/// The JSON value type of `serde_json`, carried through unexamined.
#[verifier::external_type_specification]
#[verifier::external_body]
pub struct ExJsonValue(serde_json::Value);

/// The kind of change a PostgreSQL notification reports.
#[derive(Debug, Clone, Copy, PartialEq, Eq, Structural)]
pub enum PgChangeAction {
    Update,
    Delete,
    Insert,
}

/// A change notification: what changed, and its details as JSON.
#[derive(Debug)]
pub struct PgChangeNotification {
    pub action: PgChangeAction,
    pub payload: serde_json::Value,
}

} // verus!
