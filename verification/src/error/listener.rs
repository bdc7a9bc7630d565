use vstd::prelude::*;

verus! {

/// Errors raised while adding a channel to, or removing one from, the listener.
#[derive(Debug, Clone, Copy, PartialEq, Eq, Structural)]
pub enum PersistentPostgresListenerError {
    FailedToAddChannelListener,
}

impl PersistentPostgresListenerError {
    pub fn code(&self) -> (r: usize)
        ensures
            r == 5010,
    {
        match self {
            PersistentPostgresListenerError::FailedToAddChannelListener => 5010,
        }
    }

    pub fn causes(&self) -> (r: Option<&'static str>)
        ensures
            r is Some,
            r->0@ == "Possible causes could be the listener already existing. Or else."@,
    {
        match self {
            PersistentPostgresListenerError::FailedToAddChannelListener => Some(
                "Possible causes could be the listener already existing. Or else.",
            ),
        }
    }

    pub fn description(&self) -> (r: Option<&'static str>)
        ensures
            r is Some,
            r->0@ == "Failed to add channel to listener"@,
    {
        match self {
            PersistentPostgresListenerError::FailedToAddChannelListener => Some(
                "Failed to add channel to listener",
            ),
        }
    }

    pub fn docs(&self) -> (r: &'static str)
        ensures
            r@ == ""@,
    {
        match self {
            PersistentPostgresListenerError::FailedToAddChannelListener => "",
        }
    }

    /// No solution is known for this error.
    pub fn solutions(&self) -> (r: Option<&'static str>)
        ensures
            r is None,
    {
        match self {
            PersistentPostgresListenerError::FailedToAddChannelListener => None,
        }
    }
}

} // verus!
