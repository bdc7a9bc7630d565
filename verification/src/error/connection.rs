use vstd::prelude::*;

verus! {

/// Errors raised while (re-)establishing the connection pool or its listener.
#[derive(Debug, Clone, Copy, PartialEq, Eq, Structural)]
pub enum PersistentPostgresConnectionError {
    NoAddress,
    FailedToEstablishConnection,
    FailedToEstablishListener,
}

impl PersistentPostgresConnectionError {
    /// The numeric error code of each variant.
    pub open spec fn spec_code(self) -> int {
        match self {
            PersistentPostgresConnectionError::NoAddress => 5001,
            PersistentPostgresConnectionError::FailedToEstablishConnection => 5002,
            PersistentPostgresConnectionError::FailedToEstablishListener => 5003,
        }
    }

    /// The likely cause of each variant, where one is known.
    pub open spec fn spec_causes(self) -> Option<Seq<char>> {
        match self {
            PersistentPostgresConnectionError::NoAddress => Some(
                "Usually the cause of this error is bad configuration"@,
            ),
            PersistentPostgresConnectionError::FailedToEstablishConnection => Some(
                "Cause of this problem could be a faulty internet connection. or bad connection string"@,
            ),
            PersistentPostgresConnectionError::FailedToEstablishListener => None,
        }
    }

    /// The human-readable description of each variant.
    pub open spec fn spec_description(self) -> Option<Seq<char>> {
        match self {
            PersistentPostgresConnectionError::NoAddress => Some(
                "No address found for postgres."@,
            ),
            PersistentPostgresConnectionError::FailedToEstablishConnection => Some(
                "Failed to establish a connection to postgres."@,
            ),
            PersistentPostgresConnectionError::FailedToEstablishListener => Some(
                "Failed to establish a listener to postgres."@,
            ),
        }
    }

    pub fn code(&self) -> (r: usize)
        ensures
            r == self.spec_code(),
    {
        match self {
            PersistentPostgresConnectionError::NoAddress => 5001,
            PersistentPostgresConnectionError::FailedToEstablishConnection => 5002,
            PersistentPostgresConnectionError::FailedToEstablishListener => 5003,
        }
    }

    pub fn causes(&self) -> (r: Option<&'static str>)
        ensures
            r is Some == self.spec_causes() is Some,
            r is Some ==> r->0@ == self.spec_causes()->0,
    {
        match self {
            PersistentPostgresConnectionError::NoAddress => Some(
                "Usually the cause of this error is bad configuration",
            ),
            PersistentPostgresConnectionError::FailedToEstablishConnection => Some(
                "Cause of this problem could be a faulty internet connection. or bad connection string",
            ),
            PersistentPostgresConnectionError::FailedToEstablishListener => None,
        }
    }

    pub fn description(&self) -> (r: Option<&'static str>)
        ensures
            r is Some == self.spec_description() is Some,
            r is Some ==> r->0@ == self.spec_description()->0,
    {
        match self {
            PersistentPostgresConnectionError::NoAddress => Some("No address found for postgres."),
            PersistentPostgresConnectionError::FailedToEstablishConnection => Some(
                "Failed to establish a connection to postgres.",
            ),
            PersistentPostgresConnectionError::FailedToEstablishListener => Some(
                "Failed to establish a listener to postgres.",
            ),
        }
    }

    /// No variant has documentation yet: every one answers the empty text.
    pub fn docs(&self) -> (r: &'static str)
        ensures
            r@ == ""@,
    {
        match self {
            PersistentPostgresConnectionError::NoAddress => "",
            PersistentPostgresConnectionError::FailedToEstablishConnection => "",
            PersistentPostgresConnectionError::FailedToEstablishListener => "",
        }
    }

    /// Every variant offers a solution, so far the empty text.
    pub fn solutions(&self) -> (r: Option<&'static str>)
        ensures
            r is Some,
            r->0@ == ""@,
    {
        Some(
            match self {
                PersistentPostgresConnectionError::NoAddress => "",
                PersistentPostgresConnectionError::FailedToEstablishConnection => "",
                PersistentPostgresConnectionError::FailedToEstablishListener => "",
            },
        )
    }
}

} // verus!
