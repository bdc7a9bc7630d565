use vstd::prelude::*;

verus! {

/// A PostgreSQL connection string, kept as given.
pub struct PostgresUri(String);

impl View for PostgresUri {
    type V = Seq<char>;

    closed spec fn view(&self) -> Seq<char> {
        self.0@
    }
}

impl PostgresUri {
    /// The connection string as text.
    pub fn as_str(&self) -> (r: &str)
        ensures
            r@ == self@,
    {
        self.0.as_str()
    }
}

impl std::str::FromStr for PostgresUri {
    type Err = &'static str;

    /// Every text is accepted as a connection string, unchanged.
    fn from_str(s: &str) -> (r: Result<PostgresUri, &'static str>)
        ensures
            r is Ok,
            r->Ok_0@ == s@,
    {
        Ok(PostgresUri(s.to_owned()))
    }
}

} // verus!
