//! The failures a lookup can end in, and their caller-visible messages.

use vstd::prelude::*;

verus! {

/// The slot a backend fills in a lookup.
#[derive(Debug, Clone, Copy, PartialEq, Eq, Structural)]
pub enum Role {
    /// Tried first; its failures never reach the caller.
    Cache,
    /// The system of record, tried when the cache misses.
    Db,
}

/// Why a lookup, or one tier of it, failed.
#[derive(Debug, PartialEq, Eq)]
pub enum QueryError {
    /// The backend serving this role does not know the key.
    NotFound(Role),
    /// The configuration names a backend kind that nothing serves in this role.
    UnsupportedBackend(Role),
    /// The database tier failed; the boxed error is what it reported.
    DbQueryFailed(Box<QueryError>),
}

impl QueryError {
    /// The message of this error alone, without its cause.
    pub open spec fn message_text(&self) -> Seq<char> {
        match self {
            QueryError::NotFound(Role::Cache) => "cache not found"@,
            QueryError::NotFound(Role::Db) => "mysql not found"@,
            QueryError::UnsupportedBackend(Role::Cache) => "not supported cache type"@,
            QueryError::UnsupportedBackend(Role::Db) => "db not found"@,
            QueryError::DbQueryFailed(_) => "Database query failed"@,
        }
    }

    /// The error one level down the cause chain, if there is one.
    pub open spec fn cause_of(&self) -> Option<QueryError> {
        match self {
            QueryError::DbQueryFailed(inner) => Some(**inner),
            _ => None,
        }
    }

    /// The stable, human-readable message of this error.
    pub fn message(&self) -> (text: String)
        ensures
            text@ == self.message_text(),
    {
        match self {
            QueryError::NotFound(Role::Cache) => String::from_str("cache not found"),
            QueryError::NotFound(Role::Db) => String::from_str("mysql not found"),
            QueryError::UnsupportedBackend(Role::Cache) => String::from_str(
                "not supported cache type",
            ),
            QueryError::UnsupportedBackend(Role::Db) => String::from_str("db not found"),
            QueryError::DbQueryFailed(_) => String::from_str("Database query failed"),
        }
    }

    /// The underlying error that this one wraps, if any.
    pub fn cause(&self) -> (inner: Option<&QueryError>)
        ensures
            match inner {
                Some(e) => self.cause_of() == Some(*e),
                None => self.cause_of() is None,
            },
    {
        match self {
            QueryError::DbQueryFailed(inner) => Some(&**inner),
            _ => None,
        }
    }
}

impl Clone for QueryError {
    /// A copy of the whole chain.
    fn clone(&self) -> (copy: Self)
        ensures
            copy == *self,
        decreases self,
    {
        match self {
            QueryError::NotFound(role) => QueryError::NotFound(*role),
            QueryError::UnsupportedBackend(role) => QueryError::UnsupportedBackend(*role),
            QueryError::DbQueryFailed(inner) => {
                let cause: QueryError = (**inner).clone();
                QueryError::DbQueryFailed(Box::new(cause))
            },
        }
    }
}

} // verus!
