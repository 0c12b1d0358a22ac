//! Backends that can serve the database role.

use vstd::prelude::*;
use crate::error::{QueryError, Role};

verus! {

/// The capability of a database-role backend: resolve a key to a value, or miss.
///
/// A backend is described by `stored`, a function of the key alone, so a
/// lookup is deterministic and has no effect beyond its result.
pub trait DbQuery<T: View, R: View> {
    /// The value the backend holds for `id`, if it recognizes the key.
    spec fn stored(&self, id: T::V) -> Option<R::V>;

    /// Looks `id` up: the held value, or `NotFound` for the database role.
    fn db_query(&self, id: &T) -> (res: Result<R, QueryError>)
        ensures
            match res {
                Ok(value) => self.stored(id@) == Some(value@),
                Err(e) => self.stored(id@) is None && e == QueryError::NotFound(Role::Db),
            },
    ;
}

/// An in-process store keyed by integers.
pub struct LocalDbQuery;

impl DbQuery<i32, String> for LocalDbQuery {
    open spec fn stored(&self, id: i32) -> Option<Seq<char>> {
        if id == 1 {
            Some("db from local"@)
        } else {
            None
        }
    }

    fn db_query(&self, id: &i32) -> (res: Result<String, QueryError>) {
        if *id == 1 {
            Ok(String::from_str("db from local"))
        } else {
            Err(QueryError::NotFound(Role::Db))
        }
    }
}

/// A remote-style database keyed by strings.
pub struct MySqlDbQuery;

impl DbQuery<String, String> for MySqlDbQuery {
    open spec fn stored(&self, id: Seq<char>) -> Option<Seq<char>> {
        if id == "1"@ {
            Some("db from mysql"@)
        } else {
            None
        }
    }

    fn db_query(&self, id: &String) -> (res: Result<String, QueryError>) {
        if *id == String::from_str("1") {
            Ok(String::from_str("db from mysql"))
        } else {
            Err(QueryError::NotFound(Role::Db))
        }
    }
}

} // verus!
