//! Backends that can serve the cache role.

use vstd::prelude::*;
use crate::error::{QueryError, Role};

verus! {

/// The capability of a cache-role backend: resolve a key to a value, or miss.
///
/// A backend is described by `cached`, a function of the key alone, so a
/// lookup is deterministic and has no effect beyond its result.
pub trait CacheQuery<T: View, R: View> {
    /// The value the backend holds for `id`, if it recognizes the key.
    spec fn cached(&self, id: T::V) -> Option<R::V>;

    /// Looks `id` up: the held value, or `NotFound` for the cache role.
    fn cache_query(&self, id: &T) -> (res: Result<R, QueryError>)
        ensures
            match res {
                Ok(value) => self.cached(id@) == Some(value@),
                Err(e) => self.cached(id@) is None && e == QueryError::NotFound(Role::Cache),
            },
    ;
}

/// An in-process cache keyed by integers.
pub struct LocalCacheQuery;

impl CacheQuery<i32, String> for LocalCacheQuery {
    open spec fn cached(&self, id: i32) -> Option<Seq<char>> {
        if id == 1 {
            Some("cache from local"@)
        } else {
            None
        }
    }

    fn cache_query(&self, id: &i32) -> (res: Result<String, QueryError>) {
        if *id == 1 {
            Ok(String::from_str("cache from local"))
        } else {
            Err(QueryError::NotFound(Role::Cache))
        }
    }
}

/// A remote-style cache keyed by strings.
pub struct RedisCacheQuery;

impl CacheQuery<String, String> for RedisCacheQuery {
    open spec fn cached(&self, id: Seq<char>) -> Option<Seq<char>> {
        if id == "1"@ {
            Some("cache from redis"@)
        } else {
            None
        }
    }

    fn cache_query(&self, id: &String) -> (res: Result<String, QueryError>) {
        if *id == String::from_str("1") {
            Ok(String::from_str("cache from redis"))
        } else {
            Err(QueryError::NotFound(Role::Cache))
        }
    }
}

} // verus!
