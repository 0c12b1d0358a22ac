//! The dispatcher and the router of the tiered lookup.
//!
//! The router ([`cache_query`], [`db_query`]) turns a configuration into a
//! call of the backend that serves the role. The dispatcher
//! ([`query_order`]) runs the fallback protocol over any two operations.

use vstd::prelude::*;
use crate::cache::{CacheQuery, LocalCacheQuery, RedisCacheQuery};
use crate::db::{DbQuery, LocalDbQuery, MySqlDbQuery};
use crate::error::{QueryError, Role};

verus! {

/// Two resolution operations bound together: `cache` is tried first, `db` is
/// the fallback. Each is any `Fn(&T) -> Result<R, QueryError>`: a function, or
/// a closure over a backend.
pub struct QueryEngine<C, D> {
    pub cache: C,
    pub db: D,
}

/// The closed set of backend kinds a configuration can name.
#[derive(Debug, Clone, Copy, PartialEq, Eq, Structural)]
pub enum EngineType {
    Local,
    Redis,
    MySql,
    Oracle,
    Other,
}

/// Which backend kind serves the cache role and which the database role.
#[derive(Debug, Clone, Copy, PartialEq, Eq, Structural)]
pub struct QueryConfig {
    pub cache_type: EngineType,
    pub db_type: EngineType,
}

/// A configuration under one of three labels. The label carries no meaning of
/// its own: routing reads only the configuration inside.
#[derive(Debug, Clone, Copy, PartialEq, Eq, Structural)]
pub enum QueryType {
    Default(QueryConfig),
    RedisMySql(QueryConfig),
    RedisOracle(QueryConfig),
}

impl QueryType {
    /// The configuration that this value carries.
    pub open spec fn config_of(&self) -> QueryConfig {
        match self {
            QueryType::Default(config) => *config,
            QueryType::RedisMySql(config) => *config,
            QueryType::RedisOracle(config) => *config,
        }
    }

    /// The configuration that this value carries, whatever its label.
    pub fn config(&self) -> (config: &QueryConfig)
        ensures
            *config == self.config_of(),
    {
        match self {
            QueryType::Default(config) => config,
            QueryType::RedisMySql(config) => config,
            QueryType::RedisOracle(config) => config,
        }
    }
}

/// An outcome with its value seen as a sequence of characters.
pub open spec fn outcome_view(outcome: Result<String, QueryError>) -> Result<Seq<char>, QueryError> {
    match outcome {
        Ok(value) => Ok(value@),
        Err(e) => Err(e),
    }
}

/// What a backend that holds `held` answers in `role`.
pub open spec fn backend_answer(held: Option<Seq<char>>, role: Role) -> Result<
    Seq<char>,
    QueryError,
> {
    match held {
        Some(value) => Ok(value),
        None => Err(QueryError::NotFound(role)),
    }
}

/// What the cache role answers under a configuration that names `kind` for it.
///
/// `Local` and `Redis` are served, each asked for the key it is registered
/// with; every other kind is unsupported.
pub open spec fn cache_route(kind: EngineType) -> Result<Seq<char>, QueryError> {
    match kind {
        EngineType::Local => backend_answer(LocalCacheQuery.cached(1i32), Role::Cache),
        EngineType::Redis => backend_answer(RedisCacheQuery.cached("1"@), Role::Cache),
        _ => Err(QueryError::UnsupportedBackend(Role::Cache)),
    }
}

/// What the database role answers under a configuration that names `kind` for
/// it.
///
/// `Local` and `MySql` are served, each asked for the key it is registered
/// with; every other kind is unsupported.
pub open spec fn db_route(kind: EngineType) -> Result<Seq<char>, QueryError> {
    match kind {
        EngineType::Local => backend_answer(LocalDbQuery.stored(1i32), Role::Db),
        EngineType::MySql => backend_answer(MySqlDbQuery.stored("1"@), Role::Db),
        _ => Err(QueryError::UnsupportedBackend(Role::Db)),
    }
}

fn handle_cache_query<B: CacheQuery<K, String>, K: View>(cache: B, id: K) -> (res: Result<
    String,
    QueryError,
>)
    ensures
        outcome_view(res) == backend_answer(cache.cached(id@), Role::Cache),
{
    cache.cache_query(&id)
}

fn handle_db_query<B: DbQuery<K, String>, K: View>(db: B, id: K) -> (res: Result<
    String,
    QueryError,
>)
    ensures
        outcome_view(res) == backend_answer(db.stored(id@), Role::Db),
{
    db.db_query(&id)
}

/// Resolves the cache role of `query_type`.
///
/// The backend that the configuration names for the cache is asked for its
/// registered key. A kind with no cache backend gives `UnsupportedBackend`.
pub fn cache_query(query_type: &QueryType) -> (res: Result<String, QueryError>)
    ensures
        outcome_view(res) == cache_route(query_type.config_of().cache_type),
{
    match query_type.config().cache_type {
        EngineType::Local => handle_cache_query(LocalCacheQuery, 1i32),
        EngineType::Redis => handle_cache_query(RedisCacheQuery, String::from_str("1")),
        _ => Err(QueryError::UnsupportedBackend(Role::Cache)),
    }
}

/// Resolves the database role of `query_type`.
///
/// The backend that the configuration names for the database is asked for its
/// registered key. A kind with no database backend gives `UnsupportedBackend`.
pub fn db_query(query_type: &QueryType) -> (res: Result<String, QueryError>)
    ensures
        outcome_view(res) == db_route(query_type.config_of().db_type),
{
    match query_type.config().db_type {
        EngineType::Local => handle_db_query(LocalDbQuery, 1i32),
        EngineType::MySql => handle_db_query(MySqlDbQuery, String::from_str("1")),
        _ => Err(QueryError::UnsupportedBackend(Role::Db)),
    }
}

/// What the lookup ends in once the database tier has answered `outcome`: its
/// value, or its failure wrapped as the cause of `DbQueryFailed`.
pub open spec fn db_verdict_of<R>(outcome: Result<R, QueryError>) -> Result<R, QueryError> {
    match outcome {
        Ok(value) => Ok(value),
        Err(cause) => Err(QueryError::DbQueryFailed(Box::new(cause))),
    }
}

/// Ends a lookup on the database tier's answer: a value passes through, a
/// failure becomes the cause of `DbQueryFailed`.
pub fn db_verdict<R>(outcome: Result<R, QueryError>) -> (res: Result<R, QueryError>)
    ensures
        res == db_verdict_of(outcome),
{
    match outcome {
        Ok(value) => Ok(value),
        Err(cause) => Err(QueryError::DbQueryFailed(Box::new(cause))),
    }
}

/// Whether the cache operation of `engine` can miss on `id`.
pub open spec fn cache_may_miss<T, R, C, D>(engine: &QueryEngine<C, D>, id: &T) -> bool where
    C: Fn(&T) -> Result<R, QueryError>,
    D: Fn(&T) -> Result<R, QueryError>,
{
    exists|miss: QueryError| call_ensures(engine.cache, (id,), Err::<R, QueryError>(miss))
}

/// Whether `res` is an outcome of the fallback protocol on `id`.
///
/// Either the cache answered with a value and `res` is that value, or the
/// cache failed in some way that `res` does not show, the database was asked,
/// and `res` is the verdict on its answer.
pub open spec fn resolves<T, R, C, D>(
    engine: &QueryEngine<C, D>,
    id: &T,
    res: Result<R, QueryError>,
) -> bool where C: Fn(&T) -> Result<R, QueryError>, D: Fn(&T) -> Result<R, QueryError> {
    ||| res is Ok && call_ensures(engine.cache, (id,), res)
    ||| cache_may_miss(engine, id) && exists|answer: Result<R, QueryError>|
        call_ensures(engine.db, (id,), answer) && res == db_verdict_of(answer)
}

/// Looks `id` up: the cache first, the database only if the cache fails.
///
/// The database operation has to accept `id` only if the cache can miss: on a
/// key the cache always answers, the database is never called, whatever its
/// own precondition.
pub fn query_order<T, R, C, D>(engine: &QueryEngine<C, D>, id: &T) -> (res: Result<
    R,
    QueryError,
>) where C: Fn(&T) -> Result<R, QueryError>, D: Fn(&T) -> Result<R, QueryError>
    requires
        call_requires(engine.cache, (id,)),
        cache_may_miss(engine, id) ==> call_requires(engine.db, (id,)),
    ensures
        resolves(engine, id, res),
{
    match (engine.cache)(id) {
        Ok(value) => {
            return Ok(value);
        },
        Err(_) => {},
    }
    db_verdict((engine.db)(id))
}

} // verus!
