//! A tiered lookup engine: a key is resolved by a fast cache tier first and by
//! the authoritative database tier only when the cache misses.
//!
//! Every executable function in this crate carries a contract that Verus
//! proves; the laws that relate them are public proof functions of
//! [`laws`].

pub mod cache;
pub mod db;
pub mod engine;
pub mod error;
pub mod laws;

pub use cache::{CacheQuery, LocalCacheQuery, RedisCacheQuery};
pub use db::{DbQuery, LocalDbQuery, MySqlDbQuery};
pub use engine::{
    cache_query, db_query, db_verdict, query_order, EngineType, QueryConfig, QueryEngine,
    QueryType,
};
pub use error::{QueryError, Role};
