//! Laws of the fallback protocol, each proved from the contracts of
//! [`crate::engine`].

use vstd::prelude::*;
use crate::engine::{
    cache_may_miss, cache_query, cache_route, db_query, db_route, db_verdict_of, outcome_view,
    resolves, QueryConfig, QueryEngine, QueryType,
};
use crate::error::QueryError;

verus! {

/// Whether `op` answers `id` with a value whenever it answers.
pub open spec fn recognizes<T, R, F: Fn(&T) -> Result<R, QueryError>>(op: F, id: &T) -> bool {
    forall|answer: Result<R, QueryError>| call_ensures(op, (id,), answer) ==> answer is Ok
}

/// Whether `op` fails on `id` whenever it answers.
pub open spec fn rejects<T, R, F: Fn(&T) -> Result<R, QueryError>>(op: F, id: &T) -> bool {
    forall|answer: Result<R, QueryError>| call_ensures(op, (id,), answer) ==> answer is Err
}

/// Whether `op` has at most one answer to `id`.
pub open spec fn single_valued<T, R, F: Fn(&T) -> Result<R, QueryError>>(op: F, id: &T) -> bool {
    forall|first: Result<R, QueryError>, second: Result<R, QueryError>|
        call_ensures(op, (id,), first) && call_ensures(op, (id,), second) ==> first == second
}

/// On a key that the cache recognizes, a lookup returns an answer of the
/// cache, and the cache cannot miss, so the lookup asks nothing of the
/// database operation.
pub proof fn lemma_cache_hit_wins<T, R, C, D>(
    engine: &QueryEngine<C, D>,
    id: &T,
    res: Result<R, QueryError>,
) where C: Fn(&T) -> Result<R, QueryError>, D: Fn(&T) -> Result<R, QueryError>
    requires
        recognizes(engine.cache, id),
        resolves(engine, id, res),
    ensures
        res is Ok,
        call_ensures(engine.cache, (id,), res),
        !cache_may_miss(engine, id),
{
}

/// On a key that the cache rejects and the database recognizes, a lookup
/// returns an answer of the database.
pub proof fn lemma_cache_miss_db_hit<T, R, C, D>(
    engine: &QueryEngine<C, D>,
    id: &T,
    res: Result<R, QueryError>,
) where C: Fn(&T) -> Result<R, QueryError>, D: Fn(&T) -> Result<R, QueryError>
    requires
        rejects(engine.cache, id),
        recognizes(engine.db, id),
        resolves(engine, id, res),
    ensures
        res is Ok,
        call_ensures(engine.db, (id,), res),
{
}

/// On a key that both tiers reject, a lookup fails with `DbQueryFailed`, and
/// the cause is a failure of the database; no failure of the cache shows.
pub proof fn lemma_both_miss<T, R, C, D>(
    engine: &QueryEngine<C, D>,
    id: &T,
    res: Result<R, QueryError>,
) where C: Fn(&T) -> Result<R, QueryError>, D: Fn(&T) -> Result<R, QueryError>
    requires
        rejects(engine.cache, id),
        rejects(engine.db, id),
        resolves(engine, id, res),
    ensures
        res is Err,
        res->Err_0 is DbQueryFailed,
        call_ensures(engine.db, (id,), Err::<R, QueryError>(*res->Err_0->DbQueryFailed_0)),
{
}

/// Lookups keep no state: where each tier has one answer to a key, any two
/// lookups of that key end the same way.
pub proof fn lemma_lookup_repeats<T, R, C, D>(
    engine: &QueryEngine<C, D>,
    id: &T,
    first: Result<R, QueryError>,
    second: Result<R, QueryError>,
) where C: Fn(&T) -> Result<R, QueryError>, D: Fn(&T) -> Result<R, QueryError>
    requires
        single_valued(engine.cache, id),
        single_valued(engine.db, id),
        resolves(engine, id, first),
        resolves(engine, id, second),
    ensures
        first == second,
{
}

/// What a lookup through the two routers ends in under `config`.
pub open spec fn routed_lookup(config: QueryConfig) -> Result<Seq<char>, QueryError> {
    match cache_route(config.cache_type) {
        Ok(value) => Ok(value),
        Err(_) => db_verdict_of(db_route(config.db_type)),
    }
}

/// A lookup through the two routers is a function of the configuration
/// alone: it ends as `routed_lookup` says, every time.
pub proof fn lemma_routed_lookup(query_type: &QueryType, res: Result<String, QueryError>)
    requires
        resolves(&(QueryEngine { cache: cache_query, db: db_query }), query_type, res),
    ensures
        outcome_view(res) == routed_lookup(query_type.config_of()),
{
}

} // verus!
