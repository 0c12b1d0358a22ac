use rust_core_journey::{
    cache_query, db_query, query_order, EngineType, QueryConfig, QueryEngine, QueryError,
    QueryType,
};

#[test]
fn test_query_local_local() -> Result<(), QueryError> {
    let query_engine = QueryEngine {
        cache: cache_query,
        db: db_query,
    };

    let config = QueryConfig {
        cache_type: EngineType::Local,
        db_type: EngineType::Local,
    };
    let result = query_order(&query_engine, &QueryType::Default(config))?;
    assert_eq!(result, String::from("cache from local"));

    Ok(())
}

#[test]
fn test_query_redis_mysql() -> Result<(), QueryError> {
    let query_engine = QueryEngine {
        cache: cache_query,
        db: db_query,
    };

    let config = QueryConfig {
        cache_type: EngineType::Redis,
        db_type: EngineType::MySql,
    };
    let result = query_order(&query_engine, &QueryType::RedisMySql(config))?;
    assert_eq!(result, String::from("cache from redis"));

    Ok(())
}

#[test]
fn test_query_other_mysql() -> Result<(), QueryError> {
    let query_engine = QueryEngine {
        cache: cache_query,
        db: db_query,
    };

    let config = QueryConfig {
        cache_type: EngineType::Other,
        db_type: EngineType::MySql,
    };
    let result = query_order(&query_engine, &QueryType::Default(config))?;
    assert_eq!(result, String::from("db from mysql"));

    Ok(())
}

#[test]
fn test_query_other_oracle() -> Result<(), QueryError> {
    let query_engine = QueryEngine {
        cache: cache_query,
        db: db_query,
    };

    let config = QueryConfig {
        cache_type: EngineType::Other,
        db_type: EngineType::Oracle,
    };
    match query_order(&query_engine, &QueryType::Default(config)) {
        Err(e) => assert_eq!(e.message(), "Database query failed"),
        Ok(_) => {}
    }
    Ok(())
}

#[test]
fn test_query_other_other() -> Result<(), QueryError> {
    let query_engine = QueryEngine {
        cache: cache_query,
        db: db_query,
    };

    let config = QueryConfig {
        cache_type: EngineType::Other,
        db_type: EngineType::Other,
    };
    match query_order(&query_engine, &QueryType::Default(config)) {
        Err(e) => assert_eq!(e.message(), "Database query failed"),
        Ok(_) => {}
    }
    Ok(())
}

#[test]
fn test_query() -> Result<(), QueryError> {
    let query_engine = QueryEngine {
        cache: cache_query,
        db: db_query,
    };

    let cfg = QueryConfig {
        cache_type: EngineType::Local,
        db_type: EngineType::Local,
    };

    assert_eq!(
        query_order(&query_engine, &QueryType::Default(cfg))?,
        String::from("cache from local")
    );

    let cfg = QueryConfig {
        cache_type: EngineType::Local,
        db_type: EngineType::MySql,
    };
    assert_eq!(
        query_order(&query_engine, &QueryType::Default(cfg))?,
        String::from("cache from local")
    );
    let cfg = QueryConfig {
        cache_type: EngineType::Local,
        db_type: EngineType::Local,
    };
    match query_order(&query_engine, &QueryType::Default(cfg)) {
        Err(e) => assert_eq!(e.message(), "Database query failed"),
        Ok(_) => {}
    }

    Ok(())
}
