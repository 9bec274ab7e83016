use repository_kit::RepositoryError;

#[test]
fn error_texts_name_their_kind() {
    let cases = vec![
        (RepositoryError::Pool("p".to_string()), "pool error: p"),
        (RepositoryError::Query("q".to_string()), "query error: q"),
        (RepositoryError::Redis("r".to_string()), "redis error: r"),
        (RepositoryError::Cache("c".to_string()), "cache error: c"),
        (RepositoryError::CircuitBreakerOpen("o".to_string()), "circuit breaker open: o"),
        (RepositoryError::InvalidQuery("i".to_string()), "invalid query: i"),
    ];
    for (e, text) in cases {
        assert_eq!(e.to_string(), text);
    }
}

#[test]
fn pool_error_becomes_pool_variant() {
    let e = RepositoryError::from(deadpool_postgres::PoolError::Closed);
    match &e {
        RepositoryError::Pool(m) => assert_eq!(m, "Pool has been closed"),
        other => panic!("unexpected {:?}", other),
    }
    assert_eq!(e.to_string(), "pool error: Pool has been closed");
}

#[test]
fn redis_error_becomes_redis_variant() {
    let raw = redis::RedisError::from((redis::ErrorKind::Io, "boom"));
    let e = RepositoryError::from(raw);
    match &e {
        RepositoryError::Redis(m) => assert_eq!(m, "boom - Io"),
        other => panic!("unexpected {:?}", other),
    }
    assert_eq!(e.to_string(), "redis error: boom - Io");
}

#[test]
fn conversion_keeps_display_text() {
    let raw = redis::RedisError::from((redis::ErrorKind::Parse, "bad reply", "detail".to_string()));
    let text = raw.to_string();
    match RepositoryError::from(raw) {
        RepositoryError::Redis(m) => assert_eq!(m, text),
        other => panic!("unexpected {:?}", other),
    }
}
