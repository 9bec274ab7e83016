//! The error type shared by every repository operation.
use vstd::prelude::*;
use vstd::string::*;

use deadpool_postgres::PoolError;
use vstd::std_specs::convert::FromSpecImpl;

verus! {

/// What went wrong in a repository operation; each variant carries a message.
#[derive(Debug)]
pub enum RepositoryError {
    Pool(String),
    Query(String),
    Redis(String),
    Cache(String),
    CircuitBreakerOpen(String),
    InvalidQuery(String),
}

impl RepositoryError {
    /// The human-readable rendering: a fixed prefix naming the kind of
    /// failure, then the carried message.
    pub open spec fn text(&self) -> Seq<char> {
        match self {
            RepositoryError::Pool(m) => "pool error: "@ + m@,
            RepositoryError::Query(m) => "query error: "@ + m@,
            RepositoryError::Redis(m) => "redis error: "@ + m@,
            RepositoryError::Cache(m) => "cache error: "@ + m@,
            RepositoryError::CircuitBreakerOpen(m) => "circuit breaker open: "@ + m@,
            RepositoryError::InvalidQuery(m) => "invalid query: "@ + m@,
        }
    }

    /// Renders the error as text, for instance `invalid query: table name is required`.
    pub fn to_string(&self) -> (r: String)
        ensures
            r@ == self.text(),
    {
        let (prefix, m) = match self {
            RepositoryError::Pool(m) => ("pool error: ", m),
            RepositoryError::Query(m) => ("query error: ", m),
            RepositoryError::Redis(m) => ("redis error: ", m),
            RepositoryError::Cache(m) => ("cache error: ", m),
            RepositoryError::CircuitBreakerOpen(m) => ("circuit breaker open: ", m),
            RepositoryError::InvalidQuery(m) => ("invalid query: ", m),
        };
        let mut r = prefix.to_owned();
        r.append(m.as_str());
        r
    }
}


#[verifier::external_type_specification]
#[verifier::external_body]
#[verifier::reject_recursive_types(E)]
pub struct ExPoolError<E>(deadpool::managed::PoolError<E>);

#[verifier::external_type_specification]
#[verifier::external_body]
pub struct ExPostgresError(tokio_postgres::Error);

#[verifier::external_type_specification]
#[verifier::external_body]
pub struct ExRedisError(redis::RedisError);

/// The `Display` text of a pool error.
pub uninterp spec fn pool_error_display(e: PoolError) -> Seq<char>;

/// The `Display` text of a PostgreSQL error.
pub uninterp spec fn postgres_error_display(e: tokio_postgres::Error) -> Seq<char>;


/// `to_string` of a `deadpool_postgres::PoolError`: its `Display` text,
/// named `pool_error_display`.
#[verifier::external_body]
fn pool_error_text(e: &PoolError) -> (r: String)
    ensures
        r@ == pool_error_display(*e),
{
    e.to_string()
}

/// `to_string` of a `tokio_postgres::Error`: its `Display` text, named
/// `postgres_error_display`.
#[verifier::external_body]
fn postgres_error_text(e: &tokio_postgres::Error) -> (r: String)
    ensures
        r@ == postgres_error_display(*e),
{
    e.to_string()
}

/// `to_string` of a `redis::RedisError`. Nothing is stated of the text: an
/// error that wraps an operating-system error renders that error's
/// description, which the process locale chooses, so the same value need
/// not render the same way twice.
#[verifier::external_body]
fn redis_error_text(e: &redis::RedisError) -> String {
    e.to_string()
}

impl From<PoolError> for RepositoryError {
    /// A `Pool` error carrying the pool error's text.
    fn from(e: PoolError) -> (r: Self)
        ensures
            r matches RepositoryError::Pool(m) && m@ == pool_error_display(e),
    {
        RepositoryError::Pool(pool_error_text(&e))
    }
}

impl FromSpecImpl<PoolError> for RepositoryError {
    open spec fn obeys_from_spec() -> bool {
        false
    }

    open spec fn from_spec(v: PoolError) -> RepositoryError {
        arbitrary()
    }
}

impl From<tokio_postgres::Error> for RepositoryError {
    /// A `Query` error carrying the database error's text.
    fn from(e: tokio_postgres::Error) -> (r: Self)
        ensures
            r matches RepositoryError::Query(m) && m@ == postgres_error_display(e),
    {
        RepositoryError::Query(postgres_error_text(&e))
    }
}

impl FromSpecImpl<tokio_postgres::Error> for RepositoryError {
    open spec fn obeys_from_spec() -> bool {
        false
    }

    open spec fn from_spec(v: tokio_postgres::Error) -> RepositoryError {
        arbitrary()
    }
}

impl From<redis::RedisError> for RepositoryError {
    /// A `Redis` error carrying the Redis error's text as rendered now.
    fn from(e: redis::RedisError) -> (r: Self)
        ensures
            r is Redis,
    {
        RepositoryError::Redis(redis_error_text(&e))
    }
}

impl FromSpecImpl<redis::RedisError> for RepositoryError {
    open spec fn obeys_from_spec() -> bool {
        false
    }

    open spec fn from_spec(v: redis::RedisError) -> RepositoryError {
        arbitrary()
    }
}

} // verus!
