//! Building blocks for database repositories: builders for parameterised
//! PostgreSQL statements, a circuit breaker in front of outside services,
//! and health reporting for the services a repository depends on.
pub mod circuit_breaker;
pub mod error;
pub mod health;
pub mod postgres;
pub mod query_builder;
pub mod query_laws;
pub mod text;

pub use circuit_breaker::{CircuitBreaker, CircuitBreakerConfig, CircuitBreakerState};
pub use error::RepositoryError;
pub use health::{CheckOutcome, HealthReport, HealthStatus, ServiceHealth};
pub use postgres::FromRow;
pub use query_builder::{DeleteBuilder, InsertBuilder, OrderDirection, SelectBuilder, UpdateBuilder};
