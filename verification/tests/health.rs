use repository_kit::health::{database_health, health_from_outcome, redis_health, HEALTH_CHECK_TIMEOUT_SECS};
use repository_kit::{CheckOutcome, HealthReport, HealthStatus, ServiceHealth};

fn health(status: HealthStatus) -> ServiceHealth {
    ServiceHealth { status, message: String::new(), response_time_ms: None }
}

#[test]
fn successful_check_is_healthy() {
    let h = health_from_outcome("Database", CheckOutcome::Succeeded, 12);
    assert_eq!(h.status, HealthStatus::Healthy);
    assert_eq!(h.message, "Database connection successful");
    assert_eq!(h.response_time_ms, Some(12));
}

#[test]
fn failed_check_carries_error_text() {
    let h = health_from_outcome("Redis", CheckOutcome::Failed("refused".to_string()), 3);
    assert_eq!(h.status, HealthStatus::Unhealthy);
    assert_eq!(h.message, "Redis error: refused");
    assert_eq!(h.response_time_ms, Some(3));
}

#[test]
fn timed_out_check_has_no_time() {
    let h = health_from_outcome("Api", CheckOutcome::TimedOut, 5000);
    assert_eq!(h.status, HealthStatus::Unhealthy);
    assert_eq!(h.message, "Api connection timeout");
    assert_eq!(h.response_time_ms, None);
}

#[test]
fn named_checks() {
    assert_eq!(database_health(CheckOutcome::Succeeded, 1).message, "Database connection successful");
    assert_eq!(redis_health(CheckOutcome::TimedOut, 1).message, "Redis connection timeout");
    assert_eq!(HEALTH_CHECK_TIMEOUT_SECS, 5);
}

#[test]
fn empty_report_is_healthy() {
    assert!(HealthReport::new().is_healthy());
    assert!(HealthReport::default().entries().is_empty());
}

#[test]
fn one_unhealthy_service_makes_report_unhealthy() {
    let mut r = HealthReport::new();
    r.insert("database".to_string(), health(HealthStatus::Healthy));
    assert!(r.is_healthy());
    r.insert("redis".to_string(), health(HealthStatus::Unhealthy));
    assert!(!r.is_healthy());
    assert_eq!(r.entries().len(), 2);
}

#[test]
fn later_verdict_replaces_earlier() {
    let mut r = HealthReport::new();
    r.insert("redis".to_string(), health(HealthStatus::Unhealthy));
    r.insert("redis".to_string(), health(HealthStatus::Healthy));
    assert!(r.is_healthy());
    assert_eq!(r.entries().len(), 1);
    assert_eq!(r.entries()[0].0, "redis");
}

#[test]
fn entries_come_in_name_order() {
    let mut r = HealthReport::new();
    r.insert("redis".to_string(), health(HealthStatus::Healthy));
    r.insert("database".to_string(), health(HealthStatus::Healthy));
    r.insert("api".to_string(), health(HealthStatus::Unhealthy));
    r.insert("db".to_string(), health(HealthStatus::Healthy));
    r.insert("Zed".to_string(), health(HealthStatus::Healthy));
    let names: Vec<&str> = r.entries().iter().map(|e| e.0.as_str()).collect();
    assert_eq!(names, vec!["Zed", "api", "database", "db", "redis"]);
}

#[test]
fn lookup_by_name() {
    let mut r = HealthReport::new();
    assert!(r.get("redis").is_none());
    r.insert("redis".to_string(), health(HealthStatus::Unhealthy));
    r.insert("database".to_string(), health(HealthStatus::Healthy));
    assert_eq!(r.get("redis").map(|h| h.status), Some(HealthStatus::Unhealthy));
    assert_eq!(r.get("database").map(|h| h.status), Some(HealthStatus::Healthy));
    assert!(r.get("data").is_none());
}
