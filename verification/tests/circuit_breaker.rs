use repository_kit::circuit_breaker::{admission, BreakerResponse};
use repository_kit::{CircuitBreaker, CircuitBreakerConfig, CircuitBreakerState, RepositoryError};

fn config(threshold: u32) -> CircuitBreakerConfig {
    CircuitBreakerConfig { failure_threshold: threshold, backoff_initial_secs: 10, backoff_max_secs: 60 }
}

#[test]
fn default_config_values() {
    let c = CircuitBreakerConfig::default();
    assert_eq!(c.failure_threshold, 5);
    assert_eq!(c.backoff_initial_secs, 10);
    assert_eq!(c.backoff_max_secs, 60);
}

#[test]
fn state_from_open_flag() {
    assert_eq!(CircuitBreakerState::from_open(true), CircuitBreakerState::Open);
    assert_eq!(CircuitBreakerState::from_open(false), CircuitBreakerState::Closed);
}

#[test]
fn admission_refuses_with_service_name() {
    assert!(admission("db", false).is_ok());
    match admission("db", true) {
        Err(RepositoryError::CircuitBreakerOpen(m)) => {
            assert_eq!(m, "service 'db' is temporarily unavailable")
        }
        other => panic!("unexpected {:?}", other),
    }
}

#[test]
fn new_breaker_is_closed_and_admits() {
    let cb = CircuitBreaker::new("db", CircuitBreakerConfig::default());
    assert_eq!(cb.state(), CircuitBreakerState::Closed);
    assert!(cb.begin_call().is_ok());
}

#[test]
fn finish_call_hands_result_back() {
    let cb = CircuitBreaker::new("db", config(3));
    let (ok, answer) = cb.finish_call::<u32, String>(Ok(7));
    assert_eq!(ok, Ok(7));
    assert_eq!(answer, BreakerResponse::Passed);
    let (err, answer) = cb.finish_call::<u32, String>(Err("bad".to_string()));
    assert_eq!(err, Err("bad".to_string()));
    assert_eq!(answer, BreakerResponse::Failed);
}

#[test]
fn failures_recorded_without_probes_open_breaker() {
    let cb = CircuitBreaker::new("cache", config(2));
    let _ = cb.finish_call::<(), ()>(Err(()));
    let (_, answer) = cb.finish_call::<(), ()>(Err(()));
    assert_eq!(answer, BreakerResponse::Failed);
    assert_eq!(cb.state(), CircuitBreakerState::Open);
    match cb.begin_call() {
        Err(RepositoryError::CircuitBreakerOpen(m)) => {
            assert_eq!(m, "service 'cache' is temporarily unavailable")
        }
        other => panic!("unexpected {:?}", other),
    }
}

#[test]
fn success_resets_consecutive_failures() {
    let cb = CircuitBreaker::new("db", config(2));
    let _ = cb.finish_call::<(), ()>(Err(()));
    let _ = cb.finish_call::<(), ()>(Ok(()));
    let _ = cb.finish_call::<(), ()>(Err(()));
    assert_eq!(cb.state(), CircuitBreakerState::Closed);
}

#[test]
fn clones_share_one_breaker() {
    let cb = CircuitBreaker::new("db", config(1));
    let other = cb.clone();
    let _ = cb.finish_call::<(), ()>(Err(()));
    assert_eq!(other.state(), CircuitBreakerState::Open);
}

#[test]
fn open_breaker_answers_rejected_when_recording() {
    let cb = CircuitBreaker::new("db", config(1));
    let (_, first) = cb.finish_call::<(), ()>(Err(()));
    assert_eq!(first, BreakerResponse::Failed);
    let (r, second) = cb.finish_call::<(), ()>(Err(()));
    assert_eq!(r, Err(()));
    assert_eq!(second, BreakerResponse::Rejected);
}

#[test]
fn guarded_failures_are_reset_by_each_probe() {
    // Every guarded call first probes the breaker, which counts as a success,
    // so with a threshold of two, failing guarded calls one after another
    // never open it.
    let cb = CircuitBreaker::new("db", config(2));
    for _ in 0..5 {
        assert!(cb.begin_call().is_ok());
        let _ = cb.finish_call::<(), ()>(Err(()));
    }
    assert_eq!(cb.state(), CircuitBreakerState::Closed);
}

#[test]
fn large_maximum_with_small_start_is_accepted() {
    let cb = CircuitBreaker::new(
        "db",
        CircuitBreakerConfig { failure_threshold: 1, backoff_initial_secs: 10, backoff_max_secs: 1 << 40 },
    );
    let _ = cb.finish_call::<(), ()>(Err(()));
    assert_eq!(cb.state(), CircuitBreakerState::Open);
}

#[test]
fn answers_accompany_state_and_admission() {
    let cb = CircuitBreaker::new("db", config(1));
    let (state, answer) = cb.state_with_answer();
    assert_eq!(state, CircuitBreakerState::Closed);
    assert_eq!(answer, BreakerResponse::Passed);
    let _ = cb.finish_call::<(), ()>(Err(()));
    let (state, answer) = cb.state_with_answer();
    assert_eq!(state, CircuitBreakerState::Open);
    assert_eq!(answer, BreakerResponse::Rejected);
    let (admitted, answer) = cb.begin_call_with_answer();
    assert!(admitted.is_err());
    assert_eq!(answer, BreakerResponse::Rejected);
}
