//! A named circuit breaker in front of an outside service.
//!
//! The breaker itself is failsafe's state machine with a consecutive-failures
//! policy and an equal-jittered backoff. This module decides, from what the
//! state machine answers, whether a call may go ahead, what a refused caller
//! is told, and what is recorded once the call has finished.
use std::sync::Arc;

use failsafe::backoff::{EqualJittered, ThreadLocalGenRange};
use failsafe::failure_policy::ConsecutiveFailures;
use failsafe::StateMachine;
use vstd::prelude::*;
use vstd::string::*;

use crate::error::RepositoryError;

verus! {

#[verifier::external_type_specification]
#[verifier::external_body]
#[verifier::reject_recursive_types(POLICY)]
#[verifier::reject_recursive_types(INSTRUMENT)]
pub struct ExStateMachine<POLICY, INSTRUMENT>(StateMachine<POLICY, INSTRUMENT>);

#[verifier::external_type_specification]
#[verifier::external_body]
#[verifier::reject_recursive_types(BACKOFF)]
pub struct ExConsecutiveFailures<BACKOFF>(ConsecutiveFailures<BACKOFF>);

#[verifier::external_type_specification]
#[verifier::external_body]
#[verifier::reject_recursive_types(R)]
pub struct ExEqualJittered<R>(EqualJittered<R>);

#[verifier::external_type_specification]
#[verifier::external_body]
pub struct ExThreadLocalGenRange(ThreadLocalGenRange);

/// The state of a breaker as its users see it.
#[derive(Debug, Clone, Copy, PartialEq, Eq, Structural)]
pub enum CircuitBreakerState {
    Closed,
    Open,
}

impl CircuitBreakerState {
    /// `Open` when the breaker refuses calls, `Closed` when it lets them through.
    pub fn from_open(open: bool) -> (r: Self)
        ensures
            r == (if open {
                CircuitBreakerState::Open
            } else {
                CircuitBreakerState::Closed
            }),
    {
        if open {
            CircuitBreakerState::Open
        } else {
            CircuitBreakerState::Closed
        }
    }
}

/// How many consecutive failures open the breaker, and the bounds, in
/// seconds, of the backoff before it lets a call through again.
#[derive(Debug, Clone, Copy)]
pub struct CircuitBreakerConfig {
    pub failure_threshold: u32,
    pub backoff_initial_secs: u64,
    pub backoff_max_secs: u64,
}

impl Default for CircuitBreakerConfig {
    /// Five failures; a backoff from ten seconds up to a minute.
    fn default() -> (r: Self)
        ensures
            r.failure_threshold == 5,
            r.backoff_initial_secs == 10,
            r.backoff_max_secs == 60,
    {
        CircuitBreakerConfig { failure_threshold: 5, backoff_initial_secs: 10, backoff_max_secs: 60 }
    }
}

/// What failsafe's state machine answered to one call.
#[derive(Debug, Clone, Copy, PartialEq, Eq, Structural)]
pub enum BreakerResponse {
    /// The call was let through and succeeded.
    Passed,
    /// The call was refused without being run.
    Rejected,
    /// The call was let through and failed.
    Failed,
}

impl BreakerResponse {
    /// Whether the state machine refused the call.
    pub fn refuses(&self) -> (r: bool)
        ensures
            r == (*self is Rejected),
    {
        match self {
            BreakerResponse::Rejected => true,
            _ => false,
        }
    }
}

/// The outcome handed to the state machine: success or failure.
fn call_outcome(succeeded: bool) -> (r: Result<(), ()>)
    ensures
        r is Ok <==> succeeded,
{
    if succeeded {
        Ok(())
    } else {
        Err(())
    }
}

/// failsafe multiplies the first backoff bound by up to 2^30 in `u64`.
pub const BACKOFF_GROWTH: u64 = 1_073_741_824;

/// The longest delay, in seconds, that can be added to the current instant:
/// the monotonic clock counts seconds in an `i64`, far below this bound.
pub const MAX_BACKOFF_DELAY_SECS: u64 = 4_611_686_018_427_387_904;

/// Backoff bounds, in seconds, under which failsafe's arithmetic stays in
/// range: the first bound times 2^30 fits in `u64`, and the longest delay,
/// the smaller of that product and the second bound, can be added to the
/// current instant.
pub open spec fn backoff_bounds_supported(start_secs: u64, max_secs: u64) -> bool {
    &&& start_secs * BACKOFF_GROWTH <= u64::MAX
    &&& (max_secs <= MAX_BACKOFF_DELAY_SECS || start_secs * BACKOFF_GROWTH <= MAX_BACKOFF_DELAY_SECS)
}

/// An equal-jittered backoff and the bounds, in seconds, it was made with.
struct Backoff {
    inner: EqualJittered,
    start_secs: Ghost<u64>,
    max_secs: Ghost<u64>,
}

/// A consecutive-failures policy and the settings it was made with.
struct Policy {
    inner: ConsecutiveFailures<EqualJittered>,
    threshold: Ghost<u32>,
    start_secs: Ghost<u64>,
    max_secs: Ghost<u64>,
}

/// failsafe's state machine and the settings it was built with.
struct BreakerMachine {
    machine: StateMachine<ConsecutiveFailures<EqualJittered>, ()>,
    threshold: Ghost<u32>,
    start_secs: Ghost<u64>,
    max_secs: Ghost<u64>,
}

/// `failsafe::backoff::equal_jittered`, with both bounds given in whole
/// seconds and recorded beside the backoff. The source asserts that both
/// bounds are positive and that the first does not exceed the second, and
/// its later arithmetic overflows outside `backoff_bounds_supported`;
/// `requires` keeps to the other inputs. What the backoff later yields is
/// random and is not stated.
#[verifier::external_body]
fn equal_jittered_backoff(start_secs: u64, max_secs: u64) -> (r: Backoff)
    requires
        0 < start_secs <= max_secs,
        backoff_bounds_supported(start_secs, max_secs),
    ensures
        r.start_secs@ == start_secs,
        r.max_secs@ == max_secs,
{
    Backoff {
        inner: failsafe::backoff::equal_jittered(
            std::time::Duration::from_secs(start_secs),
            std::time::Duration::from_secs(max_secs),
        ),
        start_secs: Ghost(start_secs),
        max_secs: Ghost(max_secs),
    }
}

/// `failsafe::failure_policy::consecutive_failures`: a policy that marks the
/// service dead after `threshold` consecutive failures, using `backoff`. It
/// stores its arguments; the settings are recorded beside it.
#[verifier::external_body]
fn consecutive_failures_policy(threshold: u32, backoff: Backoff) -> (r: Policy)
    ensures
        r.threshold@ == threshold,
        r.start_secs@ == backoff.start_secs@,
        r.max_secs@ == backoff.max_secs@,
{
    let Backoff { inner, start_secs, max_secs } = backoff;
    Policy {
        inner: failsafe::failure_policy::consecutive_failures(threshold, inner),
        threshold: Ghost(threshold),
        start_secs,
        max_secs,
    }
}

/// `failsafe::StateMachine::new` with no instrumentation: a new machine,
/// closed, driven by `policy` (what `Config::new().failure_policy(policy).build()`
/// builds); the policy's settings are recorded beside it.
#[verifier::external_body]
fn new_state_machine(policy: Policy) -> (r: BreakerMachine)
    ensures
        r.threshold@ == policy.threshold@,
        r.start_secs@ == policy.start_secs@,
        r.max_secs@ == policy.max_secs@,
{
    let Policy { inner, threshold, start_secs, max_secs } = policy;
    BreakerMachine { machine: StateMachine::new(inner, ()), threshold, start_secs, max_secs }
}

/// `failsafe::CircuitBreaker::call` on the state machine, with an operation
/// that succeeds exactly when `succeeded`. By failsafe's source the machine
/// either refuses without running the operation, or runs it, records the
/// outcome and hands it back; which of the two happens depends on the
/// machine's history and on the clock, and is not stated. (The machine
/// counts consecutive failures in a `u32`; that count is not bounded here.)
#[verifier::external_body]
fn breaker_call(
    machine: &StateMachine<ConsecutiveFailures<EqualJittered>, ()>,
    succeeded: bool,
) -> (r: BreakerResponse)
    ensures
        r is Rejected || r == (if succeeded {
            BreakerResponse::Passed
        } else {
            BreakerResponse::Failed
        }),
{
    match failsafe::CircuitBreaker::call(machine, || call_outcome(succeeded)) {
        Ok(()) => BreakerResponse::Passed,
        Err(failsafe::Error::Rejected) => BreakerResponse::Rejected,
        Err(failsafe::Error::Inner(())) => BreakerResponse::Failed,
    }
}

/// The message given to a caller that an open breaker refuses.
pub open spec fn unavailable_text(name: Seq<char>) -> Seq<char> {
    "service '"@ + name + "' is temporarily unavailable"@
}

/// Whether a call to the service called `name` may go ahead, given whether
/// its breaker is open: refused with `CircuitBreakerOpen` when open.
pub fn admission(name: &str, open: bool) -> (r: Result<(), RepositoryError>)
    ensures
        !open ==> r is Ok,
        open ==> (r matches Err(RepositoryError::CircuitBreakerOpen(m)) && m@ == unavailable_text(
            name@,
        )),
{
    if open {
        let mut m = "service '".to_owned();
        m.append(name);
        m.append("' is temporarily unavailable");
        Err(RepositoryError::CircuitBreakerOpen(m))
    } else {
        Ok(())
    }
}

/// A circuit breaker for the service called `name`.
#[derive(Clone)]
pub struct CircuitBreaker {
    breaker: Arc<BreakerMachine>,
    name: String,
}

impl CircuitBreaker {
    /// The name of the service the breaker guards.
    pub closed spec fn name(&self) -> Seq<char> {
        self.name@
    }

    /// The number of consecutive failures that opens the breaker.
    pub closed spec fn failure_threshold(&self) -> u32 {
        self.breaker.threshold@
    }

    /// The first backoff bound, in seconds.
    pub closed spec fn backoff_initial_secs(&self) -> u64 {
        self.breaker.start_secs@
    }

    /// The largest backoff, in seconds.
    pub closed spec fn backoff_max_secs(&self) -> u64 {
        self.breaker.max_secs@
    }

    /// A closed breaker for `name`, built from `config`: it opens after
    /// `config.failure_threshold` consecutive failures and backs off between
    /// the two bounds, which must be positive, in order, and within what
    /// failsafe's arithmetic supports.
    pub fn new(name: &str, config: CircuitBreakerConfig) -> (r: Self)
        requires
            0 < config.backoff_initial_secs <= config.backoff_max_secs,
            backoff_bounds_supported(config.backoff_initial_secs, config.backoff_max_secs),
        ensures
            r.name() == name@,
            r.failure_threshold() == config.failure_threshold,
            r.backoff_initial_secs() == config.backoff_initial_secs,
            r.backoff_max_secs() == config.backoff_max_secs,
    {
        let backoff = equal_jittered_backoff(config.backoff_initial_secs, config.backoff_max_secs);
        let policy = consecutive_failures_policy(config.failure_threshold, backoff);
        let breaker = new_state_machine(policy);
        CircuitBreaker { breaker: Arc::new(breaker), name: name.to_owned() }
    }

    /// The name of the service the breaker guards.
    pub fn service_name(&self) -> (r: &str)
        ensures
            r@ == self.name(),
    {
        self.name.as_str()
    }

    /// Asks the state machine to let through an operation that succeeds:
    /// refused, or let through and recorded as a success.
    fn probe(&self) -> (r: BreakerResponse)
        ensures
            r is Rejected || r is Passed,
    {
        breaker_call(&self.breaker.machine, true)
    }

    /// Records a successful call: refused, or recorded as a success.
    fn record_success(&self) -> (r: BreakerResponse)
        ensures
            r is Rejected || r is Passed,
    {
        breaker_call(&self.breaker.machine, true)
    }

    /// Records a failed call: refused (the breaker is open), or recorded as
    /// a failure.
    fn record_failure(&self) -> (r: BreakerResponse)
        ensures
            r is Rejected || r is Failed,
    {
        breaker_call(&self.breaker.machine, false)
    }

    /// Probes the breaker and reports its state together with the state
    /// machine's answer: `Open` exactly when the probe was refused (when it
    /// was not, the probe counts as a successful call).
    pub fn state_with_answer(&self) -> (r: (CircuitBreakerState, BreakerResponse))
        ensures
            r.1 is Rejected || r.1 is Passed,
            (r.0 == CircuitBreakerState::Open) == (r.1 is Rejected),
    {
        let answer = self.probe();
        (CircuitBreakerState::from_open(answer.refuses()), answer)
    }

    /// Whether the breaker currently refuses calls.
    pub fn state(&self) -> CircuitBreakerState {
        self.state_with_answer().0
    }

    /// The first half of a guarded call, together with the state machine's
    /// answer to the probe: the call may go ahead exactly when the probe was
    /// not refused; otherwise the caller receives `CircuitBreakerOpen`.
    pub fn begin_call_with_answer(&self) -> (r: (Result<(), RepositoryError>, BreakerResponse))
        ensures
            r.1 is Rejected || r.1 is Passed,
            (r.0 is Ok) == !(r.1 is Rejected),
            r.1 is Rejected ==> (r.0 matches Err(RepositoryError::CircuitBreakerOpen(m)) && m@
                == unavailable_text(self.name())),
    {
        let answer = self.probe();
        (admission(self.name.as_str(), answer.refuses()), answer)
    }

    /// The first half of a guarded call: `Ok` when the call may go ahead,
    /// otherwise the `CircuitBreakerOpen` error that the caller receives.
    pub fn begin_call(&self) -> (r: Result<(), RepositoryError>)
        ensures
            r is Ok || (r matches Err(RepositoryError::CircuitBreakerOpen(m)) && m@
                == unavailable_text(self.name())),
    {
        self.begin_call_with_answer().0
    }

    /// The second half of a guarded call: records its success or failure and
    /// hands its result back unchanged, together with the state machine's
    /// answer (`Rejected` when the breaker was already open).
    pub fn finish_call<T, E>(&self, result: Result<T, E>) -> (r: (Result<T, E>, BreakerResponse))
        ensures
            r.0 == result,
            r.1 is Rejected || r.1 == (if result is Ok {
                BreakerResponse::Passed
            } else {
                BreakerResponse::Failed
            }),
    {
        match result {
            Ok(v) => {
                let answer = self.record_success();
                (Ok(v), answer)
            },
            Err(e) => {
                let answer = self.record_failure();
                (Err(e), answer)
            },
        }
    }
}

} // verus!
