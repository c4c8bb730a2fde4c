//! Circuit breaker: fails fast after repeated failures and probes the
//! service again after a timeout.
//!
//! Time enters as a millisecond reading `now_ms` from a monotonic clock,
//! supplied by the caller at each step.
use vstd::prelude::*;

verus! {

/// The breaker's state.
#[derive(Debug, Clone, Copy, PartialEq, Eq, Structural)]
pub enum CircuitState {
    /// Requests pass.
    Closed,
    /// Requests fail fast.
    Open,
    /// The next request decides between closing and reopening.
    HalfOpen,
}

/// Breaker settings.
#[derive(Debug, Clone, Copy)]
pub struct CircuitBreakerConfig {
    /// Consecutive failures that open the circuit.
    pub failure_threshold: usize,
    /// Time after the last failure before an open circuit is probed again.
    pub reset_timeout_ms: u64,
}

/// The abstract state of a breaker.
pub struct CircuitView {
    pub state: CircuitState,
    pub failures: nat,
    pub last_failure_ms: Option<u64>,
    pub failure_threshold: nat,
    pub reset_timeout_ms: nat,
}

/// The breaker.
pub struct CircuitBreaker {
    state: CircuitState,
    failures: usize,
    config: CircuitBreakerConfig,
    last_failure_ms: Option<u64>,
}

/// Milliseconds from `then` to `now`, zero if the clock reads earlier
/// (`Instant::elapsed` saturates the same way).
pub open spec fn elapsed(now: u64, then: u64) -> nat {
    if now >= then {
        (now - then) as nat
    } else {
        0
    }
}

/// The failure counter after one more failure (it wraps like an atomic add).
pub open spec fn bumped(f: nat) -> nat {
    if f == usize::MAX {
        0
    } else {
        f + 1
    }
}

/// The state after `check_state` at `now`.
pub open spec fn after_check(v: CircuitView, now: u64) -> CircuitView {
    if v.state == CircuitState::Open && v.last_failure_ms is Some && elapsed(
        now,
        v.last_failure_ms->0,
    ) > v.reset_timeout_ms {
        CircuitView { state: CircuitState::HalfOpen, ..v }
    } else {
        v
    }
}

/// Whether `check_state` at `now` lets the request through.
pub open spec fn check_passes(v: CircuitView, now: u64) -> bool {
    v.state != CircuitState::Open || after_check(v, now).state == CircuitState::HalfOpen
}

/// The state after `record_success`: closed when it was half-open, and the
/// failure count reset in any case.
pub open spec fn after_success(v: CircuitView) -> CircuitView {
    CircuitView {
        state: if v.state == CircuitState::HalfOpen {
            CircuitState::Closed
        } else {
            v.state
        },
        failures: 0,
        ..v
    }
}

/// The state after `record_failure` at `now`: the count goes up; a failure
/// while half-open, or one that reaches the threshold, opens the circuit and
/// stamps the time.
pub open spec fn after_failure(v: CircuitView, now: u64) -> CircuitView {
    let f = bumped(v.failures);
    if v.state == CircuitState::HalfOpen || f >= v.failure_threshold {
        CircuitView { state: CircuitState::Open, failures: f, last_failure_ms: Some(now), ..v }
    } else {
        CircuitView { failures: f, ..v }
    }
}

/// The state after consecutive failures recorded at the times `times`, in order.
pub open spec fn after_failures(v: CircuitView, times: Seq<u64>) -> CircuitView
    decreases times.len(),
{
    if times.len() == 0 {
        v
    } else {
        after_failure(after_failures(v, times.drop_last()), times.last())
    }
}

/// The message of a refused check.
pub open spec fn open_message() -> Seq<char> {
    "CircuitBreaker is OPEN. Failing fast."@
}

impl CircuitBreaker {
    /// The abstract state.
    pub closed spec fn view(&self) -> CircuitView {
        CircuitView {
            state: self.state,
            failures: self.failures as nat,
            last_failure_ms: self.last_failure_ms,
            failure_threshold: self.config.failure_threshold as nat,
            reset_timeout_ms: self.config.reset_timeout_ms as nat,
        }
    }

    /// A closed breaker with no failures.
    pub fn new(config: CircuitBreakerConfig) -> (r: Self)
        ensures
            r.view().state == CircuitState::Closed,
            r.view().failures == 0,
            r.view().last_failure_ms is None,
            r.view().failure_threshold == config.failure_threshold,
            r.view().reset_timeout_ms == config.reset_timeout_ms,
    {
        CircuitBreaker { state: CircuitState::Closed, failures: 0, config, last_failure_ms: None }
    }

    /// The current state.
    pub fn state(&self) -> (r: CircuitState)
        ensures
            r == self.view().state,
    {
        self.state
    }

    /// The current failure count.
    pub fn failures(&self) -> (r: usize)
        ensures
            r == self.view().failures,
    {
        self.failures
    }

    /// Decides whether a request may pass at `now_ms`: an open circuit
    /// fails fast until the reset timeout has passed since the last
    /// failure, then turns half-open and lets one request through.
    pub fn check_state(&mut self, now_ms: u64) -> (r: Result<(), &'static str>)
        ensures
            final(self).view() == after_check(old(self).view(), now_ms),
            r is Ok <==> check_passes(old(self).view(), now_ms),
            r matches Err(m) ==> m@ == open_message(),
    {
        if self.state == CircuitState::Open {
            if let Some(t) = self.last_failure_ms {
                let el = if now_ms >= t {
                    now_ms - t
                } else {
                    0
                };
                if el > self.config.reset_timeout_ms {
                    self.state = CircuitState::HalfOpen;
                    return Ok(());
                }
            }
            return Err("CircuitBreaker is OPEN. Failing fast.");
        }
        Ok(())
    }

    /// Records a success: a half-open circuit closes; the count resets.
    pub fn record_success(&mut self)
        ensures
            final(self).view() == after_success(old(self).view()),
    {
        if self.state == CircuitState::HalfOpen {
            self.state = CircuitState::Closed;
        }
        self.failures = 0;
    }

    /// Records a failure at `now_ms`: a failure while half-open, or one that
    /// brings the count to the threshold, opens the circuit.
    pub fn record_failure(&mut self, now_ms: u64)
        ensures
            final(self).view() == after_failure(old(self).view(), now_ms),
    {
        let fails = if self.failures == usize::MAX {
            0
        } else {
            self.failures + 1
        };
        self.failures = fails;
        if self.state == CircuitState::HalfOpen || fails >= self.config.failure_threshold {
            self.state = CircuitState::Open;
            self.last_failure_ms = Some(now_ms);
        }
    }
}

/// From a closed breaker with no failures, fewer consecutive failures than
/// the threshold (recorded at any times) leave it closed with that many
/// failures counted; `threshold` of them open it, stamped with the time of
/// the last one, and from then on a check fails fast exactly until more than
/// the reset timeout has passed since that last failure.
pub proof fn law_threshold_opens(v: CircuitView, times: Seq<u64>, now: u64)
    requires
        v.state == CircuitState::Closed,
        v.failures == 0,
        1 <= v.failure_threshold <= usize::MAX,
        times.len() <= v.failure_threshold,
    ensures
        times.len() < v.failure_threshold ==> after_failures(v, times).state == CircuitState::Closed
            && after_failures(v, times).failures == times.len(),
        times.len() == v.failure_threshold ==> after_failures(v, times).state == CircuitState::Open
            && after_failures(v, times).last_failure_ms == Some(times.last())
            && (check_passes(after_failures(v, times), now) <==> elapsed(now, times.last())
            > v.reset_timeout_ms),
    decreases times.len(),
{
    lemma_failures_keep_config(v, times);
    if times.len() > 0 {
        law_threshold_opens(v, times.drop_last(), now);
    }
}

proof fn lemma_failures_keep_config(v: CircuitView, times: Seq<u64>)
    ensures
        after_failures(v, times).failure_threshold == v.failure_threshold,
        after_failures(v, times).reset_timeout_ms == v.reset_timeout_ms,
    decreases times.len(),
{
    if times.len() > 0 {
        lemma_failures_keep_config(v, times.drop_last());
    }
}

/// A success clears the consecutive-failure count whatever the state, so
/// failures separated by a success never add up: from a closed breaker with
/// no failures, fewer failures than the threshold, then a success, then
/// again fewer failures than the threshold leave it closed, counting only
/// the failures after the success.
pub proof fn law_success_resets_failures(v: CircuitView, w: CircuitView, before: Seq<u64>, after: Seq<u64>)
    requires
        v.state == CircuitState::Closed,
        v.failures == 0,
        1 <= v.failure_threshold <= usize::MAX,
        before.len() < v.failure_threshold,
        after.len() < v.failure_threshold,
    ensures
        after_success(w).failures == 0,
        w.state != CircuitState::Open ==> after_success(w).state == CircuitState::Closed,
        after_failures(after_success(after_failures(v, before)), after).state == CircuitState::Closed,
        after_failures(after_success(after_failures(v, before)), after).failures == after.len(),
{
    law_threshold_opens(v, before, 0);
    lemma_failures_keep_config(v, before);
    let m = after_success(after_failures(v, before));
    law_threshold_opens(m, after, 0);
}

/// An open circuit keeps failing fast until the reset timeout has passed
/// since the last failure; a check after that lets exactly one probe through
/// (the circuit is half-open), and that probe's outcome closes it (success)
/// or reopens it (failure).
pub proof fn law_half_open_probe(v: CircuitView, now: u64, later: u64)
    requires
        v.state == CircuitState::Open,
    ensures
        !check_passes(v, now) ==> after_check(v, now) == v,
        check_passes(v, now) ==> after_check(v, now).state == CircuitState::HalfOpen,
        check_passes(v, now) ==> after_success(after_check(v, now)).state == CircuitState::Closed
            && after_success(after_check(v, now)).failures == 0,
        check_passes(v, now) ==> after_failure(after_check(v, now), later).state == CircuitState::Open
            && after_failure(after_check(v, now), later).last_failure_ms == Some(later),
        v.last_failure_ms is None ==> !check_passes(v, now),
{
}

} // verus!
