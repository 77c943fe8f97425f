//! A circuit breaker guarding an outbound dependency.
//!
//! The breaker is closed while calls go through. A run of failures opens
//! it: calls are then refused until a timeout has passed, after which the
//! breaker is half open and calls probe the dependency. Successes close it
//! again, a failure opens it again.
//!
//! Time is read from a monotonic clock, in milliseconds since the breaker
//! was made.

use vstd::prelude::*;
use crate::time::{millis_of, millis_since};

verus! {

/// State of a circuit breaker.
#[derive(Debug, Clone, Copy, PartialEq, Eq, Structural)]
pub enum CircuitState {
    /// Calls go through.
    Closed,
    /// Calls are refused.
    Open,
    /// Calls go through, to see whether the dependency has recovered.
    HalfOpen,
}

/// Configuration of a circuit breaker.
#[derive(Debug, Clone)]
pub struct CircuitBreakerConfig {
    /// Failures in a row that open the breaker.
    pub failure_threshold: usize,
    /// Successes in a row that close a half-open breaker.
    pub success_threshold: usize,
    /// Time for which an open breaker refuses calls.
    pub timeout: core::time::Duration,
    /// Window over which failures are meant to be counted.
    pub window_size: core::time::Duration,
}

impl Default for CircuitBreakerConfig {
    fn default() -> (config: Self)
        ensures
            config.failure_threshold == 5,
            config.success_threshold == 2,
            millis_of(config.timeout) == 60_000,
            millis_of(config.window_size) == 60_000,
    {
        CircuitBreakerConfig {
            failure_threshold: 5,
            success_threshold: 2,
            timeout: core::time::Duration::from_secs(60),
            window_size: core::time::Duration::from_secs(60),
        }
    }
}

/// Figures of a circuit breaker.
#[derive(Debug, Clone, Copy, PartialEq, Eq, Structural)]
pub struct CircuitBreakerStats {
    pub state: CircuitState,
    pub total_calls: u64,
    pub total_failures: u64,
    pub current_failures: usize,
}

/// What a circuit breaker remembers.
#[derive(Debug, Clone, Copy, PartialEq, Eq, Structural)]
pub struct BreakerState {
    pub state: CircuitState,
    /// Failures in a row while closed.
    pub failure_count: usize,
    /// Successes in a row while half open.
    pub success_count: usize,
    /// When the breaker last opened, in milliseconds on its clock.
    pub opened_at: Option<u128>,
    /// Calls that asked for admission. Counts modulo 2^64.
    pub total_calls: u64,
    /// Failures recorded. Counts modulo 2^64.
    pub total_failures: u64,
}

/// The thresholds of a breaker, the timeout in milliseconds.
pub struct Thresholds {
    pub failure_threshold: usize,
    pub success_threshold: usize,
    pub timeout_ms: nat,
}

/// `n` and one more, modulo 2^64.
pub open spec fn next_count(n: u64) -> u64 {
    if n == u64::MAX {
        0
    } else {
        (n + 1) as u64
    }
}

/// `n` and one more, and no more than `usize::MAX`.
pub open spec fn one_more(n: usize) -> usize {
    if n == usize::MAX {
        n
    } else {
        (n + 1) as usize
    }
}

/// A breaker as it is made: closed, all counts zero.
pub open spec fn fresh() -> BreakerState {
    BreakerState {
        state: CircuitState::Closed,
        failure_count: 0,
        success_count: 0,
        opened_at: None,
        total_calls: 0,
        total_failures: 0,
    }
}

/// Whether an open breaker's timeout has passed at `now`.
pub open spec fn timeout_passed(s: BreakerState, t: Thresholds, now: u128) -> bool {
    match s.opened_at {
        Some(at) => now >= at && now - at >= t.timeout_ms,
        None => false,
    }
}

/// Whether a call asking at `now` is admitted.
pub open spec fn admits(s: BreakerState, t: Thresholds, now: u128) -> bool {
    match s.state {
        CircuitState::Closed => true,
        CircuitState::HalfOpen => true,
        CircuitState::Open => timeout_passed(s, t, now),
    }
}

/// The breaker after a call has asked for admission at `now`.
pub open spec fn after_request(s: BreakerState, t: Thresholds, now: u128) -> BreakerState {
    let counted = BreakerState { total_calls: next_count(s.total_calls), ..s };
    if s.state == CircuitState::Open && timeout_passed(s, t, now) {
        BreakerState { state: CircuitState::HalfOpen, success_count: 0, ..counted }
    } else {
        counted
    }
}

/// The breaker after a success.
pub open spec fn after_success(s: BreakerState, t: Thresholds) -> BreakerState {
    match s.state {
        CircuitState::Closed => BreakerState { failure_count: 0, ..s },
        CircuitState::HalfOpen => if one_more(s.success_count) >= t.success_threshold {
            BreakerState {
                state: CircuitState::Closed,
                failure_count: 0,
                success_count: 0,
                ..s
            }
        } else {
            BreakerState { success_count: one_more(s.success_count), ..s }
        },
        CircuitState::Open => s,
    }
}

/// The breaker after a failure at `now`.
pub open spec fn after_failure(s: BreakerState, t: Thresholds, now: u128) -> BreakerState {
    let counted = BreakerState { total_failures: next_count(s.total_failures), ..s };
    match s.state {
        CircuitState::Closed => if one_more(s.failure_count) >= t.failure_threshold {
            BreakerState {
                state: CircuitState::Open,
                failure_count: one_more(s.failure_count),
                opened_at: Some(now),
                ..counted
            }
        } else {
            BreakerState { failure_count: one_more(s.failure_count), ..counted }
        },
        CircuitState::HalfOpen => BreakerState {
            state: CircuitState::Open,
            success_count: 0,
            opened_at: Some(now),
            ..counted
        },
        CircuitState::Open => counted,
    }
}

/// The breaker after failures in a row at the times `times`, in turn.
pub open spec fn after_failures(s: BreakerState, t: Thresholds, times: Seq<u128>) -> BreakerState
    decreases times.len(),
{
    if times.len() == 0 {
        s
    } else {
        after_failure(after_failures(s, t, times.drop_last()), t, times.last())
    }
}

/// The numeric gauge of a state: 0 closed, 1 half open, 2 open.
pub open spec fn gauge_of(state: CircuitState) -> u8 {
    match state {
        CircuitState::Closed => 0,
        CircuitState::HalfOpen => 1,
        CircuitState::Open => 2,
    }
}

/// A run of failures on a closed breaker, at whatever times, either has
/// opened it or leaves it closed with the failures counted, short of the
/// threshold.
proof fn lemma_failures_counted(s: BreakerState, t: Thresholds, times: Seq<u128>)
    requires
        s.state == CircuitState::Closed,
        times.len() >= 1,
    ensures
        after_failures(s, t, times).state == CircuitState::Open || (after_failures(
            s,
            t,
            times,
        ).state == CircuitState::Closed && after_failures(s, t, times).failure_count
            == s.failure_count + times.len() && s.failure_count + times.len()
            < t.failure_threshold),
    decreases times.len(),
{
    if times.len() > 1 {
        lemma_failures_counted(s, t, times.drop_last());
    } else {
        assert(after_failures(s, t, times.drop_last()) == s);
    }
}

/// As many failures in a row as the failure threshold, at whatever times,
/// on a closed breaker and with no success in between, leave the breaker
/// open.
pub proof fn lemma_threshold_failures_open(s: BreakerState, t: Thresholds, times: Seq<u128>)
    requires
        s.state == CircuitState::Closed,
        t.failure_threshold >= 1,
        times.len() == t.failure_threshold,
    ensures
        after_failures(s, t, times).state == CircuitState::Open,
{
    lemma_failures_counted(s, t, times);
}

/// An open breaker refuses a call before its timeout has passed and stays
/// open; once the timeout has passed it admits the call and is half open.
pub proof fn lemma_open_then_probe(s: BreakerState, t: Thresholds, now: u128)
    requires
        s.state == CircuitState::Open,
        s.opened_at is Some,
    ensures
        now >= s.opened_at->0 + t.timeout_ms ==> admits(s, t, now) && after_request(
            s,
            t,
            now,
        ).state == CircuitState::HalfOpen,
        now < s.opened_at->0 + t.timeout_ms ==> !admits(s, t, now) && after_request(
            s,
            t,
            now,
        ).state == CircuitState::Open,
{
}

/// In a half-open breaker a failure opens the breaker again, and as many
/// successes in a row as the success threshold close it.
pub proof fn lemma_half_open_outcomes(s: BreakerState, t: Thresholds, now: u128)
    requires
        s.state == CircuitState::HalfOpen,
    ensures
        after_failure(s, t, now).state == CircuitState::Open,
        after_failure(s, t, now).opened_at == Some(now),
        s.success_count + 1 >= t.success_threshold ==> after_success(s, t).state
            == CircuitState::Closed,
        s.success_count + 1 < t.success_threshold ==> after_success(s, t).state
            == CircuitState::HalfOpen,
{
}

/// A circuit breaker.
pub struct CircuitBreaker {
    config: CircuitBreakerConfig,
    memory: BreakerState,
    origin: std::time::Instant,
}

impl CircuitBreaker {
    /// What the breaker remembers.
    pub closed spec fn memory(self) -> BreakerState {
        self.memory
    }

    /// The thresholds that the breaker was made with.
    pub closed spec fn thresholds(self) -> Thresholds {
        Thresholds {
            failure_threshold: self.config.failure_threshold,
            success_threshold: self.config.success_threshold,
            timeout_ms: millis_of(self.config.timeout),
        }
    }

    /// A closed breaker.
    pub fn new(config: CircuitBreakerConfig) -> (breaker: Self)
        ensures
            breaker.memory() == fresh(),
            breaker.thresholds() == (Thresholds {
                failure_threshold: config.failure_threshold,
                success_threshold: config.success_threshold,
                timeout_ms: millis_of(config.timeout),
            }),
    {
        CircuitBreaker {
            config,
            memory: BreakerState {
                state: CircuitState::Closed,
                failure_count: 0,
                success_count: 0,
                opened_at: None,
                total_calls: 0,
                total_failures: 0,
            },
            origin: std::time::Instant::now(),
        }
    }

    /// The present time on the breaker's clock, in milliseconds.
    pub fn clock(&self) -> u128 {
        millis_since(&self.origin)
    }

    /// Asks whether a call may go through now.
    pub fn allow_request(&mut self) -> (admitted: bool)
        ensures
            final(self).thresholds() == old(self).thresholds(),
            exists|now: u128|
                admitted == admits(old(self).memory(), old(self).thresholds(), now)
                    && final(self).memory() == after_request(
                    old(self).memory(),
                    old(self).thresholds(),
                    now,
                ),
    {
        let now = self.clock();
        self.allow_request_at(now)
    }

    /// Asks whether a call may go through at `now` on the breaker's clock.
    pub fn allow_request_at(&mut self, now: u128) -> (admitted: bool)
        ensures
            final(self).thresholds() == old(self).thresholds(),
            admitted == admits(old(self).memory(), old(self).thresholds(), now),
            final(self).memory() == after_request(old(self).memory(), old(self).thresholds(), now),
    {
        self.memory.total_calls = self.memory.total_calls.wrapping_add(1);
        match self.memory.state {
            CircuitState::Closed => true,
            CircuitState::HalfOpen => true,
            CircuitState::Open => {
                let passed = match self.memory.opened_at {
                    Some(at) => now >= at && now - at >= self.config.timeout.as_millis(),
                    None => false,
                };
                if passed {
                    self.memory.state = CircuitState::HalfOpen;
                    self.memory.success_count = 0;
                }
                passed
            },
        }
    }

    /// Records that a call succeeded.
    pub fn record_success(&mut self)
        ensures
            final(self).thresholds() == old(self).thresholds(),
            final(self).memory() == after_success(old(self).memory(), old(self).thresholds()),
    {
        match self.memory.state {
            CircuitState::Closed => {
                self.memory.failure_count = 0;
            },
            CircuitState::HalfOpen => {
                let successes = self.memory.success_count.saturating_add(1);
                if successes >= self.config.success_threshold {
                    self.memory.state = CircuitState::Closed;
                    self.memory.failure_count = 0;
                    self.memory.success_count = 0;
                } else {
                    self.memory.success_count = successes;
                }
            },
            CircuitState::Open => {},
        }
    }

    /// Records that a call failed now.
    pub fn record_failure(&mut self)
        ensures
            final(self).thresholds() == old(self).thresholds(),
            exists|now: u128|
                final(self).memory() == after_failure(
                    old(self).memory(),
                    old(self).thresholds(),
                    now,
                ),
    {
        let now = self.clock();
        self.record_failure_at(now)
    }

    /// Records that a call failed at `now` on the breaker's clock.
    pub fn record_failure_at(&mut self, now: u128)
        ensures
            final(self).thresholds() == old(self).thresholds(),
            final(self).memory() == after_failure(old(self).memory(), old(self).thresholds(), now),
    {
        self.memory.total_failures = self.memory.total_failures.wrapping_add(1);
        match self.memory.state {
            CircuitState::Closed => {
                let failures = self.memory.failure_count.saturating_add(1);
                self.memory.failure_count = failures;
                if failures >= self.config.failure_threshold {
                    self.memory.state = CircuitState::Open;
                    self.memory.opened_at = Some(now);
                }
            },
            CircuitState::HalfOpen => {
                self.memory.state = CircuitState::Open;
                self.memory.opened_at = Some(now);
                self.memory.success_count = 0;
            },
            CircuitState::Open => {},
        }
    }

    /// The present state.
    pub fn state(&self) -> (state: CircuitState)
        ensures
            state == self.memory().state,
    {
        self.memory.state
    }

    /// The state as a gauge: 0 closed, 1 half open, 2 open.
    pub fn state_gauge(&self) -> (gauge: u8)
        ensures
            gauge == gauge_of(self.memory().state),
    {
        match self.memory.state {
            CircuitState::Closed => 0,
            CircuitState::HalfOpen => 1,
            CircuitState::Open => 2,
        }
    }

    /// The present figures.
    pub fn stats(&self) -> (stats: CircuitBreakerStats)
        ensures
            stats == (CircuitBreakerStats {
                state: self.memory().state,
                total_calls: self.memory().total_calls,
                total_failures: self.memory().total_failures,
                current_failures: self.memory().failure_count,
            }),
    {
        CircuitBreakerStats {
            state: self.memory.state,
            total_calls: self.memory.total_calls,
            total_failures: self.memory.total_failures,
            current_failures: self.memory.failure_count,
        }
    }

    /// Closes the breaker and forgets its runs of failures and successes.
    /// The totals stay.
    pub fn reset(&mut self)
        ensures
            final(self).thresholds() == old(self).thresholds(),
            final(self).memory() == (BreakerState {
                state: CircuitState::Closed,
                failure_count: 0,
                success_count: 0,
                opened_at: None,
                ..old(self).memory()
            }),
    {
        self.memory.state = CircuitState::Closed;
        self.memory.failure_count = 0;
        self.memory.success_count = 0;
        self.memory.opened_at = None;
    }
}

} // verus!
