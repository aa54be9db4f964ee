//! Circuit breaker state machine and retry decisions.
//!
//! The breaker protects calls to an outside service. It counts consecutive
//! failures while closed, opens once the failure threshold is reached, lets a
//! probe through (half-open) once the open timeout has elapsed, and closes
//! again after enough consecutive successes in the half-open state.

use vstd::prelude::*;
use crate::clock::now_millis;
use crate::text::{append_str, chars_of, contains_chars, i64_to_string, seq_contains, spec_decimal, spec_to_lowercase, string_from_chars, to_lowercase, u64_to_string};

verus! {

/// Circuit breaker state machine states
#[derive(Debug, Clone, Copy, PartialEq, Eq, Structural)]
pub enum CircuitState {
    /// Circuit is closed, requests flow normally
    Closed,
    /// Circuit is open, requests are rejected immediately
    Open,
    /// Circuit is half-open, testing if service has recovered
    HalfOpen,
}

/// Circuit breaker configuration for different service types
#[derive(Debug, Clone, Copy)]
pub struct CircuitBreakerConfig {
    /// Number of consecutive failures before opening circuit
    pub failure_threshold: u32,
    /// Number of consecutive successes in HalfOpen to close circuit
    pub success_threshold: u32,
    /// Time to wait before transitioning from Open to HalfOpen, in milliseconds
    pub timeout_duration_ms: i64,
}

impl CircuitBreakerConfig {
    /// Configuration for MCP server circuit breaker
    pub fn mcp() -> (c: Self)
        ensures
            c.failure_threshold == 5,
            c.success_threshold == 3,
            c.timeout_duration_ms == 60_000,
    {
        CircuitBreakerConfig { failure_threshold: 5, success_threshold: 3, timeout_duration_ms: 60_000 }
    }

    /// Configuration for Composio API circuit breaker
    pub fn composio_api() -> (c: Self)
        ensures
            c.failure_threshold == 10,
            c.success_threshold == 3,
            c.timeout_duration_ms == 60_000,
    {
        CircuitBreakerConfig { failure_threshold: 10, success_threshold: 3, timeout_duration_ms: 60_000 }
    }

    /// Configuration for OAuth/auth circuit breaker
    pub fn auth() -> (c: Self)
        ensures
            c.failure_threshold == 3,
            c.success_threshold == 3,
            c.timeout_duration_ms == 60_000,
    {
        CircuitBreakerConfig { failure_threshold: 3, success_threshold: 3, timeout_duration_ms: 60_000 }
    }
}

/// Circuit breaker statistics (also the breaker's mutable state).
/// Times are milliseconds since the Unix epoch.
#[derive(Debug, Clone, Copy)]
pub struct CircuitBreakerStats {
    pub current_state: CircuitState,
    pub failure_count: u32,
    pub success_count: u32,
    pub last_failure_time: Option<i64>,
    pub state_changed_at: i64,
}

/// Rejection of a request by an open circuit.
#[derive(Debug, Clone, Copy, PartialEq, Eq, Structural)]
pub struct CircuitOpenError {
    /// Whole seconds left until the circuit may be probed again.
    pub retry_after_secs: i64,
}

/// The state a breaker is in: its configuration and its statistics.
pub struct CircuitModel {
    pub config: CircuitBreakerConfig,
    pub stats: CircuitBreakerStats,
}

/// Counts stay in the range that the transitions produce: a closed circuit
/// has fewer failures than its threshold (or none), a half-open circuit fewer
/// successes than its threshold (or none).
pub open spec fn counts_in_range(c: CircuitBreakerConfig, s: CircuitBreakerStats) -> bool {
    &&& (s.current_state == CircuitState::Closed ==> s.failure_count == 0 || s.failure_count
        < c.failure_threshold)
    &&& (s.current_state == CircuitState::HalfOpen ==> s.success_count == 0 || s.success_count
        < c.success_threshold)
}

/// Statistics of a freshly created or reset breaker.
pub open spec fn closed_stats(last_failure_time: Option<i64>, now: i64) -> CircuitBreakerStats {
    CircuitBreakerStats {
        current_state: CircuitState::Closed,
        failure_count: 0,
        success_count: 0,
        last_failure_time,
        state_changed_at: now,
    }
}

/// Effect of a failed operation at time `now`.
pub open spec fn after_failure(c: CircuitBreakerConfig, s: CircuitBreakerStats, now: i64) -> CircuitBreakerStats {
    match s.current_state {
        CircuitState::Closed => {
            if s.failure_count + 1 >= c.failure_threshold {
                CircuitBreakerStats {
                    current_state: CircuitState::Open,
                    failure_count: (s.failure_count + 1) as u32,
                    success_count: 0,
                    last_failure_time: Some(now),
                    state_changed_at: now,
                }
            } else {
                CircuitBreakerStats {
                    current_state: CircuitState::Closed,
                    failure_count: (s.failure_count + 1) as u32,
                    success_count: s.success_count,
                    last_failure_time: Some(now),
                    state_changed_at: s.state_changed_at,
                }
            }
        },
        CircuitState::HalfOpen => CircuitBreakerStats {
            current_state: CircuitState::Open,
            failure_count: c.failure_threshold,
            success_count: 0,
            last_failure_time: Some(now),
            state_changed_at: now,
        },
        CircuitState::Open => CircuitBreakerStats {
            current_state: CircuitState::Open,
            failure_count: s.failure_count,
            success_count: s.success_count,
            last_failure_time: Some(now),
            state_changed_at: now,
        },
    }
}

/// Effect of a successful operation at time `now`.
pub open spec fn after_success(c: CircuitBreakerConfig, s: CircuitBreakerStats, now: i64) -> CircuitBreakerStats {
    match s.current_state {
        CircuitState::Closed => CircuitBreakerStats {
            current_state: CircuitState::Closed,
            failure_count: 0,
            success_count: s.success_count,
            last_failure_time: s.last_failure_time,
            state_changed_at: s.state_changed_at,
        },
        CircuitState::HalfOpen => {
            if s.success_count + 1 >= c.success_threshold {
                closed_stats(s.last_failure_time, now)
            } else {
                CircuitBreakerStats {
                    current_state: CircuitState::HalfOpen,
                    failure_count: s.failure_count,
                    success_count: (s.success_count + 1) as u32,
                    last_failure_time: s.last_failure_time,
                    state_changed_at: s.state_changed_at,
                }
            }
        },
        CircuitState::Open => closed_stats(s.last_failure_time, now),
    }
}

/// Whether the open timeout has elapsed at time `now`.
pub open spec fn timeout_elapsed(c: CircuitBreakerConfig, s: CircuitBreakerStats, now: i64) -> bool {
    now - s.state_changed_at >= c.timeout_duration_ms
}

/// Whether a request may proceed at time `now`: always, unless the circuit is
/// open and its timeout has not elapsed.
pub open spec fn proceed_allowed(c: CircuitBreakerConfig, s: CircuitBreakerStats, now: i64) -> bool {
    s.current_state != CircuitState::Open || timeout_elapsed(c, s, now)
}

/// Seconds left before an open circuit may be probed (whole seconds, rounded
/// toward zero).
pub open spec fn retry_after_secs(c: CircuitBreakerConfig, s: CircuitBreakerStats, now: i64) -> int {
    (c.timeout_duration_ms - (now - s.state_changed_at)) / 1000
}

/// State after asking at time `now` whether a request may proceed: an open
/// circuit whose timeout has elapsed becomes half-open; otherwise nothing changes.
pub open spec fn after_proceed_check(c: CircuitBreakerConfig, s: CircuitBreakerStats, now: i64) -> CircuitBreakerStats {
    if s.current_state == CircuitState::Open && timeout_elapsed(c, s, now) {
        CircuitBreakerStats {
            current_state: CircuitState::HalfOpen,
            failure_count: s.failure_count,
            success_count: 0,
            last_failure_time: s.last_failure_time,
            state_changed_at: now,
        }
    } else {
        s
    }
}

/// Statistics after a run of consecutive failures at the given times.
pub open spec fn after_failures(c: CircuitBreakerConfig, s: CircuitBreakerStats, times: Seq<i64>) -> CircuitBreakerStats
    decreases times.len(),
{
    if times.len() == 0 {
        s
    } else {
        after_failure(c, after_failures(c, s, times.drop_last()), times.last())
    }
}

/// Statistics after a run of consecutive successes at the given times.
pub open spec fn after_successes(c: CircuitBreakerConfig, s: CircuitBreakerStats, times: Seq<i64>) -> CircuitBreakerStats
    decreases times.len(),
{
    if times.len() == 0 {
        s
    } else {
        after_success(c, after_successes(c, s, times.drop_last()), times.last())
    }
}

/// Every transition keeps the counts in the range a breaker can reach.
pub proof fn law_transitions_keep_counts_in_range(c: CircuitBreakerConfig, s: CircuitBreakerStats, now: i64)
    requires
        counts_in_range(c, s),
    ensures
        counts_in_range(c, after_failure(c, s, now)),
        counts_in_range(c, after_success(c, s, now)),
        counts_in_range(c, after_proceed_check(c, s, now)),
        counts_in_range(c, closed_stats(None, now)),
{
}

/// A closed circuit stays closed, counting failures, until the failure
/// threshold is reached; the failure that reaches it opens the circuit, and it
/// stays open under further failures.
pub proof fn law_consecutive_failures_open(c: CircuitBreakerConfig, s: CircuitBreakerStats, times: Seq<i64>)
    requires
        s.current_state == CircuitState::Closed,
        counts_in_range(c, s),
    ensures
        s.failure_count + times.len() < c.failure_threshold ==> {
            &&& after_failures(c, s, times).current_state == CircuitState::Closed
            &&& after_failures(c, s, times).failure_count == s.failure_count + times.len()
        },
        times.len() > 0 && s.failure_count + times.len() >= c.failure_threshold
            ==> after_failures(c, s, times).current_state == CircuitState::Open,
    decreases times.len(),
{
    if times.len() > 0 {
        law_consecutive_failures_open(c, s, times.drop_last());
    }
}

/// A half-open circuit stays half-open, counting successes, until the success
/// threshold is reached; the success that reaches it closes the circuit, with
/// both counts reset, and it stays closed under further successes.
pub proof fn law_consecutive_successes_close(c: CircuitBreakerConfig, s: CircuitBreakerStats, times: Seq<i64>)
    requires
        s.current_state == CircuitState::HalfOpen,
        counts_in_range(c, s),
    ensures
        s.success_count + times.len() < c.success_threshold ==> {
            &&& after_successes(c, s, times).current_state == CircuitState::HalfOpen
            &&& after_successes(c, s, times).success_count == s.success_count + times.len()
        },
        times.len() > 0 && s.success_count + times.len() >= c.success_threshold ==> {
            &&& after_successes(c, s, times).current_state == CircuitState::Closed
            &&& after_successes(c, s, times).failure_count == 0
            &&& after_successes(c, s, times).success_count == 0
        },
    decreases times.len(),
{
    if times.len() > 0 {
        law_consecutive_successes_close(c, s, times.drop_last());
    }
}

/// Any failure in the half-open state opens the circuit again, with the
/// failure count at the threshold.
pub proof fn law_half_open_failure_reopens(c: CircuitBreakerConfig, s: CircuitBreakerStats, now: i64)
    requires
        s.current_state == CircuitState::HalfOpen,
    ensures
        after_failure(c, s, now).current_state == CircuitState::Open,
        after_failure(c, s, now).failure_count == c.failure_threshold,
        after_failure(c, s, now).state_changed_at == now,
{
}

/// A success in the closed state resets the failure count, so a later run of
/// failures counts from zero again.
pub proof fn law_success_resets_failures(c: CircuitBreakerConfig, s: CircuitBreakerStats, now: i64)
    requires
        s.current_state == CircuitState::Closed,
    ensures
        after_success(c, s, now).current_state == CircuitState::Closed,
        after_success(c, s, now).failure_count == 0,
{
}

/// An open circuit rejects requests, unchanged, until its timeout has
/// elapsed; then the request proceeds and the circuit becomes half-open with
/// no successes counted.
pub proof fn law_open_rejects_until_timeout(c: CircuitBreakerConfig, s: CircuitBreakerStats, now: i64)
    requires
        s.current_state == CircuitState::Open,
    ensures
        !timeout_elapsed(c, s, now) ==> !proceed_allowed(c, s, now) && after_proceed_check(c, s, now)
            == s,
        timeout_elapsed(c, s, now) ==> {
            &&& proceed_allowed(c, s, now)
            &&& after_proceed_check(c, s, now).current_state == CircuitState::HalfOpen
            &&& after_proceed_check(c, s, now).success_count == 0
            &&& after_proceed_check(c, s, now).state_changed_at == now
        },
{
}

/// Requests always proceed through a circuit that is not open, and checking
/// leaves it unchanged.
pub proof fn law_not_open_always_proceeds(c: CircuitBreakerConfig, s: CircuitBreakerStats, now: i64)
    requires
        s.current_state != CircuitState::Open,
    ensures
        proceed_allowed(c, s, now),
        after_proceed_check(c, s, now) == s,
{
}

/// Circuit breaker implementation
pub struct CircuitBreaker {
    config: CircuitBreakerConfig,
    stats: CircuitBreakerStats,
}

impl View for CircuitBreaker {
    type V = CircuitModel;

    closed spec fn view(&self) -> CircuitModel {
        CircuitModel { config: self.config, stats: self.stats }
    }
}

impl CircuitBreaker {
    #[verifier::type_invariant]
    spec fn well_formed(self) -> bool {
        counts_in_range(self.config, self.stats)
    }

    /// Create a new circuit breaker, closed since time `now`.
    pub fn new_at(config: CircuitBreakerConfig, now: i64) -> (cb: Self)
        ensures
            cb@.config == config,
            cb@.stats == closed_stats(None, now),
    {
        CircuitBreaker { config, stats: closed_stats_exec(None, now) }
    }

    /// Create a new circuit breaker with the given configuration, closed since now.
    pub fn new(config: CircuitBreakerConfig) -> (cb: Self)
        ensures
            cb@.config == config,
            cb@.stats.current_state == CircuitState::Closed,
            cb@.stats.failure_count == 0,
            cb@.stats.success_count == 0,
            cb@.stats.last_failure_time is None,
    {
        Self::new_at(config, now_millis())
    }

    /// Create a circuit breaker for MCP server
    pub fn for_mcp() -> (cb: Self)
        ensures
            cb@.config.failure_threshold == 5,
            cb@.config.success_threshold == 3,
            cb@.config.timeout_duration_ms == 60_000,
            cb@.stats.current_state == CircuitState::Closed,
            cb@.stats.failure_count == 0,
            cb@.stats.success_count == 0,
    {
        Self::new(CircuitBreakerConfig::mcp())
    }

    /// Create a circuit breaker for Composio API
    pub fn for_composio_api() -> (cb: Self)
        ensures
            cb@.config.failure_threshold == 10,
            cb@.config.success_threshold == 3,
            cb@.config.timeout_duration_ms == 60_000,
            cb@.stats.current_state == CircuitState::Closed,
            cb@.stats.failure_count == 0,
            cb@.stats.success_count == 0,
    {
        Self::new(CircuitBreakerConfig::composio_api())
    }

    /// Create a circuit breaker for OAuth/auth
    pub fn for_auth() -> (cb: Self)
        ensures
            cb@.config.failure_threshold == 3,
            cb@.config.success_threshold == 3,
            cb@.config.timeout_duration_ms == 60_000,
            cb@.stats.current_state == CircuitState::Closed,
            cb@.stats.failure_count == 0,
            cb@.stats.success_count == 0,
    {
        Self::new(CircuitBreakerConfig::auth())
    }

    /// Get the current state of the circuit breaker
    pub fn state(&self) -> (st: CircuitState)
        ensures
            st == self@.stats.current_state,
    {
        self.stats.current_state
    }

    /// Get the configuration
    pub fn config(&self) -> (c: CircuitBreakerConfig)
        ensures
            c == self@.config,
    {
        self.config
    }

    /// Get circuit breaker statistics
    pub fn stats(&self) -> (s: CircuitBreakerStats)
        ensures
            s == self@.stats,
    {
        self.stats
    }

    /// Check at time `now` whether a request can proceed through the circuit breaker.
    pub fn can_proceed_at(&mut self, now: i64) -> (r: Result<(), CircuitOpenError>)
        ensures
            final(self)@.config == old(self)@.config,
            final(self)@.stats == after_proceed_check(old(self)@.config, old(self)@.stats, now),
            r is Ok <==> proceed_allowed(old(self)@.config, old(self)@.stats, now),
            r matches Err(e) ==> e.retry_after_secs == retry_after_secs(
                old(self)@.config,
                old(self)@.stats,
                now,
            ),
    {
        proof { use_type_invariant(&*self); }
        match self.stats.current_state {
            CircuitState::Closed => Ok(()),
            CircuitState::HalfOpen => Ok(()),
            CircuitState::Open => {
                let elapsed: i128 = now as i128 - self.stats.state_changed_at as i128;
                if elapsed >= self.config.timeout_duration_ms as i128 {
                    let s = self.stats;
                    self.stats = CircuitBreakerStats {
                        current_state: CircuitState::HalfOpen,
                        failure_count: s.failure_count,
                        success_count: 0,
                        last_failure_time: s.last_failure_time,
                        state_changed_at: now,
                    };
                    Ok(())
                } else {
                    let left: i128 = self.config.timeout_duration_ms as i128 - elapsed;
                    let secs: i128 = left / 1000;
                    assert(0 < left < 0x4_0000_0000_0000_0000);
                    assert(0 <= secs <= left / 1000);
                    assert(secs < 0x4000_0000_0000_0000) by (nonlinear_arith)
                        requires
                            secs == left / 1000,
                            0 < left < 0x4_0000_0000_0000_0000,
                    ;
                    Err(CircuitOpenError { retry_after_secs: secs as i64 })
                }
            },
        }
    }

    /// Check if a request can proceed through the circuit breaker now.
    pub fn can_proceed(&mut self) -> (r: Result<(), CircuitOpenError>)
        ensures
            final(self)@.config == old(self)@.config,
            exists|now: i64|
                {
                    &&& final(self)@.stats == after_proceed_check(old(self)@.config, old(self)@.stats, now)
                    &&& (r is Ok <==> proceed_allowed(old(self)@.config, old(self)@.stats, now))
                },
            old(self)@.stats.current_state != CircuitState::Open ==> r is Ok && final(self)@.stats
                == old(self)@.stats,
    {
        self.can_proceed_at(now_millis())
    }

    /// Record, at time `now`, a successful operation
    pub fn record_success_at(&mut self, now: i64)
        ensures
            final(self)@.config == old(self)@.config,
            final(self)@.stats == after_success(old(self)@.config, old(self)@.stats, now),
    {
        proof { use_type_invariant(&*self); }
        let s = self.stats;
        match s.current_state {
            CircuitState::Closed => {
                self.stats = CircuitBreakerStats {
                    current_state: CircuitState::Closed,
                    failure_count: 0,
                    success_count: s.success_count,
                    last_failure_time: s.last_failure_time,
                    state_changed_at: s.state_changed_at,
                };
            },
            CircuitState::HalfOpen => {
                let next = s.success_count + 1;
                if next >= self.config.success_threshold {
                    self.stats = closed_stats_exec(s.last_failure_time, now);
                } else {
                    self.stats = CircuitBreakerStats {
                        current_state: CircuitState::HalfOpen,
                        failure_count: s.failure_count,
                        success_count: next,
                        last_failure_time: s.last_failure_time,
                        state_changed_at: s.state_changed_at,
                    };
                }
            },
            CircuitState::Open => {
                self.stats = closed_stats_exec(s.last_failure_time, now);
            },
        }
    }

    /// Record a successful operation now
    pub fn record_success(&mut self)
        ensures
            final(self)@.config == old(self)@.config,
            exists|now: i64|
                final(self)@.stats == after_success(old(self)@.config, old(self)@.stats, now),
    {
        self.record_success_at(now_millis())
    }

    /// Record, at time `now`, a failed operation
    pub fn record_failure_at(&mut self, now: i64)
        ensures
            final(self)@.config == old(self)@.config,
            final(self)@.stats == after_failure(old(self)@.config, old(self)@.stats, now),
    {
        proof { use_type_invariant(&*self); }
        let s = self.stats;
        match s.current_state {
            CircuitState::Closed => {
                let next = s.failure_count + 1;
                if next >= self.config.failure_threshold {
                    self.stats = CircuitBreakerStats {
                        current_state: CircuitState::Open,
                        failure_count: next,
                        success_count: 0,
                        last_failure_time: Some(now),
                        state_changed_at: now,
                    };
                } else {
                    self.stats = CircuitBreakerStats {
                        current_state: CircuitState::Closed,
                        failure_count: next,
                        success_count: s.success_count,
                        last_failure_time: Some(now),
                        state_changed_at: s.state_changed_at,
                    };
                }
            },
            CircuitState::HalfOpen => {
                self.stats = CircuitBreakerStats {
                    current_state: CircuitState::Open,
                    failure_count: self.config.failure_threshold,
                    success_count: 0,
                    last_failure_time: Some(now),
                    state_changed_at: now,
                };
            },
            CircuitState::Open => {
                self.stats = CircuitBreakerStats {
                    current_state: CircuitState::Open,
                    failure_count: s.failure_count,
                    success_count: s.success_count,
                    last_failure_time: Some(now),
                    state_changed_at: now,
                };
            },
        }
    }

    /// Record a failed operation now
    pub fn record_failure(&mut self)
        ensures
            final(self)@.config == old(self)@.config,
            final(self)@.stats.last_failure_time is Some,
            final(self)@.stats == after_failure(
                old(self)@.config,
                old(self)@.stats,
                final(self)@.stats.last_failure_time.unwrap(),
            ),
    {
        self.record_failure_at(now_millis())
    }

    /// Reset, at time `now`, the circuit breaker to closed state
    pub fn reset_at(&mut self, now: i64)
        ensures
            final(self)@.config == old(self)@.config,
            final(self)@.stats == closed_stats(None, now),
    {
        self.stats = closed_stats_exec(None, now);
    }

    /// Reset the circuit breaker to closed state
    pub fn reset(&mut self)
        ensures
            final(self)@.config == old(self)@.config,
            exists|now: i64| final(self)@.stats == closed_stats(None, now),
    {
        self.reset_at(now_millis())
    }
}

fn closed_stats_exec(last_failure_time: Option<i64>, now: i64) -> (s: CircuitBreakerStats)
    ensures
        s == closed_stats(last_failure_time, now),
{
    CircuitBreakerStats {
        current_state: CircuitState::Closed,
        failure_count: 0,
        success_count: 0,
        last_failure_time,
        state_changed_at: now,
    }
}


impl CircuitOpenError {
    /// The rejection message shown to callers.
    pub fn message(&self) -> (m: String)
        ensures
            m@ == "Circuit breaker is open. Service unavailable. Retry after "@ + spec_decimal(
                self.retry_after_secs as int,
            ) + " seconds."@,
    {
        let mut v: Vec<char> = Vec::new();
        append_str(&mut v, "Circuit breaker is open. Service unavailable. Retry after ");
        let n = i64_to_string(self.retry_after_secs);
        append_str(&mut v, n.as_str());
        append_str(&mut v, " seconds.");
        string_from_chars(v.as_slice())
    }
}

/// Whether a (lowercased) error message describes a transient failure worth
/// retrying: connection problems, timeouts, 5xx server errors, or rate limits.
/// Client errors (400, 401, 403, 404) and anything else are not retried.
pub open spec fn retryable_message(lower: Seq<char>) -> bool {
    ||| seq_contains(lower, "connection"@)
    ||| seq_contains(lower, "timeout"@)
    ||| seq_contains(lower, "timed out"@)
    ||| seq_contains(lower, "500"@)
    ||| seq_contains(lower, "502"@)
    ||| seq_contains(lower, "503"@)
    ||| seq_contains(lower, "504"@)
    ||| seq_contains(lower, "429"@)
    ||| seq_contains(lower, "rate limit"@)
}

fn has(hay: &[char], pat: &str) -> (r: bool)
    ensures
        r == seq_contains(hay@, pat@),
{
    let p = chars_of(pat);
    contains_chars(hay, p.as_slice())
}

/// Check if an error (given by its message) is retryable.
pub fn is_retryable_error(error_message: &str) -> (r: bool)
    ensures
        r == retryable_message(spec_to_lowercase(error_message@)),
{
    let lower = to_lowercase(error_message);
    retryable_in(lower.as_str())
}

/// Whether a lowercase error message describes a retryable failure.
pub fn retryable_in(lower: &str) -> (r: bool)
    ensures
        r == retryable_message(lower@),
{
    let lc = chars_of(lower);
    let l = lc.as_slice();
    has(l, "connection") || has(l, "timeout") || has(l, "timed out") || has(l, "500") || has(
        l,
        "502",
    ) || has(l, "503") || has(l, "504") || has(l, "429") || has(l, "rate limit")
}

/// Outcome of one attempt of a retried operation.
#[derive(Debug, Clone, Copy, PartialEq, Eq, Structural)]
pub enum AttemptOutcome {
    Succeeded,
    /// The attempt failed; `retryable` says whether the failure may be retried
    /// (always true when no filter is applied).
    Failed { retryable: bool },
}

/// What the retry loop does after an attempt.
#[derive(Debug, Clone, Copy, PartialEq, Eq, Structural)]
pub enum RetryStep {
    /// Return the successful result.
    ReturnSuccess,
    /// Return this attempt's error without retrying.
    ReturnError,
    /// Wait for the backoff delay of this attempt, then try again.
    BackoffAndRetry,
    /// No attempts are left: report exhaustion.
    Exhausted,
}

/// The retry loop's decision after attempt number `attempt` (counting from 0)
/// out of `max_attempts`.
pub open spec fn spec_retry_step(attempt: int, max_attempts: int, outcome: AttemptOutcome) -> RetryStep {
    match outcome {
        AttemptOutcome::Succeeded => RetryStep::ReturnSuccess,
        AttemptOutcome::Failed { retryable } => {
            if !retryable {
                RetryStep::ReturnError
            } else if attempt + 1 < max_attempts {
                RetryStep::BackoffAndRetry
            } else {
                RetryStep::Exhausted
            }
        },
    }
}

/// Decides what the retry loop does after an attempt. There is no sleep after
/// the last attempt.
pub fn retry_step(attempt: u32, max_attempts: u32, outcome: AttemptOutcome) -> (r: RetryStep)
    ensures
        r == spec_retry_step(attempt as int, max_attempts as int, outcome),
{
    match outcome {
        AttemptOutcome::Succeeded => RetryStep::ReturnSuccess,
        AttemptOutcome::Failed { retryable } => {
            if !retryable {
                RetryStep::ReturnError
            } else if (attempt as u64) + 1 < max_attempts as u64 {
                RetryStep::BackoffAndRetry
            } else {
                RetryStep::Exhausted
            }
        },
    }
}

/// The retry loop backs off only between attempts: never after the last
/// allowed attempt, and it never asks for more than `max_attempts` attempts.
pub proof fn law_retry_backs_off_only_between_attempts(attempt: int, max_attempts: int, outcome: AttemptOutcome)
    requires
        0 <= attempt < max_attempts,
    ensures
        spec_retry_step(attempt, max_attempts, outcome) == RetryStep::BackoffAndRetry ==> attempt + 1
            < max_attempts,
        attempt + 1 == max_attempts ==> spec_retry_step(attempt, max_attempts, outcome)
            != RetryStep::BackoffAndRetry,
{
}

/// Message of a retry loop that exhausted its attempts.
pub fn retry_exhausted_message(max_attempts: u32, last_error: Option<&str>) -> (m: String)
    ensures
        m@ == "Operation failed after "@ + spec_decimal(max_attempts as int) + " attempts. Last error: "@
            + match last_error {
            Some(e) => e@,
            None => "unknown error"@,
        },
{
    let mut v: Vec<char> = Vec::new();
    append_str(&mut v, "Operation failed after ");
    let n = u64_to_string(max_attempts as u64);
    append_str(&mut v, n.as_str());
    append_str(&mut v, " attempts. Last error: ");
    match last_error {
        Some(e) => append_str(&mut v, e),
        None => append_str(&mut v, "unknown error"),
    }
    string_from_chars(v.as_slice())
}

/// Message of a filtered retry loop that made no attempt at all.
pub fn retry_no_error_message(max_attempts: u32) -> (m: String)
    ensures
        m@ == "Operation failed after "@ + spec_decimal(max_attempts as int)
            + " attempts with no error recorded"@,
{
    let mut v: Vec<char> = Vec::new();
    append_str(&mut v, "Operation failed after ");
    let n = u64_to_string(max_attempts as u64);
    append_str(&mut v, n.as_str());
    append_str(&mut v, " attempts with no error recorded");
    string_from_chars(v.as_slice())
}

} // verus!
