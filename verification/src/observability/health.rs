//! Health of the service and of its components.
//!
//! Probing a component is the caller's part. What a probe means for the
//! component, and what the components mean for the service, is decided
//! here.

use vstd::prelude::*;
use crate::error::{ContextError, VectorDbError};
use crate::time::{millis_of, millis_since, unix_now};
use crate::vector_db::circuit_breaker::CircuitState;

verus! {

/// Health of a component or of the service.
#[derive(Debug, Clone, Copy, PartialEq, Eq, Structural)]
pub enum HealthStatus {
    Healthy,
    Degraded,
    Unhealthy,
}

/// Health of one component.
#[derive(Debug, Clone)]
pub struct ComponentHealth {
    pub name: String,
    pub status: HealthStatus,
    pub message: Option<String>,
    pub response_time_ms: Option<u64>,
}

/// Health of the service.
#[derive(Debug, Clone)]
pub struct SystemHealth {
    pub status: HealthStatus,
    pub uptime_secs: u64,
    pub components: Vec<ComponentHealth>,
    /// Seconds since the epoch at which the health was taken.
    pub timestamp: i64,
}

/// The health of a service with these components: healthy where all are,
/// unhealthy where one is, degraded otherwise.
pub open spec fn overall(components: Seq<ComponentHealth>) -> HealthStatus {
    if forall|i: int| 0 <= i < components.len() ==> (#[trigger] components[i]).status
        == HealthStatus::Healthy {
        HealthStatus::Healthy
    } else if exists|i: int| 0 <= i < components.len() && (#[trigger] components[i]).status
        == HealthStatus::Unhealthy {
        HealthStatus::Unhealthy
    } else {
        HealthStatus::Degraded
    }
}

/// The health that a circuit breaker in a given state stands for; degraded
/// where there is no circuit breaker.
pub open spec fn breaker_health(state: Option<CircuitState>) -> HealthStatus {
    match state {
        Some(CircuitState::Closed) => HealthStatus::Healthy,
        Some(CircuitState::Open) => HealthStatus::Unhealthy,
        Some(CircuitState::HalfOpen) => HealthStatus::Degraded,
        None => HealthStatus::Degraded,
    }
}

/// The health of a service with these components.
pub fn overall_status(components: &Vec<ComponentHealth>) -> (status: HealthStatus)
    ensures
        status == overall(components@),
{
    let mut all_healthy = true;
    let mut any_unhealthy = false;
    let mut i: usize = 0;
    while i < components.len()
        invariant
            i <= components@.len(),
            all_healthy == (forall|j: int|
                0 <= j < i ==> (#[trigger] components@[j]).status == HealthStatus::Healthy),
            any_unhealthy == (exists|j: int|
                0 <= j < i && (#[trigger] components@[j]).status == HealthStatus::Unhealthy),
        decreases components.len() - i,
    {
        match components[i].status {
            HealthStatus::Healthy => {},
            HealthStatus::Degraded => {
                all_healthy = false;
            },
            HealthStatus::Unhealthy => {
                all_healthy = false;
                any_unhealthy = true;
            },
        }
        i = i + 1;
    }
    if all_healthy {
        HealthStatus::Healthy
    } else if any_unhealthy {
        HealthStatus::Unhealthy
    } else {
        HealthStatus::Degraded
    }
}

/// The health of the service from the health of its components.
pub fn system_health(components: Vec<ComponentHealth>, uptime_secs: u64, timestamp: i64) -> (health:
    SystemHealth)
    ensures
        health.status == overall(components@),
        health.uptime_secs == uptime_secs,
        health.components == components,
        health.timestamp == timestamp,
{
    let status = overall_status(&components);
    SystemHealth { status, uptime_secs, components, timestamp }
}

/// The health of the circuit breaker component.
pub fn check_circuit_breaker(state: Option<CircuitState>) -> (health: ComponentHealth)
    ensures
        health.name@ == "circuit_breaker"@,
        health.status == breaker_health(state),
        health.message is Some,
        health.response_time_ms == if state is Some {
            Some(0u64)
        } else {
            None
        },
{
    let (status, message, response_time_ms) = match state {
        Some(CircuitState::Closed) => (
            HealthStatus::Healthy,
            "Circuit closed - normal operation",
            Some(0),
        ),
        Some(CircuitState::Open) => (
            HealthStatus::Unhealthy,
            "Circuit open - service unavailable",
            Some(0),
        ),
        Some(CircuitState::HalfOpen) => (
            HealthStatus::Degraded,
            "Circuit half-open - testing recovery",
            Some(0),
        ),
        None => (HealthStatus::Degraded, "Not configured", None),
    };
    ComponentHealth {
        name: "circuit_breaker".to_owned(),
        status,
        message: Some(message.to_owned()),
        response_time_ms,
    }
}

/// The health of a component that is not configured: degraded.
pub fn not_configured(name: &str) -> (health: ComponentHealth)
    ensures
        health.name@ == name@,
        health.status == HealthStatus::Degraded,
        health.message matches Some(message) && message@ == "Not configured"@,
        health.response_time_ms is None,
{
    ComponentHealth {
        name: name.to_owned(),
        status: HealthStatus::Degraded,
        message: Some("Not configured".to_owned()),
        response_time_ms: None,
    }
}

/// The health of the embedding service from the dimension that it states:
/// healthy for a dimension above zero, unhealthy for zero.
pub fn check_embedding_service(dimension: usize, response_time_ms: u64) -> (health: ComponentHealth)
    ensures
        health.name@ == "embedding_service"@,
        health.status == if dimension > 0 {
            HealthStatus::Healthy
        } else {
            HealthStatus::Unhealthy
        },
        health.response_time_ms == Some(response_time_ms),
{
    if dimension > 0 {
        ComponentHealth {
            name: "embedding_service".to_owned(),
            status: HealthStatus::Healthy,
            message: Some("Service operational".to_owned()),
            response_time_ms: Some(response_time_ms),
        }
    } else {
        ComponentHealth {
            name: "embedding_service".to_owned(),
            status: HealthStatus::Unhealthy,
            message: Some("Invalid embedding dimension".to_owned()),
            response_time_ms: Some(response_time_ms),
        }
    }
}

/// The health of the cache from its hit rate, in millionths: healthy
/// above one half, degraded otherwise.
pub fn check_cache(hit_rate: u32, response_time_ms: u64) -> (health: ComponentHealth)
    ensures
        health.name@ == "cache"@,
        health.status == if hit_rate > 500_000 {
            HealthStatus::Healthy
        } else {
            HealthStatus::Degraded
        },
        health.response_time_ms == Some(response_time_ms),
{
    let status = if hit_rate > 500_000 {
        HealthStatus::Healthy
    } else {
        HealthStatus::Degraded
    };
    ComponentHealth {
        name: "cache".to_owned(),
        status,
        message: Some("Cache operational".to_owned()),
        response_time_ms: Some(response_time_ms),
    }
}

/// The health that an answer of the vector index to a probe stands for: a
/// failure to connect is unhealthy, every other answer healthy, since a
/// probe for a point that is not there may well fail.
pub open spec fn index_health(failure: Option<ContextError>) -> HealthStatus {
    match failure {
        Some(ContextError::VectorDb(VectorDbError::ConnectionError(_))) => HealthStatus::Unhealthy,
        _ => HealthStatus::Healthy,
    }
}

/// The health of the vector index from the failure of a probe, if it
/// failed.
pub fn check_vector_db(failure: Option<ContextError>, response_time_ms: u64) -> (health:
    ComponentHealth)
    ensures
        health.name@ == "vector_database"@,
        health.status == index_health(failure),
        health.response_time_ms == Some(response_time_ms),
{
    let unhealthy = match failure {
        Some(ContextError::VectorDb(VectorDbError::ConnectionError(_))) => true,
        _ => false,
    };
    if unhealthy {
        ComponentHealth {
            name: "vector_database".to_owned(),
            status: HealthStatus::Unhealthy,
            message: Some("Database error".to_owned()),
            response_time_ms: Some(response_time_ms),
        }
    } else {
        ComponentHealth {
            name: "vector_database".to_owned(),
            status: HealthStatus::Healthy,
            message: Some("Database operational".to_owned()),
            response_time_ms: Some(response_time_ms),
        }
    }
}

/// A copy of the health of a component.
pub fn copy_component(health: &ComponentHealth) -> (copy: ComponentHealth)
    ensures
        copy == *health,
{
    ComponentHealth {
        name: health.name.clone(),
        status: health.status,
        message: match &health.message {
            Some(message) => Some(message.clone()),
            None => None,
        },
        response_time_ms: health.response_time_ms,
    }
}

/// A copy of the health of the service.
pub fn copy_health(health: &SystemHealth) -> (copy: SystemHealth)
    ensures
        copy.status == health.status,
        copy.uptime_secs == health.uptime_secs,
        copy.timestamp == health.timestamp,
        copy.components@ == health.components@,
{
    let mut components: Vec<ComponentHealth> = Vec::new();
    let mut i: usize = 0;
    while i < health.components.len()
        invariant
            i <= health.components@.len(),
            components@ == health.components@.take(i as int),
        decreases health.components.len() - i,
    {
        components.push(copy_component(&health.components[i]));
        assert(components@ =~= health.components@.take(i + 1));
        i = i + 1;
    }
    assert(health.components@.take(health.components@.len() as int) =~= health.components@);
    SystemHealth {
        status: health.status,
        uptime_secs: health.uptime_secs,
        components,
        timestamp: health.timestamp,
    }
}

/// A health that was taken, and when, in milliseconds on the checker's
/// clock.
pub struct CachedHealth {
    pub result: SystemHealth,
    pub cached_at: u128,
}

/// Whether a health taken at `cached_at` is still answered with at `now`.
pub open spec fn fresh_at(cached_at: u128, ttl_ms: nat, now: u128) -> bool {
    now >= cached_at && now - cached_at < ttl_ms
}

/// The health checker: it keeps the last health and answers with it while
/// it is fresh.
pub struct HealthChecker {
    origin: std::time::Instant,
    cached_result: Option<CachedHealth>,
    cache_ttl: core::time::Duration,
}

impl HealthChecker {
    /// The health that is kept.
    pub closed spec fn cached(self) -> Option<CachedHealth> {
        self.cached_result
    }

    /// The time for which a health is fresh, in milliseconds.
    pub closed spec fn ttl_ms(self) -> nat {
        millis_of(self.cache_ttl)
    }

    /// A checker that keeps a health for thirty seconds.
    pub fn new() -> (checker: Self)
        ensures
            checker.cached() is None,
            checker.ttl_ms() == 30_000,
    {
        Self::with_cache_ttl(core::time::Duration::from_secs(30))
    }

    /// A checker that keeps a health for `cache_ttl`.
    pub fn with_cache_ttl(cache_ttl: core::time::Duration) -> (checker: Self)
        ensures
            checker.cached() is None,
            checker.ttl_ms() == millis_of(cache_ttl),
    {
        HealthChecker { origin: std::time::Instant::now(), cached_result: None, cache_ttl }
    }

    /// The present time on the checker's clock, in milliseconds.
    pub fn clock(&self) -> u128 {
        millis_since(&self.origin)
    }

    /// The health that is kept, where it is fresh at `now`.
    pub fn cached_at(&self, now: u128) -> (health: Option<SystemHealth>)
        ensures
            match health {
                Some(health) => self.cached() matches Some(kept) && fresh_at(
                    kept.cached_at,
                    self.ttl_ms(),
                    now,
                ) && health.status == kept.result.status && health.components@
                    == kept.result.components@ && health.uptime_secs == kept.result.uptime_secs
                    && health.timestamp == kept.result.timestamp,
                None => !(self.cached() matches Some(kept) && fresh_at(
                    kept.cached_at,
                    self.ttl_ms(),
                    now,
                )),
            },
    {
        match &self.cached_result {
            Some(kept) => {
                if now >= kept.cached_at && now - kept.cached_at < self.cache_ttl.as_millis() {
                    Some(copy_health(&kept.result))
                } else {
                    None
                }
            },
            None => None,
        }
    }

    /// Takes the health of the service from the health of its components
    /// and keeps it as of `now`.
    pub fn record(&mut self, components: Vec<ComponentHealth>, now: u128) -> (health: SystemHealth)
        ensures
            final(self).ttl_ms() == old(self).ttl_ms(),
            health.status == overall(components@),
            health.components@ == components@,
            final(self).cached() matches Some(kept) && kept.cached_at == now && kept.result.status
                == health.status && kept.result.components@ == components@,
    {
        let uptime = now / 1000;
        let uptime_secs = if uptime > u64::MAX as u128 {
            u64::MAX
        } else {
            uptime as u64
        };
        let health = system_health(components, uptime_secs, unix_now());
        let kept = copy_health(&health);
        self.cached_result = Some(CachedHealth { result: kept, cached_at: now });
        health
    }

    /// `health` and `after` are what a check at `now` makes of the checker
    /// `before`: the kept health while it is fresh, with nothing changed,
    /// else the health of these components, which is kept as of `now`.
    pub open spec fn answered_at(
        before: Self,
        after: Self,
        components: Seq<ComponentHealth>,
        now: u128,
        health: SystemHealth,
    ) -> bool {
        &&& after.ttl_ms() == before.ttl_ms()
        &&& if before.cached() is Some && fresh_at(
            before.cached()->0.cached_at,
            before.ttl_ms(),
            now,
        ) {
            &&& health.status == before.cached()->0.result.status
            &&& health.components@ == before.cached()->0.result.components@
            &&& after.cached() == before.cached()
        } else {
            &&& health.status == overall(components)
            &&& health.components@ == components
            &&& after.cached() is Some
            &&& after.cached()->0.cached_at == now
        }
    }

    /// The health of the service at `now` on the checker's clock: the kept
    /// one while it is fresh, else the health of these components, which is
    /// then kept.
    pub fn check_health_at(&mut self, components: Vec<ComponentHealth>, now: u128) -> (health:
        SystemHealth)
        ensures
            Self::answered_at(*old(self), *final(self), components@, now, health),
    {
        match self.cached_at(now) {
            Some(kept) => kept,
            None => self.record(components, now),
        }
    }

    /// The health of the service now: the kept one while it is fresh, else
    /// the health of these components.
    pub fn check_health(&mut self, components: Vec<ComponentHealth>) -> (health: SystemHealth)
        ensures
            exists|now: u128| Self::answered_at(*old(self), *final(self), components@, now, health),
    {
        let now = self.clock();
        self.check_health_at(components, now)
    }

    /// The health of these components, whatever is kept; it is kept from
    /// now on.
    pub fn check_health_fresh(&mut self, components: Vec<ComponentHealth>) -> (health: SystemHealth)
        ensures
            final(self).ttl_ms() == old(self).ttl_ms(),
            health.status == overall(components@),
            health.components@ == components@,
            final(self).cached() is Some,
    {
        let now = self.clock();
        self.record(components, now)
    }

    /// Whether the service is alive. It always is.
    pub fn liveness(&self) -> (alive: bool)
        ensures
            alive,
    {
        true
    }

    /// Whether a service of this health takes requests: it does unless it
    /// is unhealthy.
    pub fn readiness(&self, health: &SystemHealth) -> (ready: bool)
        ensures
            ready == (health.status != HealthStatus::Unhealthy),
    {
        readiness(health)
    }
}

/// Whether the service is alive. It always is.
pub fn liveness() -> (alive: bool)
    ensures
        alive,
{
    true
}

/// Whether a service of this health takes requests: it does unless it is
/// unhealthy.
pub fn readiness(health: &SystemHealth) -> (ready: bool)
    ensures
        ready == (health.status != HealthStatus::Unhealthy),
{
    match health.status {
        HealthStatus::Unhealthy => false,
        _ => true,
    }
}

} // verus!
