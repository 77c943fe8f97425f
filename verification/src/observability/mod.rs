//! Health and metrics of the service.

pub mod health;
pub mod metrics;

pub use health::{ComponentHealth, HealthChecker, HealthStatus, SystemHealth};
pub use metrics::{MetricsCollector, SystemMetrics};
