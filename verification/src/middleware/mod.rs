//! Checks applied to requests before they reach the core.

pub mod auth;
pub mod body_limit;
pub mod rate_limiter;
pub mod validator;

pub use auth::{AuthConfig, AuthError, AuthMiddleware};
pub use body_limit::{BodyLimitConfig, BodyLimiter};
pub use rate_limiter::{RateLimitConfig, RateLimitError, RateLimiter};
pub use validator::{InputValidator, ValidationError};
