//! The items that most users of the library need.

pub use crate::config::Config;
pub use crate::embedding::{EmbeddingClient, EmbeddingProvider};
pub use crate::error::ContextError;
pub use crate::hirag::{ContextManager, ContextRequest, ContextResponse, HiRAGManager};
pub use crate::middleware::{AuthConfig, AuthMiddleware, InputValidator, RateLimitConfig, RateLimiter};
pub use crate::observability::{HealthChecker, MetricsCollector};
pub use crate::protocol::{Message, MessageHandler};
pub use crate::vector_db::{ContextLevel, VectorStore};
