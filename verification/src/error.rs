//! Error types of the context manager.

use vstd::prelude::*;
use crate::middleware::auth::AuthError;
use crate::middleware::rate_limiter::RateLimitError;
use crate::middleware::validator::ValidationError;

verus! {

/// Failures of the embedding layer.
#[derive(Debug, Clone)]
pub enum EmbeddingError {
    /// The service answered, but not with a usable result.
    ApiError(String),
    /// The request did not reach the service or no answer came back.
    NetworkError(String),
    /// A request or a response could not be encoded or decoded.
    SerializationError(String),
    /// The caller's input was rejected before any request.
    InvalidInput(String),
    /// The service refused because of its rate limit.
    RateLimitExceeded,
    /// The service refused the credentials.
    AuthenticationFailed,
    /// No answer within this many seconds.
    Timeout(u64),
    /// The circuit breaker is open.
    ServiceUnavailable(String),
    /// The embedding cache failed.
    CacheError(String),
}

/// Failures of the vector index.
#[derive(Debug, Clone)]
pub enum VectorDbError {
    ConnectionError(String),
    CollectionNotFound(String),
    CollectionExists(String),
    SearchError(String),
    InsertError(String),
    DeleteError(String),
    InvalidDimension { expected: usize, actual: usize },
    PayloadTooLarge { size: usize, max_size: usize },
    InvalidIdFormat(String),
    SerializationError(String),
    QdrantError(String),
}

/// Failures of the retrieval manager.
#[derive(Debug, Clone)]
pub enum HiRAGError {
    ContextNotFound(String),
    InvalidLevel(String),
    TokenLimitExceeded { limit: usize },
    RetrievalError(String),
    StorageError(String),
    RankingError(String),
}

/// Failures of the message protocol.
#[derive(Debug, Clone)]
pub enum ProtocolError {
    InvalidFormat(String),
    UnsupportedVersion(String),
    ValidationFailed(String),
    EncodingError(String),
    DecodingError(String),
    HandlerNotFound(String),
    MessageTooLarge { size: usize, max_size: usize },
}

/// Any failure of the context manager.
#[derive(Debug, Clone)]
pub enum ContextError {
    Embedding(EmbeddingError),
    VectorDb(VectorDbError),
    HiRAG(HiRAGError),
    Protocol(ProtocolError),
    Validation(ValidationError),
    RateLimit(RateLimitError),
    Auth(AuthError),
    Config(String),
    Internal(String),
}

impl ContextError {
    /// The part of the service that a failure comes from.
    pub open spec fn category_text(self) -> Seq<char> {
        match self {
            ContextError::Embedding(_) => "Embedding error"@,
            ContextError::VectorDb(_) => "Vector database error"@,
            ContextError::HiRAG(_) => "HiRAG error"@,
            ContextError::Protocol(_) => "Protocol error"@,
            ContextError::Validation(_) => "Validation error"@,
            ContextError::RateLimit(_) => "Rate limit error"@,
            ContextError::Auth(_) => "Authentication error"@,
            ContextError::Config(_) => "Configuration error"@,
            ContextError::Internal(_) => "Internal error"@,
        }
    }

    /// The part of the service that a failure comes from.
    pub fn category(&self) -> (text: &'static str)
        ensures
            text@ == self.category_text(),
    {
        match self {
            ContextError::Embedding(_) => "Embedding error",
            ContextError::VectorDb(_) => "Vector database error",
            ContextError::HiRAG(_) => "HiRAG error",
            ContextError::Protocol(_) => "Protocol error",
            ContextError::Validation(_) => "Validation error",
            ContextError::RateLimit(_) => "Rate limit error",
            ContextError::Auth(_) => "Authentication error",
            ContextError::Config(_) => "Configuration error",
            ContextError::Internal(_) => "Internal error",
        }
    }
}

} // verus!
