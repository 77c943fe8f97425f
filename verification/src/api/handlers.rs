//! Bodies of the requests and responses of the HTTP interface, and what a
//! handler makes of them before it calls the manager.

use vstd::prelude::*;
use crate::hirag::models::{ContextRequest, Priority};
use crate::metadata::Metadata;
use crate::middleware::validator::{metadata_verdict, InputValidator, ValidationError};
use crate::vector_db::models::ContextLevel;

verus! {

/// Body of a request to store a context.
#[derive(Debug, Clone)]
pub struct StoreContextRequest {
    pub text: String,
    pub level: ContextLevel,
    pub metadata: Metadata,
}

/// Body of the response to a stored context.
#[derive(Debug, Clone, Copy, PartialEq, Eq, Structural)]
pub struct StoreContextResponse {
    pub id: u128,
}

/// Body of a request to search contexts.
#[derive(Debug, Clone)]
pub struct SearchContextRequest {
    pub query: String,
    pub max_tokens: usize,
    pub levels: Vec<ContextLevel>,
    pub priority: Priority,
    pub session_id: Option<String>,
}

/// Body of a request to delete a context.
#[derive(Debug, Clone, Copy, PartialEq, Eq, Structural)]
pub struct DeleteContextRequest {
    pub id: u128,
}

/// Body of a response that reports success.
#[derive(Debug, Clone)]
pub struct SuccessResponse {
    pub message: String,
}

/// Body of a response that reports a failure.
#[derive(Debug, Clone)]
pub struct ErrorResponse {
    pub error: String,
}

impl SearchContextRequest {
    /// The retrieval request that a search asks for: the same query,
    /// budget, tiers, priority and session, and no filter.
    pub fn into_request(self) -> (request: ContextRequest)
        ensures
            request == (ContextRequest {
                query: self.query,
                max_tokens: self.max_tokens,
                levels: self.levels,
                filters: None,
                priority: self.priority,
                session_id: self.session_id,
            }),
    {
        ContextRequest {
            query: self.query,
            max_tokens: self.max_tokens,
            levels: self.levels,
            filters: None,
            priority: self.priority,
            session_id: self.session_id,
        }
    }
}

impl StoreContextRequest {
    /// Checks the metadata of a request before anything is stored.
    pub fn check_metadata(&self) -> (r: Result<(), ValidationError>)
        ensures
            r == metadata_verdict(self.metadata.entries()),
    {
        InputValidator::validate_metadata(&self.metadata)
    }
}

} // verus!
