//! Requests to and responses of the embedding service.

use vstd::prelude::*;

verus! {

/// The texts of a request: one, or a batch.
#[derive(Debug, Clone)]
pub enum EmbeddingInput {
    Single(String),
    Batch(Vec<String>),
}

/// A request for embeddings.
#[derive(Debug, Clone)]
pub struct EmbeddingRequest {
    pub input: EmbeddingInput,
    /// The model to use; the service's own where none is named.
    pub model: Option<String>,
}

/// Tokens that a request took.
#[derive(Debug, Clone, Copy, PartialEq, Eq, Structural)]
pub struct UsageStats {
    pub prompt_tokens: usize,
    pub total_tokens: usize,
}

/// One embedding of a response.
#[derive(Debug, Clone)]
pub struct EmbeddingData {
    /// The vector, as bit patterns.
    pub embedding: Vec<u32>,
    /// Position of the text in the request.
    pub index: usize,
    pub object: String,
}

/// A response of the embedding service.
#[derive(Debug, Clone)]
pub struct EmbeddingResponse {
    pub data: Vec<EmbeddingData>,
    pub model: String,
    pub usage: UsageStats,
}

impl EmbeddingRequest {
    /// A request for the embedding of one text, by the service's own model.
    pub fn single(text: String) -> (request: Self)
        ensures
            request.input == EmbeddingInput::Single(text),
            request.model is None,
    {
        EmbeddingRequest { input: EmbeddingInput::Single(text), model: None }
    }

    /// A request for the embeddings of a batch of texts, by the service's
    /// own model.
    pub fn batch(texts: Vec<String>) -> (request: Self)
        ensures
            request.input == EmbeddingInput::Batch(texts),
            request.model is None,
    {
        EmbeddingRequest { input: EmbeddingInput::Batch(texts), model: None }
    }
}

} // verus!
