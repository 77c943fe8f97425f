//! Embeddings: the provider as the core sees it, and the logic of the
//! client that asks an embedding service.

use vstd::prelude::*;
use crate::error::ContextError;

pub mod cache;
pub mod client_v2;
pub mod models;

pub use cache::EmbeddingCache;
pub use client_v2::{EmbeddingClient, EmbeddingClientV2};
pub use models::{EmbeddingInput, EmbeddingRequest, EmbeddingResponse};

verus! {

/// A source of embeddings.
///
/// The core promises nothing of a provider and is verified for whatever one
/// answers. A provider is expected to answer a text with a vector of
/// `embedding_dimension` components, given as bit patterns, and a batch
/// with one vector per text, in order.
pub trait EmbeddingProvider {
    fn embed_single(&self, text: &str) -> Result<Vec<u32>, ContextError>;

    fn embed_batch(&self, texts: &Vec<String>) -> Result<Vec<Vec<u32>>, ContextError>;

    fn embedding_dimension(&self) -> usize;
}

} // verus!
