//! The vector index as the core sees it: tiers, points, queries and filters.

use vstd::prelude::*;
use crate::error::ContextError;

pub mod circuit_breaker;
pub mod client;
pub mod models;
pub mod search;

pub use circuit_breaker::{CircuitBreaker, CircuitBreakerConfig, CircuitState};
pub use models::{
    Condition, ContextLevel, Filter, Payload, SearchParams, SearchResult, VectorPoint,
};

verus! {

/// A similarity index over named collections of points.
///
/// The core promises nothing of an index and is verified for whatever one
/// answers. An index is expected to create and delete collections, to
/// insert points by id, replacing a point of the same id, to answer a
/// search with results by falling similarity, and to delete points by id,
/// missing ids being no error.
pub trait VectorStore {
    fn create_collection(&self, name: &str) -> Result<(), ContextError>;

    fn delete_collection(&self, name: &str) -> Result<(), ContextError>;

    fn insert_points(&self, collection: &str, points: Vec<VectorPoint>) -> Result<(), ContextError>;

    fn search(&self, collection: &str, params: SearchParams) -> Result<
        Vec<SearchResult>,
        ContextError,
    >;

    fn delete_points(&self, collection: &str, ids: Vec<u128>) -> Result<(), ContextError>;

    fn get_point(&self, collection: &str, id: u128) -> Result<Option<VectorPoint>, ContextError>;
}

} // verus!
