//! Hierarchical retrieval: the tiers, the ranking and the manager.

use vstd::prelude::*;
use crate::error::ContextError;
use crate::metadata::Metadata;
use crate::vector_db::models::ContextLevel;

pub mod arrange;
pub mod background;
pub mod budget;
pub mod l1_cache;
pub mod manager_v2;
pub mod models;
pub mod ranker;
pub mod retriever;
pub mod token_estimator;

pub use manager_v2::{HiRAGManager, HiRAGManagerV2};
pub use models::{Context, ContextRequest, ContextResponse, Priority};
pub use ranker::{ContextRanker, ScoreCurves};
pub use token_estimator::TokenEstimator;

verus! {

/// The operations of a context manager.
///
/// A manager may have to be in order before it is used, and stays in order
/// through every operation; `ready` says what that means for it.
pub trait ContextManager {
    /// Whether the manager is in order.
    spec fn ready(&self) -> bool;

    /// Stores a text in a tier and gives the id that it was stored under.
    fn store_context(&mut self, text: &str, level: ContextLevel, metadata: Metadata) -> (r: Result<
        u128,
        ContextError,
    >)
        requires
            old(self).ready(),
        ensures
            final(self).ready(),
    ;

    /// Answers a request with the most relevant items within its budget.
    fn retrieve_context(&mut self, request: ContextRequest) -> (r: Result<
        ContextResponse,
        ContextError,
    >)
        requires
            old(self).ready(),
        ensures
            final(self).ready(),
    ;

    /// Writes newer metadata over the metadata of an item.
    fn update_context(&mut self, id: u128, metadata: Metadata) -> (r: Result<(), ContextError>)
        requires
            old(self).ready(),
        ensures
            final(self).ready(),
    ;

    /// Deletes an item from every tier.
    fn delete_context(&mut self, id: u128) -> (r: Result<(), ContextError>)
        requires
            old(self).ready(),
        ensures
            final(self).ready(),
    ;

    /// Empties a tier.
    fn clear_level(&mut self, level: ContextLevel) -> (r: Result<(), ContextError>)
        requires
            old(self).ready(),
        ensures
            final(self).ready(),
    ;
}

} // verus!
