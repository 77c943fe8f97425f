//! The checks that a configuration passes when it is loaded, before it is
//! validated in full.

use vstd::prelude::*;
use crate::config::validation::{reports, weight_sum};
use crate::config::{Config, RetrievalStrategy};
use crate::error::ContextError;
use crate::units::{sums_to_one, SCALE, SUM_TOLERANCE};

verus! {

/// Sum of the three shares of the token budget.
pub open spec fn allocation_sum(s: RetrievalStrategy) -> int {
    s.l1_allocation + s.l2_allocation + s.l3_allocation
}

/// The first rule that a loaded configuration breaks.
pub open spec fn load_fault(c: Config) -> Option<Seq<char>> {
    if c.embedding.api_token@.len() == 0 {
        Some("Embedding API token is required"@)
    } else if c.embedding.batch_size == 0 {
        Some("Embedding batch size must be greater than 0"@)
    } else if c.vector_db.url@.len() == 0 {
        Some("Vector database URL is required"@)
    } else if c.vector_db.vector_size == 0 {
        Some("Vector size must be greater than 0"@)
    } else if c.hirag.max_context_tokens == 0 {
        Some("Max context tokens must be greater than 0"@)
    } else if !sums_to_one(allocation_sum(c.hirag.retrieval_strategy)) {
        Some("Retrieval strategy allocations must sum to 1.0"@)
    } else if !sums_to_one(weight_sum(c.hirag.ranking_weights)) {
        Some("Ranking weights must sum to 1.0"@)
    } else {
        None
    }
}

fn fault(message: &str) -> (r: Result<(), ContextError>)
    ensures
        reports(r, Some(message@)),
{
    Err(ContextError::Config(message.to_owned()))
}

fn near_one(sum: u64) -> (near: bool)
    ensures
        near == sums_to_one(sum as int),
{
    sum >= (SCALE - SUM_TOLERANCE) as u64 && sum <= (SCALE + SUM_TOLERANCE) as u64
}

/// Checks a configuration that was loaded: the token, the sizes, and that
/// the shares of the budget and the ranking weights each add up to one within
/// a hundredth.
pub fn validate_config(config: &Config) -> (r: Result<(), ContextError>)
    ensures
        reports(r, load_fault(*config)),
{
    if config.embedding.api_token.as_str().unicode_len() == 0 {
        return fault("Embedding API token is required");
    }
    if config.embedding.batch_size == 0 {
        return fault("Embedding batch size must be greater than 0");
    }
    if config.vector_db.url.as_str().unicode_len() == 0 {
        return fault("Vector database URL is required");
    }
    if config.vector_db.vector_size == 0 {
        return fault("Vector size must be greater than 0");
    }
    if config.hirag.max_context_tokens == 0 {
        return fault("Max context tokens must be greater than 0");
    }
    let s = &config.hirag.retrieval_strategy;
    if !near_one(s.l1_allocation as u64 + s.l2_allocation as u64 + s.l3_allocation as u64) {
        return fault("Retrieval strategy allocations must sum to 1.0");
    }
    let w = &config.hirag.ranking_weights;
    if !near_one(
        w.similarity_weight as u64 + w.recency_weight as u64 + w.level_weight as u64
            + w.frequency_weight as u64,
    ) {
        return fault("Ranking weights must sum to 1.0");
    }
    Ok(())
}

} // verus!
