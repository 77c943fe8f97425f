//! Requests, responses and the context item.

use vstd::prelude::*;
use crate::metadata::Metadata;
use crate::vector_db::models::{ContextLevel, Filter};

verus! {

/// A context item as it is retrieved.
#[derive(Debug, Clone)]
pub struct Context {
    pub id: u128,
    pub text: String,
    pub level: ContextLevel,
    /// Relevance, in millionths: the similarity from the search until the
    /// item is ranked, the composite score afterwards.
    pub relevance_score: u32,
    /// Estimated tokens of the text.
    pub token_count: usize,
    /// Seconds since the epoch at which the item was written.
    pub timestamp: i64,
    pub metadata: Metadata,
}

/// How urgent a retrieval is.
#[derive(Debug, Clone, Copy, PartialEq, Eq, Structural)]
pub enum Priority {
    Low,
    Normal,
    High,
    Critical,
}

impl Default for Priority {
    fn default() -> (priority: Self)
        ensures
            priority == Priority::Normal,
    {
        Priority::Normal
    }
}

/// A retrieval request.
#[derive(Debug, Clone)]
pub struct ContextRequest {
    pub query: String,
    /// The token budget of the response.
    pub max_tokens: usize,
    /// Tiers to search; none stands for all three.
    pub levels: Vec<ContextLevel>,
    pub filters: Option<Filter>,
    pub priority: Priority,
    pub session_id: Option<String>,
}

/// How many items of a response came from each tier.
#[derive(Debug, Clone, Copy, PartialEq, Eq, Structural)]
pub struct LevelDistribution {
    pub immediate: usize,
    pub short_term: usize,
    pub long_term: usize,
}

/// Facts about a retrieval.
#[derive(Debug, Clone, Copy, PartialEq, Eq, Structural)]
pub struct ResponseMetadata {
    pub level_distribution: LevelDistribution,
    /// Mean relevance of the returned items, in millionths, rounded down;
    /// zero where none is returned.
    pub avg_relevance: u32,
    /// One where the in-memory tier was read, else zero.
    pub cache_hits: usize,
    /// Candidates that the tiers handed in.
    pub total_searched: usize,
}

/// A retrieval response.
#[derive(Debug, Clone)]
pub struct ContextResponse {
    /// The items, best first.
    pub contexts: Vec<Context>,
    /// Sum of the items' token counts.
    pub total_tokens: usize,
    pub retrieval_time_ms: u64,
    pub metadata: ResponseMetadata,
}

/// Figures about the whole store.
#[derive(Debug, Clone, Copy, PartialEq, Eq, Structural)]
pub struct HiRAGStats {
    pub total_contexts: usize,
    pub contexts_per_level: LevelDistribution,
    /// Mean retrieval time in microseconds.
    pub avg_retrieval_time_us: u64,
    /// Cache hit rate, in millionths.
    pub cache_hit_rate: u32,
    /// Mean relevance, in millionths.
    pub avg_relevance_score: u32,
    pub storage_size_bytes: usize,
}

/// A restriction of a search by tier, tags and dates.
#[derive(Debug, Clone)]
pub struct ContextFilter {
    pub level: Option<ContextLevel>,
    pub tags: Option<Vec<String>>,
    /// Seconds since the epoch.
    pub expires_before: Option<i64>,
    /// Seconds since the epoch.
    pub created_after: Option<i64>,
}

/// A search as the HTTP interface takes it.
#[derive(Debug, Clone)]
pub struct SearchQuery {
    pub query: String,
    pub limit: Option<usize>,
    pub filter: Option<ContextFilter>,
}

impl Context {
    /// An item without metadata and with relevance zero.
    pub fn new(id: u128, text: String, level: ContextLevel, timestamp: i64, token_count: usize) -> (context:
        Self)
        ensures
            context.id == id,
            context.text == text,
            context.level == level,
            context.relevance_score == 0,
            context.token_count == token_count,
            context.timestamp == timestamp,
            context.metadata.entries().len() == 0,
    {
        Context {
            id,
            text,
            level,
            relevance_score: 0,
            token_count,
            timestamp,
            metadata: Metadata::new(),
        }
    }
}

impl ContextRequest {
    /// A request over all tiers, without filter or session, of normal
    /// priority.
    pub fn new(query: String, max_tokens: usize) -> (request: Self)
        ensures
            request.query == query,
            request.max_tokens == max_tokens,
            request.levels@.len() == 0,
            request.filters is None,
            request.priority == Priority::Normal,
            request.session_id is None,
    {
        ContextRequest {
            query,
            max_tokens,
            levels: Vec::new(),
            filters: None,
            priority: Priority::Normal,
            session_id: None,
        }
    }

    pub fn with_levels(self, levels: Vec<ContextLevel>) -> (request: Self)
        ensures
            request == (ContextRequest { levels, ..self }),
    {
        let mut request = self;
        request.levels = levels;
        request
    }

    pub fn with_session(self, session_id: String) -> (request: Self)
        ensures
            request == (ContextRequest { session_id: Some(session_id), ..self }),
    {
        let mut request = self;
        request.session_id = Some(session_id);
        request
    }
}

} // verus!
