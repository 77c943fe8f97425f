//! Data carried to and from the vector index.
//!
//! An embedding is a vector of 32-bit floating-point components. The core
//! reads nothing of a component, so a vector is held here as the bit
//! patterns of its components, one `u32` each. A similarity score is held in
//! millionths.

use vstd::prelude::*;
use crate::metadata::Metadata;

verus! {

/// Lifetime tier of a context item.
#[derive(Debug, Clone, Copy, PartialEq, Eq, Hash, Structural)]
pub enum ContextLevel {
    /// Held in process memory as well as in the index.
    Immediate,
    /// Persisted, short-lived.
    ShortTerm,
    /// Persisted, long-lived.
    LongTerm,
}

impl ContextLevel {
    /// The tier's name as it is written into a stored payload.
    pub open spec fn name(self) -> Seq<char> {
        match self {
            ContextLevel::Immediate => "Immediate"@,
            ContextLevel::ShortTerm => "ShortTerm"@,
            ContextLevel::LongTerm => "LongTerm"@,
        }
    }

    pub fn as_str(&self) -> (s: &'static str)
        ensures
            s@ == self.name(),
    {
        match self {
            ContextLevel::Immediate => "Immediate",
            ContextLevel::ShortTerm => "ShortTerm",
            ContextLevel::LongTerm => "LongTerm",
        }
    }
}

/// What is stored beside a vector.
#[derive(Debug, Clone)]
pub struct Payload {
    /// The text of the item.
    pub text: String,
    /// The tier the item was stored in.
    pub level: ContextLevel,
    /// Seconds since the epoch at which the item was written.
    pub timestamp: i64,
    /// Owner of the item.
    pub agent_id: String,
    /// Session the item belongs to.
    pub session_id: Option<String>,
    /// Further metadata.
    pub metadata: Metadata,
}

/// A point of the vector index.
#[derive(Debug, Clone)]
pub struct VectorPoint {
    pub id: u128,
    /// The embedding, as bit patterns.
    pub vector: Vec<u32>,
    pub payload: Payload,
}

/// One condition of a filter.
#[derive(Debug, Clone)]
pub enum Condition {
    /// The payload holds `value` under `key`.
    Match { key: String, value: serde_json::Value },
    /// The payload holds a number between the bounds under `key`.
    Range { key: String, gte: Option<i64>, lte: Option<i64> },
    /// The point's id is one of `ids`.
    HasId { ids: Vec<u128> },
}

/// A filter on payloads: all of `must`, one of `should`, none of `must_not`.
#[derive(Debug, Clone)]
pub struct Filter {
    pub must: Vec<Condition>,
    pub should: Vec<Condition>,
    pub must_not: Vec<Condition>,
}

/// A similarity query.
#[derive(Debug, Clone)]
pub struct SearchParams {
    /// The query vector, as bit patterns.
    pub vector: Vec<u32>,
    /// Most results wanted.
    pub limit: usize,
    /// Least similarity wanted, in millionths.
    pub score_threshold: Option<u32>,
    pub filter: Option<Filter>,
    pub with_payload: bool,
    pub with_vector: bool,
}

/// One result of a similarity query.
#[derive(Debug, Clone)]
pub struct SearchResult {
    pub id: u128,
    /// Similarity, in millionths.
    pub score: u32,
    pub payload: Option<Payload>,
    pub vector: Option<Vec<u32>>,
}

impl SearchParams {
    /// A query for `limit` results with payloads and without vectors.
    pub fn new(vector: Vec<u32>, limit: usize) -> (params: Self)
        ensures
            params == (SearchParams {
                vector,
                limit,
                score_threshold: None,
                filter: None,
                with_payload: true,
                with_vector: false,
            }),
    {
        SearchParams {
            vector,
            limit,
            score_threshold: None,
            filter: None,
            with_payload: true,
            with_vector: false,
        }
    }

    pub fn with_score_threshold(self, threshold: u32) -> (params: Self)
        ensures
            params == (SearchParams { score_threshold: Some(threshold), ..self }),
    {
        let mut params = self;
        params.score_threshold = Some(threshold);
        params
    }

    pub fn with_filter(self, filter: Filter) -> (params: Self)
        ensures
            params == (SearchParams { filter: Some(filter), ..self }),
    {
        let mut params = self;
        params.filter = Some(filter);
        params
    }
}

impl Filter {
    /// The filter that every payload passes.
    pub fn new() -> (filter: Self)
        ensures
            filter.must@.len() == 0,
            filter.should@.len() == 0,
            filter.must_not@.len() == 0,
    {
        Filter { must: Vec::new(), should: Vec::new(), must_not: Vec::new() }
    }

    pub fn must(self, condition: Condition) -> (filter: Self)
        ensures
            filter.must@ == self.must@.push(condition),
            filter.should == self.should,
            filter.must_not == self.must_not,
    {
        let mut filter = self;
        filter.must.push(condition);
        filter
    }

    pub fn should(self, condition: Condition) -> (filter: Self)
        ensures
            filter.must == self.must,
            filter.should@ == self.should@.push(condition),
            filter.must_not == self.must_not,
    {
        let mut filter = self;
        filter.should.push(condition);
        filter
    }

    pub fn must_not(self, condition: Condition) -> (filter: Self)
        ensures
            filter.must == self.must,
            filter.should == self.should,
            filter.must_not@ == self.must_not@.push(condition),
    {
        let mut filter = self;
        filter.must_not.push(condition);
        filter
    }
}

impl Default for Filter {
    fn default() -> (filter: Self)
        ensures
            filter.must@.len() == 0,
            filter.should@.len() == 0,
            filter.must_not@.len() == 0,
    {
        Filter::new()
    }
}

} // verus!
