//! Step-by-step construction of a similarity query.

use vstd::prelude::*;
use crate::vector_db::models::{Filter, SearchParams};

verus! {

/// Builder of a `SearchParams`.
pub struct SearchQueryBuilder {
    vector: Vec<u32>,
    limit: usize,
    score_threshold: Option<u32>,
    filter: Option<Filter>,
    with_payload: bool,
    with_vector: bool,
}

impl SearchQueryBuilder {
    /// The query that the builder would give now.
    pub closed spec fn params(self) -> SearchParams {
        SearchParams {
            vector: self.vector,
            limit: self.limit,
            score_threshold: self.score_threshold,
            filter: self.filter,
            with_payload: self.with_payload,
            with_vector: self.with_vector,
        }
    }

    /// Starts from a query for ten results with payloads, without vectors.
    pub fn new(vector: Vec<u32>) -> (builder: Self)
        ensures
            builder.params() == (SearchParams {
                vector,
                limit: 10,
                score_threshold: None,
                filter: None,
                with_payload: true,
                with_vector: false,
            }),
    {
        SearchQueryBuilder {
            vector,
            limit: 10,
            score_threshold: None,
            filter: None,
            with_payload: true,
            with_vector: false,
        }
    }

    pub fn limit(self, limit: usize) -> (builder: Self)
        ensures
            builder.params() == (SearchParams { limit, ..self.params() }),
    {
        let mut builder = self;
        builder.limit = limit;
        builder
    }

    pub fn score_threshold(self, threshold: u32) -> (builder: Self)
        ensures
            builder.params() == (SearchParams { score_threshold: Some(threshold), ..self.params() }),
    {
        let mut builder = self;
        builder.score_threshold = Some(threshold);
        builder
    }

    pub fn filter(self, filter: Filter) -> (builder: Self)
        ensures
            builder.params() == (SearchParams { filter: Some(filter), ..self.params() }),
    {
        let mut builder = self;
        builder.filter = Some(filter);
        builder
    }

    pub fn with_payload(self, with_payload: bool) -> (builder: Self)
        ensures
            builder.params() == (SearchParams { with_payload, ..self.params() }),
    {
        let mut builder = self;
        builder.with_payload = with_payload;
        builder
    }

    pub fn with_vector(self, with_vector: bool) -> (builder: Self)
        ensures
            builder.params() == (SearchParams { with_vector, ..self.params() }),
    {
        let mut builder = self;
        builder.with_vector = with_vector;
        builder
    }

    pub fn build(self) -> (params: SearchParams)
        ensures
            params == self.params(),
    {
        SearchParams {
            vector: self.vector,
            limit: self.limit,
            score_threshold: self.score_threshold,
            filter: self.filter,
            with_payload: self.with_payload,
            with_vector: self.with_vector,
        }
    }
}

} // verus!
