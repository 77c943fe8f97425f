//! Retrieval from one tier of the vector index, and the division of the
//! token budget among the tiers.

use vstd::prelude::*;
use crate::config::RetrievalStrategy;
use crate::error::ContextError;
use crate::hirag::budget::{longest_fit, take_prefix_within, total_tokens};
use crate::hirag::models::Context;
use crate::hirag::token_estimator::{estimate_of, TokenEstimator};
use crate::units::{scale, scaled};
use crate::vector_db::models::{Filter, Payload, SearchParams, SearchResult};
use crate::vector_db::VectorStore;

verus! {

/// Most results asked of one tier.
pub const LEVEL_SEARCH_LIMIT: usize = 100;

/// A number of tokens, and never more than `usize::MAX`.
pub open spec fn clip(tokens: int) -> usize {
    if tokens > usize::MAX {
        usize::MAX
    } else {
        tokens as usize
    }
}

/// The tokens of one tier: its share of the budget, rounded down.
pub open spec fn allocation(max_tokens: usize, share: u32) -> usize {
    clip(scaled(max_tokens as int, share as int))
}

/// The tokens of the three tiers.
pub open spec fn allocations(s: RetrievalStrategy, max_tokens: usize) -> (usize, usize, usize) {
    (
        allocation(max_tokens, s.l1_allocation),
        allocation(max_tokens, s.l2_allocation),
        allocation(max_tokens, s.l3_allocation),
    )
}

/// The tokens of a tier with `available` items, which gives `own` up
/// where it has none.
pub open spec fn idle_tokens(own: usize, available: usize) -> int {
    if available == 0 {
        own as int
    } else {
        0
    }
}

/// One for a tier that has items, else zero.
pub open spec fn active(available: usize) -> int {
    if available == 0 {
        0
    } else {
        1
    }
}

/// What each tier with items gets on top of its own tokens: an equal part
/// of the tokens of the tiers without items, rounded down.
pub open spec fn redistribution(
    s: RetrievalStrategy,
    max_tokens: usize,
    l1_available: usize,
    l2_available: usize,
    l3_available: usize,
) -> int {
    let (a1, a2, a3) = allocations(s, max_tokens);
    let unused = idle_tokens(a1, l1_available) + idle_tokens(a2, l2_available) + idle_tokens(
        a3,
        l3_available,
    );
    let tiers = active(l1_available) + active(l2_available) + active(l3_available);
    if tiers > 0 {
        unused / tiers
    } else {
        0
    }
}

/// The tokens of a tier after redistribution.
pub open spec fn dynamic_share(own: usize, available: usize, extra: int) -> usize {
    if available == 0 {
        0
    } else {
        clip(own + extra)
    }
}

/// The tokens of the three tiers where a tier without items gives its
/// tokens up to the others.
pub open spec fn dynamic_allocations(
    s: RetrievalStrategy,
    max_tokens: usize,
    l1_available: usize,
    l2_available: usize,
    l3_available: usize,
) -> (usize, usize, usize) {
    let (a1, a2, a3) = allocations(s, max_tokens);
    let extra = redistribution(s, max_tokens, l1_available, l2_available, l3_available);
    (
        dynamic_share(a1, l1_available, extra),
        dynamic_share(a2, l2_available, extra),
        dynamic_share(a3, l3_available, extra),
    )
}

/// Redistribution hands out no more tokens than the tiers had: the tokens
/// of the three tiers after it add up to no more than before.
pub proof fn lemma_redistribution_conserves(
    s: RetrievalStrategy,
    max_tokens: usize,
    l1_available: usize,
    l2_available: usize,
    l3_available: usize,
)
    ensures
        ({
            let (a1, a2, a3) = allocations(s, max_tokens);
            let (d1, d2, d3) = dynamic_allocations(
                s,
                max_tokens,
                l1_available,
                l2_available,
                l3_available,
            );
            d1 + d2 + d3 <= a1 + a2 + a3
        }),
{
    let (a1, a2, a3) = allocations(s, max_tokens);
    let unused = idle_tokens(a1, l1_available) + idle_tokens(a2, l2_available) + idle_tokens(
        a3,
        l3_available,
    );
    let tiers = active(l1_available) + active(l2_available) + active(l3_available);
    let extra = redistribution(s, max_tokens, l1_available, l2_available, l3_available);
    if tiers > 0 {
        assert(tiers * (unused / tiers) <= unused) by (nonlinear_arith)
            requires
                tiers > 0,
                unused >= 0,
        ;
        assert(extra >= 0) by (nonlinear_arith)
            requires
                tiers > 0,
                unused >= 0,
                extra == unused / tiers,
        ;
        assert(tiers * extra == if tiers == 1 {
            extra
        } else if tiers == 2 {
            extra + extra
        } else {
            extra + extra + extra
        }) by (nonlinear_arith)
            requires
                1 <= tiers <= 3,
        ;
    }
}

/// The context item that a search result with a payload stands for.
pub open spec fn context_of(result: SearchResult, payload: Payload, tokens: usize) -> Context {
    Context {
        id: result.id,
        text: payload.text,
        level: payload.level,
        relevance_score: result.score,
        token_count: tokens,
        timestamp: payload.timestamp,
        metadata: payload.metadata,
    }
}

/// The context items of the results that have a payload, in order, each
/// with the estimate of its tokens.
pub open spec fn contexts_of(
    strategy: crate::config::TokenEstimator,
    results: Seq<SearchResult>,
) -> Seq<Context>
    decreases results.len(),
{
    if results.len() == 0 {
        Seq::empty()
    } else {
        let before = contexts_of(strategy, results.drop_last());
        match results.last().payload {
            Some(payload) => before.push(
                context_of(
                    results.last(),
                    payload,
                    estimate_of(strategy, payload.text@) as usize,
                ),
            ),
            None => before,
        }
    }
}

/// `found` is what a tier gives for `results` and a budget: the longest
/// prefix of the results' context items whose tokens are within the budget.
pub open spec fn shaped(
    strategy: crate::config::TokenEstimator,
    results: Seq<SearchResult>,
    max_tokens: usize,
    found: Seq<Context>,
) -> bool {
    let all = contexts_of(strategy, results);
    found == all.take(found.len() as int) && longest_fit(all, found.len() as int, max_tokens as int)
}

/// `found` is what the search of a tier can give under a budget: what is
/// shaped out of some results.
pub open spec fn searched(
    strategy: crate::config::TokenEstimator,
    max_tokens: usize,
    found: Seq<Context>,
) -> bool {
    exists|results: Seq<SearchResult>| shaped(strategy, results, max_tokens, found)
}

/// Retriever of the items of one tier.
#[derive(Debug, Clone, Copy)]
pub struct ContextRetriever {
    token_estimator: TokenEstimator,
    strategy: RetrievalStrategy,
}

impl ContextRetriever {
    /// The way tokens are estimated.
    pub closed spec fn estimator(self) -> crate::config::TokenEstimator {
        self.token_estimator.strategy()
    }

    /// The shares of the budget.
    pub closed spec fn strategy(self) -> RetrievalStrategy {
        self.strategy
    }

    pub fn new(token_estimator: TokenEstimator, strategy: RetrievalStrategy) -> (retriever: Self)
        ensures
            retriever.estimator() == token_estimator.strategy(),
            retriever.strategy() == strategy,
    {
        ContextRetriever { token_estimator, strategy }
    }

    /// The query that is put to a tier: up to `LEVEL_SEARCH_LIMIT` results
    /// of any similarity, with payloads and without vectors.
    pub fn level_query(query_vector: Vec<u32>, filters: Option<Filter>) -> (params: SearchParams)
        ensures
            params == (SearchParams {
                vector: query_vector,
                limit: LEVEL_SEARCH_LIMIT,
                score_threshold: None,
                filter: filters,
                with_payload: true,
                with_vector: false,
            }),
    {
        SearchParams {
            vector: query_vector,
            limit: LEVEL_SEARCH_LIMIT,
            score_threshold: None,
            filter: filters,
            with_payload: true,
            with_vector: false,
        }
    }

    /// The context items of the results that have a payload.
    pub fn to_contexts(&self, results: Vec<SearchResult>) -> (contexts: Vec<Context>)
        ensures
            contexts@ == contexts_of(self.estimator(), results@),
    {
        let mut contexts: Vec<Context> = Vec::new();
        let ghost source = results@;
        for result in it: results
            invariant
                it.seq() == source,
                contexts@ == contexts_of(self.estimator(), source.take(it.index())),
        {
            proof {
                let upto = source.take(it.index() + 1);
                assert(upto.drop_last() =~= source.take(it.index()));
                assert(upto.last() == result);
            }
            let id = result.id;
            let score = result.score;
            match result.payload {
                Some(payload) => {
                    let token_count = self.token_estimator.estimate(payload.text.as_str());
                    contexts.push(
                        Context {
                            id,
                            text: payload.text,
                            level: payload.level,
                            relevance_score: score,
                            token_count,
                            timestamp: payload.timestamp,
                            metadata: payload.metadata,
                        },
                    );
                },
                None => {},
            }
        }
        proof {
            assert(source.take(source.len() as int) =~= source);
        }
        contexts
    }

    /// What a tier gives for the results of its search: the results are
    /// taken in order, those without payload passed over, until the next
    /// would exceed `max_tokens`.
    pub fn shape_results(&self, results: Vec<SearchResult>, max_tokens: usize) -> (found: Vec<
        Context,
    >)
        ensures
            shaped(self.estimator(), results@, max_tokens, found@),
            total_tokens(found@) <= max_tokens,
    {
        let contexts = self.to_contexts(results);
        take_prefix_within(contexts, max_tokens)
    }

    /// What a tier gives after the index has answered its search: a
    /// failure is handed on, and results are shaped within `max_tokens`.
    pub fn shape_answer(
        &self,
        answer: Result<Vec<SearchResult>, ContextError>,
        max_tokens: usize,
    ) -> (r: Result<Vec<Context>, ContextError>)
        ensures
            match answer {
                Err(e) => r == Err::<Vec<Context>, ContextError>(e),
                Ok(results) => r matches Ok(found) && shaped(
                    self.estimator(),
                    results@,
                    max_tokens,
                    found@,
                ) && total_tokens(found@) <= max_tokens,
            },
    {
        match answer {
            Err(e) => Err(e),
            Ok(results) => Ok(self.shape_results(results, max_tokens)),
        }
    }

    /// Searches one collection and gives what fits `max_tokens`: the index
    /// is asked what `level_query` says, and its answer is taken as
    /// `shape_answer` says. A failure of the search is handed on.
    pub fn retrieve_from_level<V: VectorStore>(
        &self,
        store: &V,
        collection: &str,
        query_vector: Vec<u32>,
        max_tokens: usize,
        filters: Option<Filter>,
    ) -> (r: Result<Vec<Context>, ContextError>)
        ensures
            match r {
                Ok(found) => total_tokens(found@) <= max_tokens && searched(
                    self.estimator(),
                    max_tokens,
                    found@,
                ),
                Err(_) => true,
            },
    {
        let params = Self::level_query(query_vector, filters);
        let answer = store.search(collection, params);
        self.shape_answer(answer, max_tokens)
    }

    /// The tokens of each tier: its share of `max_tokens`, rounded down.
    pub fn calculate_allocations(&self, max_tokens: usize) -> (tokens: (usize, usize, usize))
        ensures
            tokens == allocations(self.strategy(), max_tokens),
    {
        (
            Self::share_of(max_tokens, self.strategy.l1_allocation),
            Self::share_of(max_tokens, self.strategy.l2_allocation),
            Self::share_of(max_tokens, self.strategy.l3_allocation),
        )
    }

    fn share_of(max_tokens: usize, share: u32) -> (tokens: usize)
        ensures
            tokens == allocation(max_tokens, share),
    {
        let exact = scale(max_tokens, share);
        if exact > usize::MAX as u128 {
            usize::MAX
        } else {
            exact as usize
        }
    }

    fn raised(own: usize, available: usize, extra: u128) -> (tokens: usize)
        requires
            extra <= 3 * usize::MAX,
        ensures
            tokens == dynamic_share(own, available, extra as int),
    {
        if available == 0 {
            0
        } else {
            let sum = own as u128 + extra;
            if sum > usize::MAX as u128 {
                usize::MAX
            } else {
                sum as usize
            }
        }
    }

    /// The tokens of each tier where the tiers without items give theirs
    /// up: what they give up is divided equally among the tiers with items.
    pub fn calculate_dynamic_allocations(
        &self,
        max_tokens: usize,
        l1_available: usize,
        l2_available: usize,
        l3_available: usize,
    ) -> (tokens: (usize, usize, usize))
        ensures
            tokens == dynamic_allocations(
                self.strategy(),
                max_tokens,
                l1_available,
                l2_available,
                l3_available,
            ),
    {
        let (l1_tokens, l2_tokens, l3_tokens) = self.calculate_allocations(max_tokens);
        let mut unused: u128 = 0;
        let mut tiers: u128 = 0;
        if l1_available == 0 {
            unused = unused + l1_tokens as u128;
        } else {
            tiers = tiers + 1;
        }
        if l2_available == 0 {
            unused = unused + l2_tokens as u128;
        } else {
            tiers = tiers + 1;
        }
        if l3_available == 0 {
            unused = unused + l3_tokens as u128;
        } else {
            tiers = tiers + 1;
        }
        let extra: u128 = if tiers > 0 {
            unused / tiers
        } else {
            0
        };
        (
            Self::raised(l1_tokens, l1_available, extra),
            Self::raised(l2_tokens, l2_available, extra),
            Self::raised(l3_tokens, l3_available, extra),
        )
    }
}

} // verus!
