//! The manager: ingest, retrieval, update and deletion over the three
//! tiers.
//!
//! The manager owns the in-memory tier and asks an embedding provider and
//! a vector index for the rest. Of those two nothing is known, so each
//! operation states what holds whatever they answer, and the steps that
//! follow an answer state exactly what they make of it.

use vstd::prelude::*;
use crate::config::{HiRAGConfig, RankingWeights};
use crate::embedding::EmbeddingProvider;
use crate::error::{ContextError, HiRAGError};
use crate::hirag::arrange::{
    arranged, distinct_ids, in_order, lemma_arranged_distinct, ArrangeBy,
};
use crate::hirag::budget::{
    deduplicate, first_by_id, fit_all, lemma_fit_all_distinct, lemma_fit_all_in_order,
    take_all_within, total_tokens,
};
use crate::hirag::l1_cache::{newest_fitting, retains_newest, L1Cache};
use crate::hirag::models::{
    Context, ContextRequest, ContextResponse, LevelDistribution, ResponseMetadata,
};
use crate::hirag::ranker::{all_rescored, ContextRanker, ScoreCurves};
use crate::hirag::retriever::{clip, dynamic_allocations, searched, ContextRetriever};
use crate::hirag::token_estimator::{estimate_of, TokenEstimator};
use crate::ids::{id_text, is_random_uuid, mint_id, uuid_text};
use crate::metadata::{merged, Metadata, MetadataEntry};
use crate::middleware::validator::{
    metadata_verdict, text_verdict, InputValidator, ValidationError,
};
use crate::time::{millis_since, unix_now};
use crate::units::SCALE;
use crate::vector_db::models::{ContextLevel, Payload, VectorPoint};
use crate::vector_db::VectorStore;

verus! {

/// Largest token budget of a request.
pub const MAX_REQUEST_TOKENS: usize = 100_000;

/// The prefix of the names of the collections where no other is given.
pub const DEFAULT_COLLECTION_PREFIX: &'static str = "contexts";

/// The name of the collection of a tier: the prefix, an underscore and the
/// name of the tier in lower case.
pub open spec fn collection_of(prefix: Seq<char>, level: ContextLevel) -> Seq<char> {
    prefix + "_"@ + crate::vector_db::client::level_key(level)
}

/// Whether a request asks for a tier: it names the tier, or names none.
pub open spec fn asks_for(levels: Seq<ContextLevel>, level: ContextLevel) -> bool {
    levels.len() == 0 || levels.contains(level)
}

/// The items that a tier counts as having when the budget of a request is
/// divided: none where the request does not ask for the tier; for the
/// in-memory tier the items that it holds; for a persisted tier, of which
/// nothing is known before it is searched, one.
pub open spec fn counted_items(levels: Seq<ContextLevel>, level: ContextLevel, held: nat) -> usize {
    if !asks_for(levels, level) {
        0
    } else if level == ContextLevel::Immediate {
        held as usize
    } else {
        1
    }
}

/// What a persisted tier gives a request: nothing where the request does
/// not ask for the tier or its search fails, else what its search gives
/// within the tokens of the tier.
pub open spec fn tier_gave(
    asked: bool,
    estimator: crate::config::TokenEstimator,
    tokens: usize,
    found: Seq<Context>,
) -> bool {
    found.len() == 0 || (asked && searched(estimator, tokens, found))
}

/// What the three tiers give a request, each within its tokens: the
/// in-memory tier its newest items where the request asks for it, and each
/// persisted tier what `tier_gave` says.
pub open spec fn gathered(
    l1: Map<u128, Context>,
    config: HiRAGConfig,
    levels: Seq<ContextLevel>,
    max_tokens: usize,
    memory: Seq<Context>,
    short_term: Seq<Context>,
    long_term: Seq<Context>,
) -> bool {
    let tokens = dynamic_allocations(
        config.retrieval_strategy,
        max_tokens,
        counted_items(levels, ContextLevel::Immediate, l1.len()),
        counted_items(levels, ContextLevel::ShortTerm, l1.len()),
        counted_items(levels, ContextLevel::LongTerm, l1.len()),
    );
    &&& if asks_for(levels, ContextLevel::Immediate) {
        newest_fitting(l1, tokens.0, memory)
    } else {
        memory.len() == 0
    }
    &&& tier_gave(
        asks_for(levels, ContextLevel::ShortTerm),
        config.token_estimator,
        tokens.1,
        short_term,
    )
    &&& tier_gave(
        asks_for(levels, ContextLevel::LongTerm),
        config.token_estimator,
        tokens.2,
        long_term,
    )
}

/// What is answered to the text and metadata of an ingest before anything
/// is asked of the provider.
pub open spec fn ingest_verdict(text: Seq<char>, entries: Seq<MetadataEntry>) -> Result<
    (),
    ValidationError,
> {
    if text_verdict(text) is Err {
        text_verdict(text)
    } else {
        metadata_verdict(entries)
    }
}

/// What is answered to a request before anything is asked of the provider.
pub open spec fn request_verdict(query: Seq<char>, max_tokens: usize) -> Result<(), ValidationError> {
    if text_verdict(query) is Err {
        text_verdict(query)
    } else if max_tokens == 0 {
        Err(ValidationError::InvalidTokenCount)
    } else if max_tokens > MAX_REQUEST_TOKENS {
        Err(ValidationError::TokenLimitExceeded { count: max_tokens, max: MAX_REQUEST_TOKENS })
    } else {
        Ok(())
    }
}

/// What is made of the provider's answer to an ingest: a failure is handed
/// on, a vector of another dimension is rejected.
pub open spec fn embedding_verdict(
    answer: Result<Vec<u32>, ContextError>,
    dimension: usize,
) -> Result<Vec<u32>, ContextError> {
    match answer {
        Err(e) => Err(e),
        Ok(vector) => if vector@.len() != dimension {
            Err(
                ContextError::Validation(
                    ValidationError::InvalidVectorDimension {
                        actual: vector@.len() as usize,
                        expected: dimension,
                    },
                ),
            )
        } else {
            Ok(vector)
        },
    }
}

/// Number of items of a tier.
pub open spec fn level_count(items: Seq<Context>, level: ContextLevel) -> nat
    decreases items.len(),
{
    if items.len() == 0 {
        0
    } else {
        level_count(items.drop_last(), level) + if items.last().level == level {
            1nat
        } else {
            0nat
        }
    }
}

/// Sum of the relevance of the items, in millionths.
pub open spec fn score_sum(items: Seq<Context>) -> nat
    decreases items.len(),
{
    if items.len() == 0 {
        0
    } else {
        score_sum(items.drop_last()) + items.last().relevance_score as nat
    }
}

/// Mean relevance of the items, rounded down; zero for no items.
pub open spec fn mean_score(items: Seq<Context>) -> nat {
    if items.len() == 0 {
        0
    } else {
        score_sum(items) / items.len()
    }
}

/// The facts that a response gives about its items.
pub open spec fn describes(metadata: ResponseMetadata, items: Seq<Context>) -> bool {
    &&& metadata.level_distribution.immediate == level_count(items, ContextLevel::Immediate)
    &&& metadata.level_distribution.short_term == level_count(items, ContextLevel::ShortTerm)
    &&& metadata.level_distribution.long_term == level_count(items, ContextLevel::LongTerm)
    &&& metadata.avg_relevance == mean_score(items)
}

/// `items` is what is answered for `candidates` under a budget: the first
/// candidate of each id, scored, put in order of relevance, then taken one
/// by one where it fits what is left of the budget.
pub open spec fn selected(
    w: RankingWeights,
    candidates: Seq<Context>,
    max_tokens: usize,
    items: Seq<Context>,
) -> bool {
    exists|scored: Seq<Context>, ranked: Seq<Context>|
        all_rescored(w, first_by_id(candidates), scored) && arranged(
            ArrangeBy::Relevance,
            ranked,
            scored,
        ) && items == fit_all(ranked, max_tokens as int)
}

/// What every response keeps: its tokens are the sum of its items' tokens
/// and within the budget, no two items share an id, and relevance never
/// rises from one item to the next.
pub open spec fn sound(response: ContextResponse, max_tokens: usize) -> bool {
    &&& response.total_tokens == total_tokens(response.contexts@)
    &&& response.total_tokens <= max_tokens
    &&& distinct_ids(response.contexts@)
    &&& in_order(ArrangeBy::Relevance, response.contexts@)
    &&& describes(response.metadata, response.contexts@)
}

/// The item of the in-memory tier that stands for a point: the text, tier,
/// time and metadata of the point, full relevance, and the estimate of the
/// tokens of its text.
pub open spec fn item_of(estimator: crate::config::TokenEstimator, point: VectorPoint) -> Context {
    Context {
        id: point.id,
        text: point.payload.text,
        level: point.payload.level,
        relevance_score: SCALE,
        token_count: estimate_of(estimator, point.payload.text@) as usize,
        timestamp: point.payload.timestamp,
        metadata: point.payload.metadata,
    }
}

/// `updated` is the point `found` as an update writes it again: under
/// `id`, with the vector, the text, the tier, the agent and the session of
/// the point found, the newer metadata written over its own, and the time
/// `at` as its timestamp.
pub open spec fn rewritten(
    found: VectorPoint,
    id: u128,
    newer: Seq<MetadataEntry>,
    at: i64,
    updated: VectorPoint,
) -> bool {
    &&& updated.id == id
    &&& updated.vector == found.vector
    &&& updated.payload.text == found.payload.text
    &&& updated.payload.level == found.payload.level
    &&& updated.payload.agent_id == found.payload.agent_id
    &&& updated.payload.session_id == found.payload.session_id
    &&& updated.payload.timestamp == at
    &&& updated.payload.metadata.entries() == merged(found.payload.metadata.entries(), newer)
}

/// `after` is the in-memory tier `before` with the item of `id` refreshed
/// by an update that found the point `found`: the item stands for the point
/// as the update wrote it again at some time, and went in as every item
/// does, the items written longest ago giving way.
pub open spec fn refreshed_from(
    before: Map<u128, Context>,
    after: Map<u128, Context>,
    config: HiRAGConfig,
    id: u128,
    newer: Seq<MetadataEntry>,
    found: VectorPoint,
) -> bool {
    exists|at: i64, updated: VectorPoint| #[trigger]
        rewritten(found, id, newer, at, updated) && retains_newest(
            before.insert(id, item_of(config.token_estimator, updated)),
            after,
            config.l1_size,
        )
}

/// `after` is the in-memory tier `before` with the item of `id` refreshed
/// by an update, for some point that the index gave.
pub open spec fn refreshed(
    before: Map<u128, Context>,
    after: Map<u128, Context>,
    config: HiRAGConfig,
    id: u128,
    newer: Seq<MetadataEntry>,
) -> bool {
    exists|found: VectorPoint| #[trigger] refreshed_from(before, after, config, id, newer, found)
}

/// Whether `r` is the failure of an update whose id no tier holds.
pub open spec fn is_not_found(id: u128, r: Result<(), ContextError>) -> bool {
    r matches Err(ContextError::HiRAG(HiRAGError::ContextNotFound(text))) && text@ == uuid_text(id)
}

/// `r` is what an update comes to, given what the immediate, the
/// short-term and the long-term tier answered in turn: `Ok(true)` where the
/// tier held the item and took the update, `Ok(false)` where it does not
/// hold the item, or its failure. The first tier that holds the item or
/// fails decides, and the tiers after it are not asked; where no tier holds
/// the item the update fails with `ContextNotFound`.
pub open spec fn concluded(
    id: u128,
    first: Result<bool, ContextError>,
    second: Result<bool, ContextError>,
    third: Result<bool, ContextError>,
    r: Result<(), ContextError>,
) -> bool {
    match first {
        Err(e) => r == Err::<(), ContextError>(e),
        Ok(true) => r is Ok,
        Ok(false) => match second {
            Err(e) => r == Err::<(), ContextError>(e),
            Ok(true) => r is Ok,
            Ok(false) => match third {
                Err(e) => r == Err::<(), ContextError>(e),
                Ok(true) => r is Ok,
                Ok(false) => is_not_found(id, r),
            },
        },
    }
}

/// Removing an id twice leaves what removing it once leaves.
pub proof fn lemma_delete_twice(items: Map<u128, Context>, id: u128)
    ensures
        items.remove(id).remove(id) == items.remove(id),
{
    assert(items.remove(id).remove(id) =~= items.remove(id));
}

/// In a sound response the relevance of an item is at least that of the
/// next.
pub proof fn lemma_sound_scores_fall(response: ContextResponse, max_tokens: usize, i: int)
    requires
        sound(response, max_tokens),
        0 <= i,
        i + 1 < response.contexts@.len(),
    ensures
        response.contexts@[i].relevance_score >= response.contexts@[i + 1].relevance_score,
{
    crate::hirag::arrange::lemma_relevance_falls(response.contexts@, i, i + 1);
}

proof fn lemma_counts_bounded(items: Seq<Context>, level: ContextLevel)
    ensures
        level_count(items, level) <= items.len(),
        score_sum(items) <= items.len() * 0xffff_ffff,
    decreases items.len(),
{
    if items.len() > 0 {
        lemma_counts_bounded(items.drop_last(), level);
        assert((items.len() - 1) * 0xffff_ffff + 0xffff_ffff == items.len() * 0xffff_ffff)
            by (nonlinear_arith);
    }
}

/// The facts about the items of a response.
pub fn describe(items: &Vec<Context>, cache_hits: usize, total_searched: usize) -> (metadata:
    ResponseMetadata)
    ensures
        describes(metadata, items@),
        metadata.cache_hits == cache_hits,
        metadata.total_searched == total_searched,
{
    let mut immediate: usize = 0;
    let mut short_term: usize = 0;
    let mut long_term: usize = 0;
    let mut sum: u128 = 0;
    let mut i: usize = 0;
    while i < items.len()
        invariant
            i <= items.len(),
            immediate == level_count(items@.take(i as int), ContextLevel::Immediate),
            short_term == level_count(items@.take(i as int), ContextLevel::ShortTerm),
            long_term == level_count(items@.take(i as int), ContextLevel::LongTerm),
            sum == score_sum(items@.take(i as int)),
        decreases items.len() - i,
    {
        proof {
            let upto = items@.take(i + 1);
            assert(upto.drop_last() =~= items@.take(i as int));
            assert(upto.last() == items@[i as int]);
            lemma_counts_bounded(items@.take(i as int), ContextLevel::Immediate);
            lemma_counts_bounded(items@.take(i as int), ContextLevel::ShortTerm);
            lemma_counts_bounded(items@.take(i as int), ContextLevel::LongTerm);
            assert(i * 0xffff_ffff <= 0xffff_ffff_ffff_ffff * 0xffff_ffff) by (nonlinear_arith)
                requires
                    0 <= i <= 0xffff_ffff_ffff_ffff,
            ;
        }
        match items[i].level {
            ContextLevel::Immediate => {
                immediate = immediate + 1;
            },
            ContextLevel::ShortTerm => {
                short_term = short_term + 1;
            },
            ContextLevel::LongTerm => {
                long_term = long_term + 1;
            },
        }
        sum = sum + items[i].relevance_score as u128;
        i = i + 1;
    }
    proof {
        assert(items@.take(items@.len() as int) =~= items@);
        lemma_counts_bounded(items@, ContextLevel::Immediate);
        if items@.len() > 0 {
            assert(score_sum(items@) / items@.len() <= 0xffff_ffff) by (nonlinear_arith)
                requires
                    score_sum(items@) <= items@.len() * 0xffff_ffff,
                    items@.len() > 0,
            ;
        }
    }
    let avg_relevance = if items.len() == 0 {
        0
    } else {
        (sum / (items.len() as u128)) as u32
    };
    ResponseMetadata {
        level_distribution: LevelDistribution { immediate, short_term, long_term },
        avg_relevance,
        cache_hits,
        total_searched,
    }
}

/// Adds what a tier gave to the candidates and counts it. A tier that
/// failed adds nothing.
pub fn add_tier(
    candidates: &mut Vec<Context>,
    searched: &mut usize,
    outcome: Result<Vec<Context>, ContextError>,
)
    ensures
        match outcome {
            Ok(found) => final(candidates)@ == old(candidates)@ + found@ && *final(searched)
                == clip(*old(searched) + found@.len()),
            Err(_) => final(candidates)@ == old(candidates)@ && *final(searched) == *old(
                searched,
            ),
        },
{
    match outcome {
        Ok(found) => {
            let mut found = found;
            *searched = searched.saturating_add(found.len());
            candidates.append(&mut found);
        },
        Err(_) => {},
    }
}

/// The manager of the three tiers.
pub struct HiRAGManagerV2<E: EmbeddingProvider, V: VectorStore, C: ScoreCurves> {
    config: HiRAGConfig,
    collection_prefix: String,
    embedding_client: E,
    vector_db: V,
    curves: C,
    dimension: usize,
    l1_cache: L1Cache,
    retriever: ContextRetriever,
    ranker: ContextRanker,
    token_estimator: TokenEstimator,
}

impl<E: EmbeddingProvider, V: VectorStore, C: ScoreCurves> HiRAGManagerV2<E, V, C> {
    /// The configuration that the manager was made with.
    pub closed spec fn config(self) -> HiRAGConfig {
        self.config
    }

    /// The dimension that embeddings must have.
    pub closed spec fn dimension(self) -> usize {
        self.dimension
    }

    /// The prefix of the names of the collections.
    pub closed spec fn prefix(self) -> Seq<char> {
        self.collection_prefix@
    }

    /// The vector index that the manager asks.
    pub closed spec fn store(self) -> V {
        self.vector_db
    }

    /// The embedding provider that the manager asks.
    pub closed spec fn provider(self) -> E {
        self.embedding_client
    }

    /// The items of the in-memory tier, by id.
    pub closed spec fn l1(self) -> Map<u128, Context> {
        self.l1_cache.items()
    }

    /// The parts of the manager fit together.
    pub closed spec fn wf(self) -> bool {
        &&& self.l1_cache.wf()
        &&& self.l1_cache.capacity() == self.config.l1_size
        &&& self.retriever.estimator() == self.config.token_estimator
        &&& self.retriever.strategy() == self.config.retrieval_strategy
        &&& self.ranker.weights() == self.config.ranking_weights
        &&& self.token_estimator.strategy() == self.config.token_estimator
    }

    /// The in-memory tier holds no more items than it was configured for.
    pub proof fn lemma_l1_within_capacity(self)
        requires
            self.wf(),
        ensures
            self.l1().dom().finite(),
            self.l1().len() <= self.config().l1_size,
    {
    }

    /// The manager `after` is in order and has the configuration, the
    /// dimension and the collections of the manager `before`.
    pub open spec fn carried_on(before: Self, after: Self) -> bool {
        &&& after.wf()
        &&& after.config() == before.config()
        &&& after.dimension() == before.dimension()
        &&& after.prefix() == before.prefix()
    }

    /// `after` and `r` are what an ingest makes of the manager `before`. A
    /// text or metadata that is rejected gives that failure, and no ingest
    /// succeeds on one. Every failure leaves the in-memory tier as it was.
    /// An ingest that succeeds gives the id of a random UUID; an immediate
    /// item is then in the in-memory tier under that id, with its text, its
    /// metadata, full relevance and the estimate of its tokens, and the
    /// items written longest ago have given way to it.
    pub open spec fn ingested(
        before: Self,
        after: Self,
        text: Seq<char>,
        level: ContextLevel,
        entries: Seq<MetadataEntry>,
        r: Result<u128, ContextError>,
    ) -> bool {
        &&& Self::carried_on(before, after)
        &&& ingest_verdict(text, entries) matches Err(e) ==> r == Err::<u128, ContextError>(
            ContextError::Validation(e),
        )
        &&& match r {
            Err(_) => after.l1() == before.l1(),
            Ok(id) => is_random_uuid(id) && ingest_verdict(text, entries) is Ok && if level
                == ContextLevel::Immediate {
                exists|stored: Context|
                    stored.id == id && stored.text@ == text && stored.level == level
                        && stored.relevance_score == SCALE && stored.token_count == estimate_of(
                        before.config().token_estimator,
                        text,
                    ) && stored.metadata.entries() == entries && retains_newest(
                        before.l1().insert(id, stored),
                        after.l1(),
                        before.config().l1_size,
                    )
            } else {
                after.l1() == before.l1()
            },
        }
    }

    /// `r` is an answer of the manager to a request. A query or a budget
    /// that is rejected gives that failure, and no request succeeds on one.
    /// A response is sound and holds what is selected from what the three
    /// tiers gave, each within its tokens; it counts as searched what they
    /// gave, and one cache hit where the in-memory tier gave an item.
    pub open spec fn answered(self, request: ContextRequest, r: Result<ContextResponse, ContextError>) -> bool {
        &&& request_verdict(request.query@, request.max_tokens) matches Err(e) ==> r matches Err(
            ContextError::Validation(v),
        ) && v == e
        &&& r is Ok ==> request_verdict(request.query@, request.max_tokens) is Ok
        &&& r matches Ok(response) ==> sound(response, request.max_tokens)
        &&& r matches Ok(response) ==> exists|
            memory: Seq<Context>,
            short_term: Seq<Context>,
            long_term: Seq<Context>,
        |
            #[trigger] gathered(
                self.l1(),
                self.config(),
                request.levels@,
                request.max_tokens,
                memory,
                short_term,
                long_term,
            ) && selected(
                self.config().ranking_weights,
                memory + short_term + long_term,
                request.max_tokens,
                response.contexts@,
            ) && response.metadata.total_searched == clip(
                (memory.len() + short_term.len() + long_term.len()) as int,
            ) && response.metadata.cache_hits == if memory.len() > 0 {
                1usize
            } else {
                0usize
            }
    }

    /// `after` and `r` are what the update of the item of `id` in one tier
    /// makes of the manager `before`: only an update that the immediate tier
    /// took refreshes the in-memory tier; everything else leaves it as it
    /// was.
    pub open spec fn tier_updated(
        before: Self,
        after: Self,
        level: ContextLevel,
        id: u128,
        entries: Seq<MetadataEntry>,
        r: Result<bool, ContextError>,
    ) -> bool {
        &&& Self::carried_on(before, after)
        &&& if r matches Ok(true) && level == ContextLevel::Immediate {
            refreshed(before.l1(), after.l1(), before.config(), id, entries)
        } else {
            after.l1() == before.l1()
        }
    }

    /// `after` and `r` are what an update of the item of `id` makes of the
    /// manager `before`. Metadata that is rejected gives that failure and
    /// nothing is asked of the index. Else the tiers are asked in turn, and
    /// the update comes to what `concluded` says of their answers; the
    /// in-memory tier holds the item refreshed where the immediate tier took
    /// the update, and is as it was in every other case.
    pub open spec fn updated(
        before: Self,
        after: Self,
        id: u128,
        entries: Seq<MetadataEntry>,
        r: Result<(), ContextError>,
    ) -> bool {
        &&& Self::carried_on(before, after)
        &&& match metadata_verdict(entries) {
            Err(e) => r == Err::<(), ContextError>(ContextError::Validation(e)) && after.l1()
                == before.l1(),
            Ok(_) => exists|
                first: Result<bool, ContextError>,
                second: Result<bool, ContextError>,
                third: Result<bool, ContextError>,
            |
                #[trigger] concluded(id, first, second, third, r) && if first matches Ok(true) {
                    refreshed(before.l1(), after.l1(), before.config(), id, entries)
                } else {
                    after.l1() == before.l1()
                },
        }
    }

    /// `after` and `r` are what the deletion of the item of `id` makes of
    /// the manager `before`: it succeeds, and the in-memory tier holds
    /// nothing under the id and all else as before.
    pub open spec fn deleted(before: Self, after: Self, id: u128, r: Result<(), ContextError>) -> bool {
        &&& Self::carried_on(before, after)
        &&& r is Ok
        &&& after.l1() == before.l1().remove(id)
    }

    /// `after` and `r` are what the clearing of a tier makes of the manager
    /// `before`: where it succeeds on the immediate tier the in-memory tier
    /// is empty, else the in-memory tier is as it was.
    pub open spec fn cleared(
        before: Self,
        after: Self,
        level: ContextLevel,
        r: Result<(), ContextError>,
    ) -> bool {
        &&& Self::carried_on(before, after)
        &&& after.l1() == if r is Ok && level == ContextLevel::Immediate {
            Map::<u128, Context>::empty()
        } else {
            before.l1()
        }
    }

    /// A manager with an empty in-memory tier. Embeddings must have the
    /// dimension that the provider states now.
    pub fn new(config: HiRAGConfig, embedding_client: E, vector_db: V, curves: C) -> (manager: Self)
        ensures
            manager.wf(),
            manager.config() == config,
            manager.prefix() == DEFAULT_COLLECTION_PREFIX@,
            manager.l1() == Map::<u128, Context>::empty(),
    {
        let dimension = embedding_client.embedding_dimension();
        HiRAGManagerV2 {
            config,
            collection_prefix: DEFAULT_COLLECTION_PREFIX.to_owned(),
            embedding_client,
            vector_db,
            curves,
            dimension,
            l1_cache: L1Cache::new(config.l1_size),
            retriever: ContextRetriever::new(
                TokenEstimator::new(config.token_estimator),
                config.retrieval_strategy,
            ),
            ranker: ContextRanker::new(config.ranking_weights),
            token_estimator: TokenEstimator::new(config.token_estimator),
        }
    }

    /// The vector index that the manager asks.
    pub fn vector_db(&self) -> (store: &V)
        ensures
            *store == self.store(),
    {
        &self.vector_db
    }

    /// The embedding provider that the manager asks.
    pub fn embedding_client(&self) -> (provider: &E)
        ensures
            *provider == self.provider(),
    {
        &self.embedding_client
    }

    /// The manager with another prefix for the names of its collections.
    pub fn with_collection_prefix(self, prefix: String) -> (manager: Self)
        ensures
            manager.wf() == self.wf(),
            manager.config() == self.config(),
            manager.dimension() == self.dimension(),
            manager.l1() == self.l1(),
            manager.prefix() == prefix@,
    {
        let mut manager = self;
        manager.collection_prefix = prefix;
        manager
    }

    /// The name of the collection of a tier.
    pub fn collection_name(&self, level: ContextLevel) -> (name: String)
        ensures
            name@ == collection_of(self.prefix(), level),
    {
        crate::vector_db::client::collection_name(self.collection_prefix.as_str(), level)
    }

    /// Asks the index to create the collection of each tier. A collection
    /// that cannot be created, because it exists or for another reason, is
    /// no failure.
    pub fn initialize(&self) -> (r: Result<(), ContextError>)
        ensures
            r is Ok,
    {
        let _ = self.vector_db.create_collection(
            self.collection_name(ContextLevel::Immediate).as_str(),
        );
        let _ = self.vector_db.create_collection(
            self.collection_name(ContextLevel::ShortTerm).as_str(),
        );
        let _ = self.vector_db.create_collection(
            self.collection_name(ContextLevel::LongTerm).as_str(),
        );
        Ok(())
    }

    /// Number of items in the in-memory tier.
    pub fn l1_len(&self) -> (n: usize)
        ensures
            self.l1().dom().finite(),
            n == self.l1().len(),
    {
        self.l1_cache.len()
    }

    /// Copies of the items of the in-memory tier, in no stated order.
    pub fn l1_contexts(&self) -> (values: Vec<Context>)
        requires
            self.wf(),
        ensures
            crate::hirag::l1_cache::lists_items(self.l1(), values@),
    {
        self.l1_cache.snapshot()
    }

    /// Checks the text and the metadata of an ingest.
    pub fn check_ingest(text: &str, metadata: &Metadata) -> (r: Result<(), ValidationError>)
        ensures
            r == ingest_verdict(text@, metadata.entries()),
    {
        let checked = InputValidator::validate_text(text);
        if checked.is_err() {
            return checked;
        }
        InputValidator::validate_metadata(metadata)
    }

    /// Checks the provider's answer to an ingest: a stored embedding has
    /// the manager's dimension.
    pub fn check_embedding(&self, answer: Result<Vec<u32>, ContextError>) -> (r: Result<
        Vec<u32>,
        ContextError,
    >)
        ensures
            r == embedding_verdict(answer, self.dimension()),
            r matches Ok(vector) ==> vector@.len() == self.dimension(),
    {
        match answer {
            Err(e) => Err(e),
            Ok(vector) => {
                match InputValidator::validate_vector_dimension(vector.len(), self.dimension) {
                    Err(e) => Err(ContextError::Validation(e)),
                    Ok(()) => Ok(vector),
                }
            },
        }
    }

    /// The point that an ingest stores.
    pub fn make_point(
        id: u128,
        vector: Vec<u32>,
        text: &str,
        level: ContextLevel,
        timestamp: i64,
        metadata: Metadata,
    ) -> (point: VectorPoint)
        ensures
            point.id == id,
            point.vector == vector,
            point.payload.text@ == text@,
            point.payload.level == level,
            point.payload.timestamp == timestamp,
            point.payload.agent_id@ == "default"@,
            point.payload.session_id is None,
            point.payload.metadata == metadata,
    {
        VectorPoint {
            id,
            vector,
            payload: Payload {
                text: text.to_owned(),
                level,
                timestamp,
                agent_id: "default".to_owned(),
                session_id: None,
                metadata,
            },
        }
    }

    /// Finishes an ingest after the index has answered the insertion: a
    /// failure is handed on and leaves the in-memory tier as it was; after
    /// a success an immediate item goes into the in-memory tier.
    pub fn finish_ingest(&mut self, inserted: Result<(), ContextError>, context: Context) -> (r:
        Result<u128, ContextError>)
        requires
            old(self).wf(),
        ensures
            Self::carried_on(*old(self), *final(self)),
            match inserted {
                Err(e) => r == Err::<u128, ContextError>(e) && final(self).l1() == old(self).l1(),
                Ok(_) => r == Ok::<u128, ContextError>(context.id) && if context.level
                    == ContextLevel::Immediate {
                    retains_newest(
                        old(self).l1().insert(context.id, context),
                        final(self).l1(),
                        old(self).config().l1_size,
                    )
                } else {
                    final(self).l1() == old(self).l1()
                },
            },
    {
        match inserted {
            Err(e) => Err(e),
            Ok(_) => {
                let id = context.id;
                if context.level == ContextLevel::Immediate {
                    self.l1_cache.insert(context);
                }
                Ok(id)
            },
        }
    }

    /// Stores a text in a tier and gives the id that it was stored under.
    ///
    /// A text or metadata that is rejected is answered at once. Else the
    /// provider is asked for the embedding, which must have the manager's
    /// dimension; an id is minted; and the point is handed to the index. An
    /// immediate item then goes into the in-memory tier, where it may evict
    /// the items written longest ago. Every failure leaves the in-memory
    /// tier as it was.
    pub fn store_context(&mut self, text: &str, level: ContextLevel, metadata: Metadata) -> (r:
        Result<u128, ContextError>)
        requires
            old(self).wf(),
        ensures
            Self::ingested(*old(self), *final(self), text@, level, metadata.entries(), r),
    {
        match Self::check_ingest(text, &metadata) {
            Err(e) => {
                return Err(ContextError::Validation(e));
            },
            Ok(_) => {},
        }
        let answer = self.embedding_client.embed_single(text);
        let vector = match self.check_embedding(answer) {
            Err(e) => {
                return Err(e);
            },
            Ok(vector) => vector,
        };
        let id = mint_id();
        let timestamp = unix_now();
        let token_count = self.token_estimator.estimate(text);
        let point = Self::make_point(id, vector, text, level, timestamp, metadata.clone());
        let collection = self.collection_name(level);
        let inserted = self.vector_db.insert_points(collection.as_str(), vec![point]);
        let context = Context {
            id,
            text: text.to_owned(),
            level,
            relevance_score: SCALE,
            token_count,
            timestamp,
            metadata,
        };
        let ghost stored = context;
        let r = self.finish_ingest(inserted, context);
        proof {
            if r is Ok && level == ContextLevel::Immediate {
                assert(stored.id == id);
                assert(stored.text@ == text@);
                assert(stored.level == level);
                assert(stored.relevance_score == SCALE);
                assert(stored.token_count == estimate_of(
                    old(self).config().token_estimator,
                    text@,
                ));
                assert(stored.metadata.entries() == metadata.entries());
                assert(retains_newest(
                    old(self).l1().insert(id, stored),
                    self.l1(),
                    old(self).config().l1_size,
                ));
            }
        }
        r
    }

    /// Makes the response out of the candidates that the tiers gave: one
    /// candidate per id, scored at the present time, in order of relevance,
    /// within the budget.
    pub fn assemble(
        &self,
        candidates: Vec<Context>,
        max_tokens: usize,
        cache_hits: usize,
        total_searched: usize,
        retrieval_time_ms: u64,
    ) -> (response: ContextResponse)
        requires
            self.wf(),
        ensures
            selected(self.config().ranking_weights, candidates@, max_tokens, response.contexts@),
            sound(response, max_tokens),
            response.metadata.cache_hits == cache_hits,
            response.metadata.total_searched == total_searched,
            response.retrieval_time_ms == retrieval_time_ms,
    {
        let unique = deduplicate(candidates);
        let ghost first = unique@;
        let ranked = self.ranker.rank_contexts(unique, &self.curves);
        let ghost order = ranked@;
        let (contexts, total_tokens) = take_all_within(ranked, max_tokens);
        proof {
            let w = self.config().ranking_weights;
            let scored = choose|scored: Seq<Context>|
                all_rescored(w, first, scored) && arranged(ArrangeBy::Relevance, order, scored);
            assert(distinct_ids(scored)) by {
                assert forall|i: int, j: int| 0 <= i < j < scored.len() implies (
                #[trigger] scored[i]).id != (#[trigger] scored[j]).id by {
                    assert(scored[i].id == first[i].id && scored[j].id == first[j].id);
                }
            }
            lemma_arranged_distinct(ArrangeBy::Relevance, order, scored);
            lemma_fit_all_distinct(order, max_tokens as int);
            assert(in_order(ArrangeBy::Relevance, order)) by {
                let places = choose|places: Seq<int>|
                    crate::hirag::arrange::arranged_from(
                        ArrangeBy::Relevance,
                        order,
                        scored,
                        places,
                    );
            }
            lemma_fit_all_in_order(ArrangeBy::Relevance, order, max_tokens as int);
        }
        let metadata = describe(&contexts, cache_hits, total_searched);
        ContextResponse { contexts, total_tokens, retrieval_time_ms, metadata }
    }

    /// Whether a request asks for a tier.
    pub fn wants(levels: &Vec<ContextLevel>, level: ContextLevel) -> (asked: bool)
        ensures
            asked == asks_for(levels@, level),
    {
        if levels.len() == 0 {
            return true;
        }
        let mut i: usize = 0;
        while i < levels.len()
            invariant
                i <= levels.len(),
                levels@.len() > 0,
                forall|j: int| 0 <= j < i ==> levels@[j] != level,
            decreases levels.len() - i,
        {
            if levels[i] == level {
                return true;
            }
            i = i + 1;
        }
        false
    }

    /// The tokens of each tier for a request: the shares of the budget,
    /// where a tier that is not asked for, and an in-memory tier without
    /// items, gives its share up to the others.
    pub fn tier_budgets(&self, levels: &Vec<ContextLevel>, max_tokens: usize) -> (tokens: (
        usize,
        usize,
        usize,
    ))
        requires
            self.wf(),
        ensures
            tokens == dynamic_allocations(
                self.config().retrieval_strategy,
                max_tokens,
                counted_items(levels@, ContextLevel::Immediate, self.l1().len()),
                counted_items(levels@, ContextLevel::ShortTerm, self.l1().len()),
                counted_items(levels@, ContextLevel::LongTerm, self.l1().len()),
            ),
    {
        let l1_available = if Self::wants(levels, ContextLevel::Immediate) {
            self.l1_cache.len()
        } else {
            0
        };
        let l2_available: usize = if Self::wants(levels, ContextLevel::ShortTerm) {
            1
        } else {
            0
        };
        let l3_available: usize = if Self::wants(levels, ContextLevel::LongTerm) {
            1
        } else {
            0
        };
        self.retriever.calculate_dynamic_allocations(
            max_tokens,
            l1_available,
            l2_available,
            l3_available,
        )
    }

    /// Answers a request with the most relevant items within its budget.
    ///
    /// A query or a budget that is rejected is answered at once. A failure
    /// of the provider is handed on, and an embedding of the query that has
    /// not the manager's dimension is a failure too. Else every tier that the
    /// request asks for gives candidates within its tokens, as
    /// `tier_budgets` divides them: the in-memory tier its newest items, the
    /// other tiers the results of a search. A tier whose search fails gives
    /// none, and the others still count.
    pub fn retrieve_context(&self, request: ContextRequest) -> (r: Result<
        ContextResponse,
        ContextError,
    >)
        requires
            self.wf(),
        ensures
            self.answered(request, r),
    {
        let start = std::time::Instant::now();
        let ghost budget = request.max_tokens;
        match InputValidator::validate_text(request.query.as_str()) {
            Err(e) => {
                return Err(ContextError::Validation(e));
            },
            Ok(_) => {},
        }
        match InputValidator::validate_token_count(request.max_tokens, MAX_REQUEST_TOKENS) {
            Err(e) => {
                return Err(ContextError::Validation(e));
            },
            Ok(_) => {},
        }
        let answer = self.embedding_client.embed_single(request.query.as_str());
        let query_embedding = match self.check_embedding(answer) {
            Err(e) => {
                return Err(e);
            },
            Ok(vector) => vector,
        };
        let (l1_tokens, l2_tokens, l3_tokens) = self.tier_budgets(
            &request.levels,
            request.max_tokens,
        );
        let mut candidates: Vec<Context> = Vec::new();
        let mut cache_hits: usize = 0;
        let mut total_searched: usize = 0;
        let ghost levels = request.levels@;
        let ghost mut memory: Seq<Context> = Seq::empty();
        let ghost mut short_term: Seq<Context> = Seq::empty();
        let ghost mut long_term: Seq<Context> = Seq::empty();
        if Self::wants(&request.levels, ContextLevel::Immediate) {
            let found = self.l1_cache.newest_within(l1_tokens);
            if found.len() > 0 {
                cache_hits = 1;
            }
            proof {
                memory = found@;
            }
            add_tier(&mut candidates, &mut total_searched, Ok(found));
        }
        assert(candidates@ =~= memory);
        if Self::wants(&request.levels, ContextLevel::ShortTerm) {
            let found = self.retriever.retrieve_from_level(
                &self.vector_db,
                self.collection_name(ContextLevel::ShortTerm).as_str(),
                query_embedding.clone(),
                l2_tokens,
                request.filters.clone(),
            );
            proof {
                if found is Ok {
                    short_term = found->Ok_0@;
                }
            }
            add_tier(&mut candidates, &mut total_searched, found);
        }
        assert(candidates@ =~= memory + short_term);
        if Self::wants(&request.levels, ContextLevel::LongTerm) {
            let found = self.retriever.retrieve_from_level(
                &self.vector_db,
                self.collection_name(ContextLevel::LongTerm).as_str(),
                query_embedding,
                l3_tokens,
                request.filters,
            );
            proof {
                if found is Ok {
                    long_term = found->Ok_0@;
                }
            }
            add_tier(&mut candidates, &mut total_searched, found);
        }
        assert(candidates@ =~= memory + short_term + long_term);
        assert(total_searched == clip((memory.len() + short_term.len() + long_term.len()) as int));
        assert(gathered(self.l1(), self.config(), levels, budget, memory, short_term, long_term));
        let elapsed = millis_since(&start);
        let retrieval_time_ms = if elapsed > u64::MAX as u128 {
            u64::MAX
        } else {
            elapsed as u64
        };
        let response = self.assemble(
            candidates,
            request.max_tokens,
            cache_hits,
            total_searched,
            retrieval_time_ms,
        );
        let r: Result<ContextResponse, ContextError> = Ok(response);
        proof {
            assert(r matches Ok(answer) && gathered(
                self.l1(),
                self.config(),
                levels,
                budget,
                memory,
                short_term,
                long_term,
            ) && selected(
                self.config().ranking_weights,
                memory + short_term + long_term,
                budget,
                answer.contexts@,
            ) && answer.metadata.total_searched == clip(
                (memory.len() + short_term.len() + long_term.len()) as int,
            ) && answer.metadata.cache_hits == if memory.len() > 0 {
                1usize
            } else {
                0usize
            });
        }
        r
    }

    /// The point of an update: the point found, with the newer metadata
    /// written over its own and the time of the update as its timestamp.
    pub fn updated_point(point: VectorPoint, newer: &Metadata, timestamp: i64) -> (updated:
        VectorPoint)
        ensures
            rewritten(point, point.id, newer.entries(), timestamp, updated),
    {
        let mut updated = point;
        let mut metadata = Metadata::new();
        core::mem::swap(&mut metadata, &mut updated.payload.metadata);
        metadata.merge(newer);
        updated.payload.metadata = metadata;
        updated.payload.timestamp = timestamp;
        updated
    }

    /// The item of the in-memory tier for a point of the immediate tier.
    pub fn context_of_point(&self, point: VectorPoint) -> (context: Context)
        requires
            self.wf(),
        ensures
            context == item_of(self.config().token_estimator, point),
    {
        let token_count = self.token_estimator.estimate(point.payload.text.as_str());
        Context {
            id: point.id,
            text: point.payload.text,
            level: point.payload.level,
            relevance_score: SCALE,
            token_count,
            timestamp: point.payload.timestamp,
            metadata: point.payload.metadata,
        }
    }

    /// The failure of an update whose id no tier holds.
    pub fn not_found(id: u128) -> (e: ContextError)
        ensures
            e matches ContextError::HiRAG(HiRAGError::ContextNotFound(text)) && text@ == uuid_text(
                id,
            ),
    {
        ContextError::HiRAG(HiRAGError::ContextNotFound(id_text(id)))
    }

    /// Finishes the update of an item in a tier after the index has
    /// answered the insertion of the updated point: a failure is handed on
    /// and leaves the in-memory tier as it was; after a success an item of
    /// the immediate tier goes into the in-memory tier as the point stands.
    pub fn finish_update(
        &mut self,
        level: ContextLevel,
        updated: VectorPoint,
        inserted: Result<(), ContextError>,
    ) -> (r: Result<bool, ContextError>)
        requires
            old(self).wf(),
        ensures
            Self::carried_on(*old(self), *final(self)),
            match inserted {
                Err(e) => r == Err::<bool, ContextError>(e) && final(self).l1() == old(self).l1(),
                Ok(_) => r == Ok::<bool, ContextError>(true) && if level
                    == ContextLevel::Immediate {
                    retains_newest(
                        old(self).l1().insert(
                            updated.id,
                            item_of(old(self).config().token_estimator, updated),
                        ),
                        final(self).l1(),
                        old(self).config().l1_size,
                    )
                } else {
                    final(self).l1() == old(self).l1()
                },
            },
    {
        match inserted {
            Err(e) => Err(e),
            Ok(_) => {
                match level {
                    ContextLevel::Immediate => {
                        let context = self.context_of_point(updated);
                        self.l1_cache.insert(context);
                    },
                    _ => {},
                }
                Ok(true)
            },
        }
    }

    /// Goes on with the update of an item in a tier after the index has
    /// answered the lookup of its point. A failure of the lookup is handed
    /// on, and a tier that does not hold the item answers `Ok(false)`; both
    /// leave everything as it was. A point that was found is written again,
    /// under the id, with the newer metadata over its own and the present
    /// time, and handed to the index; what follows the answer of the index
    /// is what `finish_update` says.
    pub fn after_lookup(
        &mut self,
        level: ContextLevel,
        id: u128,
        metadata: &Metadata,
        found: Result<Option<VectorPoint>, ContextError>,
    ) -> (r: Result<bool, ContextError>)
        requires
            old(self).wf(),
        ensures
            Self::tier_updated(*old(self), *final(self), level, id, metadata.entries(), r),
            match found {
                Err(e) => r == Err::<bool, ContextError>(e),
                Ok(None) => r == Ok::<bool, ContextError>(false),
                Ok(Some(point)) => match r {
                    Err(_) => true,
                    Ok(done) => done && (level == ContextLevel::Immediate ==> refreshed_from(
                        old(self).l1(),
                        final(self).l1(),
                        old(self).config(),
                        id,
                        metadata.entries(),
                        point,
                    )),
                },
            },
    {
        match found {
            Err(e) => Err(e),
            Ok(None) => Ok(false),
            Ok(Some(point)) => {
                let ghost given = point;
                let at = unix_now();
                let mut updated = Self::updated_point(point, metadata, at);
                updated.id = id;
                let collection = self.collection_name(level);
                let inserted = self.vector_db.insert_points(
                    collection.as_str(),
                    vec![updated.clone()],
                );
                let r = self.finish_update(level, updated, inserted);
                proof {
                    if r is Ok && level == ContextLevel::Immediate {
                        assert(rewritten(given, id, metadata.entries(), at, updated));
                        assert(retains_newest(
                            old(self).l1().insert(
                                id,
                                item_of(old(self).config().token_estimator, updated),
                            ),
                            self.l1(),
                            old(self).config().l1_size,
                        ));
                        assert(refreshed_from(
                            old(self).l1(),
                            self.l1(),
                            old(self).config(),
                            id,
                            metadata.entries(),
                            given,
                        ));
                    }
                }
                r
            },
        }
    }

    /// Updates the item of an id in one tier: the index is asked for the
    /// point, and the update goes on as `after_lookup` says.
    pub fn update_in(&mut self, level: ContextLevel, id: u128, metadata: &Metadata) -> (r: Result<
        bool,
        ContextError,
    >)
        requires
            old(self).wf(),
        ensures
            Self::tier_updated(*old(self), *final(self), level, id, metadata.entries(), r),
    {
        let collection = self.collection_name(level);
        let found = self.vector_db.get_point(collection.as_str(), id);
        self.after_lookup(level, id, metadata, found)
    }

    /// What an update comes to after the three tiers have answered in
    /// turn, where the answers before the last were `Ok(false)`.
    pub fn conclude(id: u128, last: Result<bool, ContextError>) -> (r: Result<(), ContextError>)
        ensures
            concluded(
                id,
                Ok::<bool, ContextError>(false),
                Ok::<bool, ContextError>(false),
                last,
                r,
            ),
    {
        match last {
            Err(e) => Err(e),
            Ok(true) => Ok(()),
            Ok(false) => Err(Self::not_found(id)),
        }
    }

    /// Writes newer metadata over the metadata of the item of an id and
    /// refreshes its timestamp, in the first tier that holds the id. An item
    /// of the immediate tier is refreshed in the in-memory tier too.
    ///
    /// Metadata that is rejected is answered at once. A failure of the index
    /// is handed on. An id that no tier holds is answered with
    /// `ContextNotFound`.
    pub fn update_context(&mut self, id: u128, metadata: Metadata) -> (r: Result<(), ContextError>)
        requires
            old(self).wf(),
        ensures
            Self::updated(*old(self), *final(self), id, metadata.entries(), r),
    {
        match InputValidator::validate_metadata(&metadata) {
            Err(e) => {
                return Err(ContextError::Validation(e));
            },
            Ok(_) => {},
        }
        let absent: Ghost<Result<bool, ContextError>> = Ghost(Ok(false));
        let first = self.update_in(ContextLevel::Immediate, id, &metadata);
        match first {
            Err(e) => {
                let r: Result<(), ContextError> = Err(e);
                proof {
                    assert(concluded(id, first, absent@, absent@, r));
                }
                return r;
            },
            Ok(true) => {
                let r: Result<(), ContextError> = Ok(());
                proof {
                    assert(concluded(id, first, absent@, absent@, r));
                }
                return r;
            },
            Ok(false) => {},
        }
        let second = self.update_in(ContextLevel::ShortTerm, id, &metadata);
        match second {
            Err(e) => {
                let r: Result<(), ContextError> = Err(e);
                proof {
                    assert(concluded(id, first, second, absent@, r));
                }
                return r;
            },
            Ok(true) => {
                let r: Result<(), ContextError> = Ok(());
                proof {
                    assert(concluded(id, first, second, absent@, r));
                }
                return r;
            },
            Ok(false) => {},
        }
        let third = self.update_in(ContextLevel::LongTerm, id, &metadata);
        let r = Self::conclude(id, third);
        proof {
            assert(concluded(id, first, second, third, r));
        }
        r
    }

    /// Deletes the item of an id from every tier. An id that a tier does
    /// not hold, or a tier that fails, is no failure.
    pub fn delete_context(&mut self, id: u128) -> (r: Result<(), ContextError>)
        requires
            old(self).wf(),
        ensures
            Self::deleted(*old(self), *final(self), id, r),
    {
        let _ = self.vector_db.delete_points(
            self.collection_name(ContextLevel::Immediate).as_str(),
            vec![id],
        );
        let _ = self.vector_db.delete_points(
            self.collection_name(ContextLevel::ShortTerm).as_str(),
            vec![id],
        );
        let _ = self.vector_db.delete_points(
            self.collection_name(ContextLevel::LongTerm).as_str(),
            vec![id],
        );
        self.l1_cache.remove(id);
        Ok(())
    }

    /// Finishes the clearing of a tier after the index has answered the
    /// creation of its collection: a failure is handed on and leaves the
    /// in-memory tier as it was; after a success the in-memory tier is
    /// empty where the tier is the immediate one.
    pub fn finish_clear(&mut self, level: ContextLevel, created: Result<(), ContextError>) -> (r:
        Result<(), ContextError>)
        requires
            old(self).wf(),
        ensures
            Self::carried_on(*old(self), *final(self)),
            match created {
                Err(e) => r == Err::<(), ContextError>(e),
                Ok(_) => r is Ok,
            },
            final(self).l1() == if created is Ok && level == ContextLevel::Immediate {
                Map::<u128, Context>::empty()
            } else {
                old(self).l1()
            },
    {
        match created {
            Err(e) => Err(e),
            Ok(_) => {
                if level == ContextLevel::Immediate {
                    self.l1_cache.clear();
                }
                Ok(())
            },
        }
    }

    /// Empties a tier: its collection is deleted and created anew, and for
    /// the immediate tier the in-memory tier is emptied. That the collection
    /// cannot be deleted is no failure; that it cannot be created is.
    pub fn clear_level(&mut self, level: ContextLevel) -> (r: Result<(), ContextError>)
        requires
            old(self).wf(),
        ensures
            Self::cleared(*old(self), *final(self), level, r),
    {
        let collection = self.collection_name(level);
        let _ = self.vector_db.delete_collection(collection.as_str());
        let created = self.vector_db.create_collection(collection.as_str());
        self.finish_clear(level, created)
    }
}

impl<E: EmbeddingProvider, V: VectorStore, C: ScoreCurves> crate::hirag::ContextManager for HiRAGManagerV2<
    E,
    V,
    C,
> {
    open spec fn ready(&self) -> bool {
        self.wf()
    }

    fn store_context(&mut self, text: &str, level: ContextLevel, metadata: Metadata) -> (r: Result<
        u128,
        ContextError,
    >)
        ensures
            Self::ingested(*old(self), *final(self), text@, level, metadata.entries(), r),
    {
        HiRAGManagerV2::store_context(self, text, level, metadata)
    }

    fn retrieve_context(&mut self, request: ContextRequest) -> (r: Result<
        ContextResponse,
        ContextError,
    >)
        ensures
            *final(self) == *old(self),
            old(self).answered(request, r),
    {
        HiRAGManagerV2::retrieve_context(self, request)
    }

    fn update_context(&mut self, id: u128, metadata: Metadata) -> (r: Result<(), ContextError>)
        ensures
            Self::updated(*old(self), *final(self), id, metadata.entries(), r),
    {
        HiRAGManagerV2::update_context(self, id, metadata)
    }

    fn delete_context(&mut self, id: u128) -> (r: Result<(), ContextError>)
        ensures
            Self::deleted(*old(self), *final(self), id, r),
    {
        HiRAGManagerV2::delete_context(self, id)
    }

    fn clear_level(&mut self, level: ContextLevel) -> (r: Result<(), ContextError>)
        ensures
            Self::cleared(*old(self), *final(self), level, r),
    {
        HiRAGManagerV2::clear_level(self, level)
    }
}

/// Another name of `HiRAGManagerV2`.
pub type HiRAGManager<E, V, C> = HiRAGManagerV2<E, V, C>;

} // verus!
