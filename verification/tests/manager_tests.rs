use std::cell::RefCell;
use std::collections::HashMap;

use context_manager::config::{HiRAGConfig, RankingWeights, RetrievalStrategy, TokenEstimator};
use context_manager::embedding::EmbeddingProvider;
use context_manager::error::{ContextError, EmbeddingError, HiRAGError, VectorDbError};
use context_manager::hirag::manager_v2::HiRAGManagerV2;
use context_manager::hirag::models::{Context, ContextRequest};
use context_manager::hirag::ranker::ScoreCurves;
use context_manager::metadata::Metadata;
use context_manager::middleware::validator::ValidationError;
use context_manager::vector_db::models::{
    ContextLevel, SearchParams, SearchResult, VectorPoint,
};
use context_manager::vector_db::VectorStore;

struct FixedProvider {
    dimension: usize,
    fail: bool,
    calls: RefCell<usize>,
}

impl FixedProvider {
    fn new(dimension: usize) -> Self {
        FixedProvider { dimension, fail: false, calls: RefCell::new(0) }
    }
}

impl EmbeddingProvider for FixedProvider {
    fn embed_single(&self, _text: &str) -> Result<Vec<u32>, ContextError> {
        *self.calls.borrow_mut() += 1;
        if self.fail {
            return Err(ContextError::Embedding(EmbeddingError::RateLimitExceeded));
        }
        Ok(vec![1.0f32.to_bits(); self.dimension])
    }

    fn embed_batch(&self, texts: &Vec<String>) -> Result<Vec<Vec<u32>>, ContextError> {
        Ok(texts.iter().map(|_| vec![1.0f32.to_bits(); self.dimension]).collect())
    }

    fn embedding_dimension(&self) -> usize {
        1024
    }
}

struct MemoryStore {
    collections: RefCell<HashMap<String, Vec<VectorPoint>>>,
    failing_search: RefCell<Vec<String>>,
    score: u32,
}

impl MemoryStore {
    fn new() -> Self {
        MemoryStore {
            collections: RefCell::new(HashMap::new()),
            failing_search: RefCell::new(Vec::new()),
            score: 800_000,
        }
    }

    fn count(&self, collection: &str) -> usize {
        self.collections.borrow().get(collection).map(|points| points.len()).unwrap_or(0)
    }
}

impl VectorStore for MemoryStore {
    fn create_collection(&self, name: &str) -> Result<(), ContextError> {
        let mut collections = self.collections.borrow_mut();
        if collections.contains_key(name) {
            return Err(ContextError::VectorDb(VectorDbError::CollectionExists(name.to_string())));
        }
        collections.insert(name.to_string(), Vec::new());
        Ok(())
    }

    fn delete_collection(&self, name: &str) -> Result<(), ContextError> {
        match self.collections.borrow_mut().remove(name) {
            Some(_) => Ok(()),
            None => Err(ContextError::VectorDb(VectorDbError::CollectionNotFound(name.to_string()))),
        }
    }

    fn insert_points(&self, collection: &str, points: Vec<VectorPoint>) -> Result<(), ContextError> {
        let mut collections = self.collections.borrow_mut();
        let held = collections.entry(collection.to_string()).or_insert_with(Vec::new);
        for point in points {
            held.retain(|p| p.id != point.id);
            held.push(point);
        }
        Ok(())
    }

    fn search(&self, collection: &str, params: SearchParams) -> Result<Vec<SearchResult>, ContextError> {
        if self.failing_search.borrow().iter().any(|name| name == collection) {
            return Err(ContextError::VectorDb(VectorDbError::SearchError("down".to_string())));
        }
        let collections = self.collections.borrow();
        let points = match collections.get(collection) {
            Some(points) => points,
            None => return Ok(Vec::new()),
        };
        Ok(points
            .iter()
            .take(params.limit)
            .map(|p| SearchResult {
                id: p.id,
                score: self.score,
                payload: if params.with_payload { Some(p.payload.clone()) } else { None },
                vector: None,
            })
            .collect())
    }

    fn delete_points(&self, collection: &str, ids: Vec<u128>) -> Result<(), ContextError> {
        if let Some(points) = self.collections.borrow_mut().get_mut(collection) {
            points.retain(|p| !ids.contains(&p.id));
        }
        Ok(())
    }

    fn get_point(&self, collection: &str, id: u128) -> Result<Option<VectorPoint>, ContextError> {
        Ok(self
            .collections
            .borrow()
            .get(collection)
            .and_then(|points| points.iter().find(|p| p.id == id).cloned()))
    }
}

struct FloatCurves;

impl ScoreCurves for FloatCurves {
    fn recency(&self, age_seconds: u64) -> u32 {
        let hours = age_seconds as f64 / 3600.0;
        ((-hours / 24.0).exp() * 1_000_000.0).round() as u32
    }

    fn frequency(&self, access_count: u64) -> u32 {
        (((1.0 + access_count as f64).log10() / 101f64.log10()) * 1_000_000.0).round() as u32
    }
}

fn config(l1_size: usize) -> HiRAGConfig {
    HiRAGConfig {
        l1_size,
        l2_size: 100,
        l3_enabled: true,
        max_context_tokens: 4000,
        relevance_threshold: 700_000,
        token_estimator: TokenEstimator::CharacterBased { chars_per_token: 4_000_000 },
        retrieval_strategy: RetrievalStrategy {
            l1_allocation: 300_000,
            l2_allocation: 400_000,
            l3_allocation: 300_000,
            min_contexts_per_level: 1,
        },
        ranking_weights: RankingWeights {
            similarity_weight: 500_000,
            recency_weight: 200_000,
            level_weight: 200_000,
            frequency_weight: 100_000,
        },
        gc_enabled: false,
        gc_interval_secs: 300,
        l2_ttl_secs: 3600,
        l3_ttl_secs: 86400,
    }
}

fn manager(l1_size: usize) -> HiRAGManagerV2<FixedProvider, MemoryStore, FloatCurves> {
    HiRAGManagerV2::new(config(l1_size), FixedProvider::new(1024), MemoryStore::new(), FloatCurves)
}

fn item(id: u128, text: &str, level: ContextLevel, tokens: usize, timestamp: i64) -> Context {
    let mut context = Context::new(id, text.to_string(), level, timestamp, tokens);
    context.relevance_score = 1_000_000;
    context
}

#[test]
fn empty_text_ingest_is_rejected() {
    let mut m = manager(10);
    let r = m.store_context("", ContextLevel::Immediate, Metadata::new());
    assert!(matches!(r, Err(ContextError::Validation(ValidationError::EmptyInput))));
    assert_eq!(m.l1_len(), 0);
}

#[test]
fn ingest_with_bad_metadata_key_is_rejected() {
    let mut m = manager(10);
    let mut metadata = Metadata::new();
    metadata.insert("bad key".to_string(), serde_json::Value::Bool(true));
    let r = m.store_context("some text", ContextLevel::ShortTerm, metadata);
    assert!(matches!(r, Err(ContextError::Validation(ValidationError::InvalidMetadataKey))));
}

#[test]
fn ingest_with_wrong_dimension_is_rejected() {
    let mut m = HiRAGManagerV2::new(config(10), FixedProvider::new(8), MemoryStore::new(), FloatCurves);
    let r = m.store_context("some text", ContextLevel::Immediate, Metadata::new());
    assert!(matches!(
        r,
        Err(ContextError::Validation(ValidationError::InvalidVectorDimension {
            actual: 8,
            expected: 1024
        }))
    ));
    assert_eq!(m.l1_len(), 0);
}

#[test]
fn ingest_of_immediate_item_reaches_store_and_memory() {
    let mut m = manager(10);
    assert!(m.initialize().is_ok());
    let id = m.store_context("hello world", ContextLevel::Immediate, Metadata::new()).unwrap();
    assert_eq!(m.l1_len(), 1);
    let held = m.l1_contexts();
    assert_eq!(held[0].id, id);
    assert_eq!(held[0].text, "hello world");
    assert_eq!(held[0].token_count, 3);
    assert_eq!(held[0].relevance_score, 1_000_000);
    let other = m.store_context("long term", ContextLevel::LongTerm, Metadata::new()).unwrap();
    assert_ne!(id, other);
    assert_eq!(m.l1_len(), 1);
}

#[test]
fn budget_exactly_fits_one_item() {
    let mut m = manager(10);
    let text = "x".repeat(480);
    let stored = item(7, &text, ContextLevel::Immediate, 120, 1_000);
    assert_eq!(m.finish_ingest(Ok(()), stored).unwrap(), 7);
    let request = ContextRequest::new("x".to_string(), 120).with_levels(vec![ContextLevel::Immediate]);
    let response = m.retrieve_context(request).unwrap();
    assert_eq!(response.contexts.len(), 1);
    assert_eq!(response.contexts[0].id, 7);
    assert_eq!(response.total_tokens, 120);
    assert_eq!(response.metadata.cache_hits, 1);
    assert_eq!(response.metadata.total_searched, 1);
    assert_eq!(response.metadata.level_distribution.immediate, 1);
}

#[test]
fn item_over_budget_is_left_out() {
    let mut m = manager(10);
    let stored = item(7, "text", ContextLevel::Immediate, 121, 1_000);
    m.finish_ingest(Ok(()), stored).unwrap();
    let request = ContextRequest::new("x".to_string(), 120).with_levels(vec![ContextLevel::Immediate]);
    let response = m.retrieve_context(request).unwrap();
    assert_eq!(response.contexts.len(), 0);
    assert_eq!(response.total_tokens, 0);
    assert_eq!(response.metadata.avg_relevance, 0);
}

#[test]
fn l1_eviction_keeps_the_newest() {
    let mut m = manager(2);
    m.finish_ingest(Ok(()), item(1, "A", ContextLevel::Immediate, 1, 100)).unwrap();
    m.finish_ingest(Ok(()), item(2, "B", ContextLevel::Immediate, 1, 101)).unwrap();
    m.finish_ingest(Ok(()), item(3, "C", ContextLevel::Immediate, 1, 102)).unwrap();
    assert_eq!(m.l1_len(), 2);
    let mut ids: Vec<u128> = m.l1_contexts().iter().map(|c| c.id).collect();
    ids.sort();
    assert_eq!(ids, vec![2, 3]);
}

#[test]
fn failed_insert_leaves_memory_alone() {
    let mut m = manager(2);
    let r = m.finish_ingest(
        Err(ContextError::VectorDb(VectorDbError::InsertError("no".to_string()))),
        item(1, "A", ContextLevel::Immediate, 1, 100),
    );
    assert!(matches!(r, Err(ContextError::VectorDb(VectorDbError::InsertError(_)))));
    assert_eq!(m.l1_len(), 0);
}

#[test]
fn retrieval_rejects_bad_requests() {
    let m = manager(10);
    let r = m.retrieve_context(ContextRequest::new("".to_string(), 100));
    assert!(matches!(r, Err(ContextError::Validation(ValidationError::EmptyInput))));
    let r = m.retrieve_context(ContextRequest::new("q".to_string(), 0));
    assert!(matches!(r, Err(ContextError::Validation(ValidationError::InvalidTokenCount))));
    let r = m.retrieve_context(ContextRequest::new("q".to_string(), 100_001));
    assert!(matches!(
        r,
        Err(ContextError::Validation(ValidationError::TokenLimitExceeded {
            count: 100_001,
            max: 100_000
        }))
    ));
    assert!(m.retrieve_context(ContextRequest::new("q".to_string(), 100_000)).is_ok());
}

#[test]
fn retrieval_hands_on_a_provider_failure() {
    let mut provider = FixedProvider::new(1024);
    provider.fail = true;
    let m = HiRAGManagerV2::new(config(10), provider, MemoryStore::new(), FloatCurves);
    let r = m.retrieve_context(ContextRequest::new("q".to_string(), 100));
    assert!(matches!(r, Err(ContextError::Embedding(EmbeddingError::RateLimitExceeded))));
}

#[test]
fn retrieval_rejects_a_query_embedding_of_another_dimension() {
    let m = HiRAGManagerV2::new(config(10), FixedProvider::new(3), MemoryStore::new(), FloatCurves);
    let r = m.retrieve_context(ContextRequest::new("q".to_string(), 100));
    assert!(matches!(
        r,
        Err(ContextError::Validation(ValidationError::InvalidVectorDimension { actual: 3, expected: 1024 }))
    ));
}

#[test]
fn stored_item_is_the_top_result() {
    let mut m = manager(10);
    m.initialize().unwrap();
    let id = m.store_context("the quick brown fox", ContextLevel::ShortTerm, Metadata::new()).unwrap();
    let response = m.retrieve_context(ContextRequest::new("the quick brown fox".to_string(), 1000)).unwrap();
    assert_eq!(response.contexts[0].id, id);
    assert_eq!(response.contexts[0].level, ContextLevel::ShortTerm);
    assert_eq!(response.metadata.level_distribution.short_term, 1);
}

#[test]
fn immediate_item_comes_once_though_two_tiers_hold_it() {
    let mut m = manager(10);
    m.initialize().unwrap();
    let id = m.store_context("only once", ContextLevel::Immediate, Metadata::new()).unwrap();
    // the item is in the in-memory tier and in the immediate collection; a
    // second copy under the same id in another collection must not show
    let response = m.retrieve_context(ContextRequest::new("only once".to_string(), 1000)).unwrap();
    let ids: Vec<u128> = response.contexts.iter().map(|c| c.id).collect();
    assert_eq!(ids, vec![id]);
}

#[test]
fn update_of_unknown_id_is_not_found() {
    let mut m = manager(10);
    m.initialize().unwrap();
    let r = m.update_context(42, Metadata::new());
    match r {
        Err(ContextError::HiRAG(HiRAGError::ContextNotFound(text))) => {
            assert_eq!(text, "00000000-0000-0000-0000-00000000002a");
        }
        other => panic!("unexpected: {:?}", other),
    }
}

#[test]
fn update_merges_metadata_and_refreshes_memory() {
    let mut m = manager(10);
    m.initialize().unwrap();
    let mut metadata = Metadata::new();
    metadata.insert("a".to_string(), serde_json::Value::from(1));
    metadata.insert("b".to_string(), serde_json::Value::from(2));
    let id = m.store_context("text", ContextLevel::Immediate, metadata).unwrap();
    let mut newer = Metadata::new();
    newer.insert("b".to_string(), serde_json::Value::from(20));
    newer.insert("c".to_string(), serde_json::Value::from(30));
    m.update_context(id, newer).unwrap();
    let held = m.l1_contexts();
    assert_eq!(held.len(), 1);
    assert_eq!(held[0].metadata.get("a"), Some(&serde_json::Value::from(1)));
    assert_eq!(held[0].metadata.get("b"), Some(&serde_json::Value::from(20)));
    assert_eq!(held[0].metadata.get("c"), Some(&serde_json::Value::from(30)));
}

#[test]
fn delete_twice_is_delete_once() {
    let mut m = manager(10);
    m.initialize().unwrap();
    let id = m.store_context("text", ContextLevel::Immediate, Metadata::new()).unwrap();
    let keep = m.store_context("other", ContextLevel::Immediate, Metadata::new()).unwrap();
    assert!(m.delete_context(id).is_ok());
    let after_one: Vec<u128> = m.l1_contexts().iter().map(|c| c.id).collect();
    assert!(m.delete_context(id).is_ok());
    let after_two: Vec<u128> = m.l1_contexts().iter().map(|c| c.id).collect();
    assert_eq!(after_one, vec![keep]);
    assert_eq!(after_two, vec![keep]);
}

#[test]
fn clear_twice_leaves_the_tier_empty() {
    let mut m = manager(10);
    m.initialize().unwrap();
    m.store_context("text", ContextLevel::Immediate, Metadata::new()).unwrap();
    assert!(m.clear_level(ContextLevel::Immediate).is_ok());
    assert_eq!(m.l1_len(), 0);
    assert!(m.clear_level(ContextLevel::Immediate).is_ok());
    assert_eq!(m.l1_len(), 0);
    let response = m.retrieve_context(ContextRequest::new("text".to_string(), 1000)).unwrap();
    assert_eq!(response.contexts.len(), 0);
}

#[test]
fn collection_names() {
    let m = manager(1);
    assert_eq!(m.collection_name(ContextLevel::Immediate), "contexts_immediate");
    assert_eq!(m.collection_name(ContextLevel::ShortTerm), "contexts_shortterm");
    assert_eq!(m.collection_name(ContextLevel::LongTerm), "contexts_longterm");
    let m = m.with_collection_prefix("agents".to_string());
    assert_eq!(m.collection_name(ContextLevel::Immediate), "agents_immediate");
    assert_eq!(m.collection_name(ContextLevel::LongTerm), "agents_longterm");
}

#[test]
fn items_go_to_the_collections_of_the_prefix() {
    let mut m = manager(4).with_collection_prefix("agents".to_string());
    m.initialize().unwrap();
    let id = m.store_context("short term item", ContextLevel::ShortTerm, Metadata::new()).unwrap();
    assert_eq!(m.vector_db().count("agents_shortterm"), 1);
    assert_eq!(m.vector_db().count("contexts_shortterm"), 0);
    let response = m.retrieve_context(ContextRequest::new("item".to_string(), 100)).unwrap();
    assert_eq!(response.contexts.len(), 1);
    assert_eq!(response.contexts[0].id, id);
    // the in-memory tier gave nothing, so no cache hit is counted
    assert_eq!(response.metadata.cache_hits, 0);
    assert_eq!(response.metadata.total_searched, 1);
}

#[test]
fn update_of_an_item_of_a_later_tier_leaves_memory_alone() {
    let mut m = manager(4);
    m.initialize().unwrap();
    let kept = m.store_context("immediate", ContextLevel::Immediate, Metadata::new()).unwrap();
    let id = m.store_context("long term", ContextLevel::LongTerm, Metadata::new()).unwrap();
    let mut newer = Metadata::new();
    newer.insert("k".to_string(), serde_json::Value::from("v"));
    m.update_context(id, newer).unwrap();
    let held = m.l1_contexts();
    assert_eq!(held.len(), 1);
    assert_eq!(held[0].id, kept);
    assert!(held[0].metadata.get("k").is_none());
    let point = m.vector_db().get_point("contexts_longterm", id).unwrap().unwrap();
    assert_eq!(point.payload.metadata.get("k"), Some(&serde_json::Value::from("v")));
    assert_eq!(point.payload.text, "long term");
}

#[test]
fn what_an_update_comes_to_after_the_last_tier() {
    type M = HiRAGManagerV2<FixedProvider, MemoryStore, FloatCurves>;
    assert!(M::conclude(9, Ok(true)).is_ok());
    assert!(matches!(
        M::conclude(9, Ok(false)),
        Err(ContextError::HiRAG(HiRAGError::ContextNotFound(ref text)))
            if text == "00000000-0000-0000-0000-000000000009"
    ));
    assert!(matches!(
        M::conclude(9, Err(ContextError::VectorDb(VectorDbError::SearchError("down".to_string())))),
        Err(ContextError::VectorDb(VectorDbError::SearchError(ref m))) if m == "down"
    ));
}

#[test]
fn lookup_answers_decide_an_update_in_a_tier() {
    let mut m = manager(4);
    m.initialize().unwrap();
    let mut newer = Metadata::new();
    newer.insert("k".to_string(), serde_json::Value::from(1));
    // a failed lookup is handed on
    let failed = m.after_lookup(
        ContextLevel::Immediate,
        5,
        &newer,
        Err(ContextError::VectorDb(VectorDbError::SearchError("down".to_string()))),
    );
    assert!(matches!(failed, Err(ContextError::VectorDb(VectorDbError::SearchError(_)))));
    // a tier that does not hold the item says so
    assert!(matches!(m.after_lookup(ContextLevel::Immediate, 5, &newer, Ok(None)), Ok(false)));
    assert_eq!(m.l1_len(), 0);
    assert_eq!(m.vector_db().count("contexts_immediate"), 0);
    // a point that was found is written again under the id, with the newer metadata
    let found = point(5, "one two three", ContextLevel::Immediate, 10);
    assert!(matches!(m.after_lookup(ContextLevel::Immediate, 5, &newer, Ok(Some(found))), Ok(true)));
    let stored = m.vector_db().get_point("contexts_immediate", 5).unwrap().unwrap();
    assert_eq!(stored.payload.text, "one two three");
    assert_eq!(stored.payload.metadata.get("k"), Some(&serde_json::Value::from(1)));
    assert!(stored.payload.timestamp > 10);
    let held = m.l1_contexts();
    assert_eq!(held.len(), 1);
    assert_eq!(held[0].id, 5);
    assert_eq!(held[0].timestamp, stored.payload.timestamp);
    assert_eq!(held[0].metadata.get("k"), Some(&serde_json::Value::from(1)));
}

#[test]
fn partial_tier_failure_still_answers() {
    let mut m = manager(10);
    m.initialize().unwrap();
    let in_memory = m.store_context("immediate item", ContextLevel::Immediate, Metadata::new()).unwrap();
    m.store_context("short term item", ContextLevel::ShortTerm, Metadata::new()).unwrap();
    let long_a = m.store_context("long term item a", ContextLevel::LongTerm, Metadata::new()).unwrap();
    let long_b = m.store_context("long term item b", ContextLevel::LongTerm, Metadata::new()).unwrap();
    let response = failing_short_term(m).retrieve_context(ContextRequest::new("item".to_string(), 1000)).unwrap();
    let mut ids: Vec<u128> = response.contexts.iter().map(|c| c.id).collect();
    ids.sort();
    let mut expected = vec![in_memory, long_a, long_b];
    expected.sort();
    assert_eq!(ids, expected);
    assert!(response.contexts.iter().all(|c| c.level != ContextLevel::ShortTerm));
    assert_eq!(response.metadata.total_searched, 3);
    assert_eq!(response.metadata.cache_hits, 1);
    assert_eq!(response.metadata.level_distribution.immediate, 1);
    assert_eq!(response.metadata.level_distribution.short_term, 0);
    assert_eq!(response.metadata.level_distribution.long_term, 2);
}

fn failing_short_term(
    m: HiRAGManagerV2<FixedProvider, MemoryStore, FloatCurves>,
) -> HiRAGManagerV2<FixedProvider, MemoryStore, FloatCurves> {
    m.vector_db().failing_search.borrow_mut().push("contexts_shortterm".to_string());
    m
}

#[test]
fn response_is_within_budget_without_repeats_and_in_order() {
    let mut m = manager(10);
    m.initialize().unwrap();
    for i in 0..6 {
        let text = format!("immediate item number {} {}", i, "x".repeat(i * 7));
        m.store_context(&text, ContextLevel::Immediate, Metadata::new()).unwrap();
    }
    for i in 0..6 {
        let text = format!("short term item number {} {}", i, "y".repeat(i * 11));
        m.store_context(&text, ContextLevel::ShortTerm, Metadata::new()).unwrap();
        let text = format!("long term item number {} {}", i, "z".repeat(i * 5));
        m.store_context(&text, ContextLevel::LongTerm, Metadata::new()).unwrap();
    }
    for budget in [1usize, 10, 25, 40, 80, 200, 5000] {
        let response = m.retrieve_context(ContextRequest::new("item".to_string(), budget)).unwrap();
        let total: usize = response.contexts.iter().map(|c| c.token_count).sum();
        assert_eq!(response.total_tokens, total);
        assert!(response.total_tokens <= budget);
        let mut ids: Vec<u128> = response.contexts.iter().map(|c| c.id).collect();
        let count = ids.len();
        ids.sort();
        ids.dedup();
        assert_eq!(ids.len(), count);
        for pair in response.contexts.windows(2) {
            assert!(pair[0].relevance_score >= pair[1].relevance_score);
        }
        let d = response.metadata.level_distribution;
        assert_eq!(d.immediate + d.short_term + d.long_term, count);
        if count > 0 {
            let sum: u64 = response.contexts.iter().map(|c| c.relevance_score as u64).sum();
            assert_eq!(response.metadata.avg_relevance as u64, sum / count as u64);
        }
    }
}

#[test]
fn tier_budgets_follow_the_request() {
    let mut m = manager(10);
    let all = Vec::new();
    // the in-memory tier is empty and gives its share up
    assert_eq!(m.tier_budgets(&all, 1000), (0, 550, 450));
    m.finish_ingest(Ok(()), item(1, "a", ContextLevel::Immediate, 1, 1)).unwrap();
    assert_eq!(m.tier_budgets(&all, 1000), (300, 400, 300));
    assert_eq!(m.tier_budgets(&vec![ContextLevel::Immediate], 120), (120, 0, 0));
    assert_eq!(m.tier_budgets(&vec![ContextLevel::ShortTerm, ContextLevel::LongTerm], 1000), (0, 550, 450));
    assert_eq!(
        m.tier_budgets(&vec![ContextLevel::LongTerm, ContextLevel::LongTerm], 1000),
        (0, 0, 1000)
    );
}

#[test]
fn ids_of_ingests_are_distinct_random_uuids() {
    let mut m = manager(4);
    let mut ids: Vec<u128> = Vec::new();
    for level in [ContextLevel::Immediate, ContextLevel::ShortTerm, ContextLevel::LongTerm] {
        for _ in 0..5 {
            ids.push(m.store_context("same text", level, Metadata::new()).unwrap());
        }
    }
    for (i, id) in ids.iter().enumerate() {
        assert_eq!((id >> 76) & 0xf, 4);
        assert_eq!((id >> 62) & 0x3, 2);
        for other in &ids[i + 1..] {
            assert_ne!(id, other);
        }
    }
}

fn point(id: u128, text: &str, level: ContextLevel, timestamp: i64) -> VectorPoint {
    HiRAGManagerV2::<FixedProvider, MemoryStore, FloatCurves>::make_point(
        id,
        vec![0u32; 4],
        text,
        level,
        timestamp,
        Metadata::new(),
    )
}

#[test]
fn finished_update_refreshes_memory_for_immediate_items_only() {
    let mut m = manager(2);
    // a failed insertion is handed on and changes nothing
    let failed = m.finish_update(
        ContextLevel::Immediate,
        point(1, "one two three", ContextLevel::Immediate, 10),
        Err(ContextError::VectorDb(VectorDbError::InsertError("refused".to_string()))),
    );
    assert!(matches!(failed, Err(ContextError::VectorDb(VectorDbError::InsertError(_)))));
    assert_eq!(m.l1_len(), 0);
    // an item of another tier stays out of memory
    let other = m.finish_update(
        ContextLevel::ShortTerm,
        point(2, "short term", ContextLevel::ShortTerm, 11),
        Ok(()),
    );
    assert!(matches!(other, Ok(true)));
    assert_eq!(m.l1_len(), 0);
    // an immediate item goes in as the point stands
    let done = m.finish_update(
        ContextLevel::Immediate,
        point(1, "one two three", ContextLevel::Immediate, 10),
        Ok(()),
    );
    assert!(matches!(done, Ok(true)));
    let held = m.l1_contexts();
    assert_eq!(held.len(), 1);
    assert_eq!(held[0].id, 1);
    assert_eq!(held[0].text, "one two three");
    assert_eq!(held[0].timestamp, 10);
    assert_eq!(held[0].relevance_score, 1_000_000);
    assert_eq!(held[0].token_count, 4);
    // and the items written longest ago give way
    m.finish_update(ContextLevel::Immediate, point(3, "c", ContextLevel::Immediate, 12), Ok(())).unwrap();
    m.finish_update(ContextLevel::Immediate, point(4, "d", ContextLevel::Immediate, 11), Ok(())).unwrap();
    let mut ids: Vec<u128> = m.l1_contexts().iter().map(|c| c.id).collect();
    ids.sort();
    assert_eq!(ids, vec![3, 4]);
}
