use std::cell::RefCell;
use std::time::Duration;

use context_manager::error::{ContextError, VectorDbError};
use context_manager::hirag::background::{
    chunk_at, cutoff, delete_in_chunks, expiry_filter, expiry_query, tally,
    BackgroundTaskManager, GC_BATCH_SIZE, GC_SEARCH_LIMIT,
};
use context_manager::vector_db::models::{
    Condition, ContextLevel, SearchParams, SearchResult, VectorPoint,
};
use context_manager::vector_db::VectorStore;

struct RecordingStore {
    found: usize,
    fail_search: bool,
    fail_deletion: Option<usize>,
    searches: RefCell<Vec<(String, SearchParams)>>,
    deletions: RefCell<Vec<(String, Vec<u128>)>>,
}

impl RecordingStore {
    fn new(found: usize) -> Self {
        RecordingStore {
            found,
            fail_search: false,
            fail_deletion: None,
            searches: RefCell::new(Vec::new()),
            deletions: RefCell::new(Vec::new()),
        }
    }
}

impl VectorStore for RecordingStore {
    fn create_collection(&self, _name: &str) -> Result<(), ContextError> {
        Ok(())
    }

    fn delete_collection(&self, _name: &str) -> Result<(), ContextError> {
        Ok(())
    }

    fn insert_points(&self, _collection: &str, _points: Vec<VectorPoint>) -> Result<(), ContextError> {
        Ok(())
    }

    fn search(&self, collection: &str, params: SearchParams) -> Result<Vec<SearchResult>, ContextError> {
        self.searches.borrow_mut().push((collection.to_string(), params));
        if self.fail_search {
            return Err(ContextError::VectorDb(VectorDbError::SearchError("down".to_string())));
        }
        Ok((0..self.found as u128)
            .map(|id| SearchResult { id, score: 0, payload: None, vector: None })
            .collect())
    }

    fn delete_points(&self, collection: &str, ids: Vec<u128>) -> Result<(), ContextError> {
        let nth = self.deletions.borrow().len();
        self.deletions.borrow_mut().push((collection.to_string(), ids));
        if self.fail_deletion == Some(nth) {
            return Err(ContextError::VectorDb(VectorDbError::DeleteError("no".to_string())));
        }
        Ok(())
    }

    fn get_point(&self, _collection: &str, _id: u128) -> Result<Option<VectorPoint>, ContextError> {
        Ok(None)
    }
}

fn collector() -> BackgroundTaskManager {
    BackgroundTaskManager::new(
        Duration::from_secs(300),
        3600,
        "contexts_shortterm".to_string(),
        "contexts_longterm".to_string(),
        8,
    )
}

#[test]
fn test_background_task_manager_creation() {
    let manager = collector();
    assert_eq!(manager.gc_interval(), Duration::from_secs(300));
}

#[test]
fn cutoff_is_now_less_the_time_to_live() {
    assert_eq!(cutoff(10_000, 3600), 6400);
    assert_eq!(cutoff(0, 86400), -86400);
    assert_eq!(cutoff(i64::MIN, 1), i64::MIN);
    assert_eq!(cutoff(i64::MAX, -1), i64::MAX);
}

#[test]
fn expiry_filter_names_tier_and_cutoff() {
    let filter = expiry_filter(ContextLevel::ShortTerm, 6400);
    assert_eq!(filter.must.len(), 2);
    assert!(filter.should.is_empty());
    assert!(filter.must_not.is_empty());
    match &filter.must[0] {
        Condition::Match { key, value } => {
            assert_eq!(key, "level");
            assert_eq!(value, &serde_json::Value::String("ShortTerm".to_string()));
        }
        _ => panic!("match expected"),
    }
    match &filter.must[1] {
        Condition::Range { key, gte, lte } => {
            assert_eq!(key, "timestamp");
            assert_eq!(*gte, None);
            assert_eq!(*lte, Some(6400));
        }
        _ => panic!("range expected"),
    }
}

#[test]
fn expiry_query_is_a_filter_only_search() {
    let params = expiry_query(4, ContextLevel::LongTerm, 1);
    assert_eq!(params.vector, vec![0, 0, 0, 0]);
    assert_eq!(params.limit, GC_SEARCH_LIMIT);
    assert_eq!(params.limit, 1000);
    assert!(params.filter.is_some());
    assert!(!params.with_payload);
    assert!(!params.with_vector);
    assert!(params.score_threshold.is_none());
}

#[test]
fn chunks_hold_a_hundred_ids() {
    let ids: Vec<u128> = (0..250).collect();
    assert_eq!(GC_BATCH_SIZE, 100);
    assert_eq!(chunk_at(&ids, 0), (0..100).collect::<Vec<u128>>());
    assert_eq!(chunk_at(&ids, 100), (100..200).collect::<Vec<u128>>());
    assert_eq!(chunk_at(&ids, 200), (200..250).collect::<Vec<u128>>());
}

#[test]
fn deletion_goes_on_after_a_failed_chunk() {
    let mut store = RecordingStore::new(0);
    store.fail_deletion = Some(1);
    let ids: Vec<u128> = (0..250).collect();
    let deleted = delete_in_chunks(&store, "contexts_shortterm", &ids);
    assert_eq!(deleted, 150);
    let deletions = store.deletions.borrow();
    assert_eq!(deletions.len(), 3);
    assert_eq!(deletions[0].1.len(), 100);
    assert_eq!(deletions[1].1.len(), 100);
    assert_eq!(deletions[2].1.len(), 50);
    assert_eq!(deletions[2].1[0], 200);
}

#[test]
fn cycle_searches_the_short_term_collection_and_deletes_what_it_finds() {
    let store = RecordingStore::new(120);
    let deleted = collector().cleanup_expired_l2_contexts(&store).unwrap();
    assert_eq!(deleted, 120);
    let searches = store.searches.borrow();
    assert_eq!(searches.len(), 1);
    assert_eq!(searches[0].0, "contexts_shortterm");
    assert_eq!(searches[0].1.vector, vec![0u32; 8]);
    assert_eq!(searches[0].1.limit, 1000);
    let deletions = store.deletions.borrow();
    assert_eq!(deletions.len(), 2);
    assert!(deletions.iter().all(|(name, _)| name == "contexts_shortterm"));
}

#[test]
fn cycle_on_the_long_term_collection() {
    let store = RecordingStore::new(3);
    let deleted = collector().cleanup_expired_l3_contexts(&store, 86400).unwrap();
    assert_eq!(deleted, 3);
    assert_eq!(store.searches.borrow()[0].0, "contexts_longterm");
    assert_eq!(store.deletions.borrow()[0].0, "contexts_longterm");
}

#[test]
fn a_cycle_takes_no_more_than_a_thousand_results() {
    let store = RecordingStore::new(1234);
    let deleted = collector().cleanup_expired_l2_contexts(&store).unwrap();
    assert_eq!(deleted, 1000);
    let deletions = store.deletions.borrow();
    assert_eq!(deletions.len(), 10);
    assert!(deletions.iter().all(|(_, ids)| ids.len() == 100));
    assert_eq!(deletions[9].1[99], 999);
}

#[test]
fn nothing_found_deletes_nothing() {
    let store = RecordingStore::new(0);
    assert_eq!(collector().cleanup_expired_l2_contexts(&store).unwrap(), 0);
    assert!(store.deletions.borrow().is_empty());
}

#[test]
fn failed_search_ends_the_cycle_only() {
    let mut store = RecordingStore::new(5);
    store.fail_search = true;
    let r = collector().cleanup_expired_l2_contexts(&store);
    assert!(matches!(r, Err(ContextError::VectorDb(VectorDbError::SearchError(_)))));
    assert_eq!(collector().run_l2_gc(&store), 0);
    assert!(store.deletions.borrow().is_empty());
}

#[test]
fn only_accepted_deletions_are_counted() {
    assert_eq!(tally(0, 100, &Ok(())), 100);
    assert_eq!(tally(100, 50, &Ok(())), 150);
    let refused: Result<(), ContextError> =
        Err(ContextError::VectorDb(VectorDbError::DeleteError("refused".to_string())));
    assert_eq!(tally(100, 50, &refused), 100);
}

#[test]
fn a_last_chunk_that_fails_is_not_counted() {
    let mut store = RecordingStore::new(0);
    store.fail_deletion = Some(2);
    let ids: Vec<u128> = (0..250).collect();
    assert_eq!(delete_in_chunks(&store, "contexts_longterm", &ids), 200);
    assert_eq!(store.deletions.borrow().len(), 3);
    let none: Vec<u128> = Vec::new();
    assert_eq!(delete_in_chunks(&store, "contexts_longterm", &none), 0);
    assert_eq!(store.deletions.borrow().len(), 3);
}

#[test]
fn each_tier_is_swept_in_its_own_collection() {
    let manager = collector();
    let (collection, params) = manager.l2_target(10_000);
    assert_eq!(collection, "contexts_shortterm");
    assert_eq!(params.limit, GC_SEARCH_LIMIT);
    assert!(!params.with_payload && !params.with_vector);
    let filter = params.filter.unwrap();
    assert!(matches!(
        filter.must[0],
        Condition::Match { ref key, ref value } if key == "level" && value.as_str() == Some("ShortTerm")
    ));
    assert!(matches!(
        filter.must[1],
        Condition::Range { ref key, gte: None, lte: Some(at) } if key == "timestamp" && at == 10_000 - 3600
    ));
    let (collection, params) = manager.l3_target(86_400, 100_000);
    assert_eq!(collection, "contexts_longterm");
    let filter = params.filter.unwrap();
    assert!(matches!(
        filter.must[0],
        Condition::Match { ref key, ref value } if key == "level" && value.as_str() == Some("LongTerm")
    ));
    assert!(matches!(
        filter.must[1],
        Condition::Range { ref key, gte: None, lte: Some(at) } if key == "timestamp" && at == 13_600
    ));

    let store = RecordingStore::new(3);
    assert_eq!(manager.cleanup_expired_l3_contexts(&store, 86_400).unwrap(), 3);
    assert_eq!(store.searches.borrow()[0].0, "contexts_longterm");
    assert!(store.deletions.borrow().iter().all(|(name, _)| name == "contexts_longterm"));
    let store = RecordingStore::new(3);
    assert_eq!(manager.cleanup_expired_l2_contexts(&store).unwrap(), 3);
    assert_eq!(store.searches.borrow()[0].0, "contexts_shortterm");
    assert!(store.deletions.borrow().iter().all(|(name, _)| name == "contexts_shortterm"));
}

#[test]
fn a_cycle_counts_nothing_after_a_failure() {
    assert_eq!(BackgroundTaskManager::cycle_count(Ok(17)), 17);
    assert_eq!(
        BackgroundTaskManager::cycle_count(Err(ContextError::VectorDb(VectorDbError::SearchError(
            "down".to_string()
        )))),
        0
    );
}
