use std::time::Duration;

use context_manager::config::EmbeddingConfig;
use context_manager::embedding::cache::EmbeddingCache;
use context_manager::embedding::client_v2::{
    backoff_ms, cache_key, decide, outcome_of_status, with_jitter, Decision, EmbeddingClientV2,
    Outcome, Start, EMBEDDING_DIMENSION,
};
use context_manager::embedding::models::{EmbeddingInput, EmbeddingRequest};
use context_manager::error::{ContextError, EmbeddingError};
use context_manager::middleware::validator::ValidationError;
use context_manager::vector_db::circuit_breaker::{CircuitBreakerConfig, CircuitState};

fn config(cache_enabled: bool) -> EmbeddingConfig {
    EmbeddingConfig {
        api_url: "https://api.example.com".to_string(),
        api_token: "test-token".to_string(),
        batch_size: 32,
        timeout_secs: 30,
        max_retries: 3,
        cache_enabled,
        cache_ttl_secs: 3600,
        cache_size: 1000,
        tls_enabled: false,
        tls_verify: true,
    }
}

fn client(cache_enabled: bool) -> EmbeddingClientV2 {
    match EmbeddingClientV2::new(config(cache_enabled), true) {
        Ok(client) => client,
        Err(_) => panic!("client"),
    }
}

fn vector(component: f32) -> Vec<u32> {
    vec![component.to_bits(); EMBEDDING_DIMENSION]
}

fn plan_of(start: Start) -> context_manager::embedding::client_v2::BatchPlan {
    match start {
        Start::Ask(plan) => plan,
        _ => panic!("the service should be asked"),
    }
}

#[test]
fn client_test_cache_key_generation() {
    let key1 = cache_key("test");
    let key2 = cache_key("test");
    let key3 = cache_key("different");

    assert_eq!(key1, key2);
    assert_ne!(key1, key3);
}

#[test]
fn client_v2_test_cache_key_generation() {
    let key1 = cache_key("test text");
    let key2 = cache_key("test text");
    let key3 = cache_key("different text");

    assert_eq!(key1, key2);
    assert_ne!(key1, key3);
}

#[test]
fn cache_key_is_the_sha256_in_hex() {
    assert_eq!(
        cache_key("abc"),
        "emb_ba7816bf8f01cfea414140de5dae2223b00361a396177a9cb410ff61f20015ad"
    );
    assert_eq!(
        cache_key(""),
        "emb_e3b0c44298fc1c149afbf4c8996fb92427ae41e4649b934ca495991b7852b855"
    );
}

#[test]
fn release_build_refuses_tls_without_verification() {
    let mut insecure = config(true);
    insecure.tls_enabled = true;
    insecure.tls_verify = false;
    assert!(matches!(
        EmbeddingClientV2::new(insecure.clone(), true),
        Err(ContextError::Embedding(EmbeddingError::ApiError(_)))
    ));
    assert!(EmbeddingClientV2::new(insecure, false).is_ok());
}

#[test]
fn dimension_is_fixed() {
    assert_eq!(client(false).embedding_dimension(), 1024);
}

#[test]
fn client_of_another_dimension_takes_vectors_of_that_dimension() {
    let mut c = client(true).with_dimension(3);
    assert_eq!(c.embedding_dimension(), 3);
    let plan = plan_of(c.begin_single("hello"));
    let refused = c.complete_single(plan, vector(1.0));
    assert!(matches!(
        refused,
        Err(ContextError::Validation(ValidationError::InvalidVectorDimension { actual: 1024, expected: 3 }))
    ));
    let plan = plan_of(c.begin_single("hello"));
    assert_eq!(c.complete_single(plan, vec![1, 2, 3]).unwrap(), vec![1, 2, 3]);
    match c.begin_single("hello") {
        Start::Complete(vectors) => assert_eq!(vectors, vec![vec![1, 2, 3]]),
        _ => panic!("the cache should answer"),
    }
}

#[test]
fn rejected_text_is_answered_before_the_cache_is_asked() {
    let mut cache = EmbeddingCache::new(10, Duration::from_secs(60));
    cache.put(cache_key("good"), vector(5.0));
    let mut c = client(false).with_cache(cache);
    assert!(matches!(c.begin_single(""), Start::Rejected(_)));
    assert!(matches!(c.begin_single("a\u{7}b"), Start::Rejected(_)));
    assert!(matches!(c.begin_single("good"), Start::Complete(_)));
}

#[test]
fn requests_carry_their_texts() {
    let single = EmbeddingRequest::single("one".to_string());
    assert!(matches!(single.input, EmbeddingInput::Single(ref text) if text == "one"));
    assert!(single.model.is_none());
    let batch = EmbeddingRequest::batch(vec!["a".to_string(), "b".to_string()]);
    assert!(matches!(batch.input, EmbeddingInput::Batch(ref texts) if texts.len() == 2));
    assert!(batch.model.is_none());
}

#[test]
fn backoff_doubles_up_to_thirty_seconds() {
    assert_eq!(backoff_ms(100, 1), 100);
    assert_eq!(backoff_ms(100, 2), 200);
    assert_eq!(backoff_ms(100, 3), 400);
    assert_eq!(backoff_ms(100, 9), 25_600);
    assert_eq!(backoff_ms(100, 10), 30_000);
    assert_eq!(backoff_ms(100, 1_000_000), 30_000);
    assert_eq!(backoff_ms(500, 1), 500);
    assert_eq!(backoff_ms(500, 7), 30_000);
    assert_eq!(backoff_ms(100, 0), 100);
    assert_eq!(backoff_ms(0, 5), 0);
    assert_eq!(backoff_ms(50_000, 1), 30_000);
}

#[test]
fn jitter_stays_within_a_quarter() {
    assert_eq!(with_jitter(1000, 0), 750);
    assert_eq!(with_jitter(1000, 500), 1250);
    assert_eq!(with_jitter(1000, 501), 750);
    assert_eq!(with_jitter(1000, 250), 1000);
    assert_eq!(with_jitter(0, 12345), 0);
    for seed in [0u64, 1, 7, 499, 500, 12345, u64::MAX] {
        let delay = with_jitter(30_000, seed);
        assert!((22_500..=37_500).contains(&delay));
    }
}

#[test]
fn decisions_for_each_outcome() {
    assert!(matches!(decide(Outcome::Delivered, 1, 3, 0), Decision::Deliver));
    assert!(matches!(
        decide(Outcome::Unauthorized, 1, 3, 0),
        Decision::Fail(EmbeddingError::AuthenticationFailed)
    ));
    // a rate limit starts from 500 ms, everything else from 100 ms
    assert!(matches!(decide(Outcome::RateLimited, 1, 3, 125), Decision::Retry { delay_ms: 500 }));
    assert!(matches!(decide(Outcome::RateLimited, 2, 3, 250), Decision::Retry { delay_ms: 1000 }));
    assert!(matches!(
        decide(Outcome::Unreachable("x".to_string()), 1, 3, 25),
        Decision::Retry { delay_ms: 100 }
    ));
    assert!(matches!(
        decide(Outcome::Rejected("x".to_string()), 3, 3, 0),
        Decision::Retry { delay_ms: 300 }
    ));
    assert!(matches!(
        decide(Outcome::Unparseable("x".to_string()), 3, 3, 200),
        Decision::Retry { delay_ms: 500 }
    ));
    // once the retries are spent the failure is handed on
    assert!(matches!(
        decide(Outcome::RateLimited, 4, 3, 0),
        Decision::Fail(EmbeddingError::RateLimitExceeded)
    ));
    assert!(matches!(
        decide(Outcome::Unreachable("gone".to_string()), 4, 3, 0),
        Decision::Fail(EmbeddingError::NetworkError(ref detail)) if detail == "gone"
    ));
    assert!(matches!(
        decide(Outcome::Rejected("500".to_string()), 4, 3, 0),
        Decision::Fail(EmbeddingError::ApiError(ref detail)) if detail == "500"
    ));
    assert!(matches!(
        decide(Outcome::Unparseable("bad".to_string()), 1, 0, 0),
        Decision::Fail(EmbeddingError::ApiError(ref detail)) if detail == "bad"
    ));
}

#[test]
fn invalid_text_is_rejected_before_anything_is_asked() {
    let mut c = client(true);
    assert!(matches!(
        c.begin_single(""),
        Start::Rejected(ContextError::Validation(ValidationError::EmptyInput))
    ));
    let long = "a".repeat(8193);
    assert!(matches!(
        c.begin_single(&long),
        Start::Rejected(ContextError::Validation(ValidationError::TextTooLong { .. }))
    ));
    assert!(matches!(
        c.begin_single("a\u{7}b"),
        Start::Rejected(ContextError::Validation(ValidationError::InvalidCharacters))
    ));
    let texts = vec!["fine".to_string(), " ".to_string()];
    assert!(matches!(
        c.begin_batch(&texts),
        Start::Rejected(ContextError::Validation(ValidationError::EmptyInput))
    ));
}

#[test]
fn batch_over_the_batch_size_is_rejected() {
    let mut c = client(false);
    let texts: Vec<String> = (0..33).map(|i| format!("text {}", i)).collect();
    assert!(matches!(
        c.begin_batch(&texts),
        Start::Rejected(ContextError::Validation(ValidationError::BatchTooLarge { size: 33, max_size: 32 }))
    ));
    let texts: Vec<String> = (0..32).map(|i| format!("text {}", i)).collect();
    assert!(matches!(c.begin_batch(&texts), Start::Ask(_)));
}

#[test]
fn empty_batch_is_complete() {
    let mut c = client(true);
    match c.begin_batch(&Vec::new()) {
        Start::Complete(vectors) => assert!(vectors.is_empty()),
        _ => panic!("nothing to ask"),
    }
}

#[test]
fn cache_transparency_second_call_asks_nothing() {
    let mut c = client(true);
    let plan = plan_of(c.begin_single("hello"));
    assert_eq!(plan.pending(), 1);
    let request = plan.request();
    assert!(matches!(request.input, EmbeddingInput::Batch(ref texts) if texts == &vec!["hello".to_string()]));
    let answered = c.complete_single(plan, vector(0.5)).unwrap();
    assert_eq!(answered, vector(0.5));
    match c.begin_single("hello") {
        Start::Complete(vectors) => assert_eq!(vectors, vec![vector(0.5)]),
        _ => panic!("the cache should answer"),
    }
    // another text is asked for
    assert!(matches!(c.begin_single("other"), Start::Ask(_)));
}

#[test]
fn client_without_cache_always_asks() {
    let mut c = client(false);
    let plan = plan_of(c.begin_single("hello"));
    c.complete_single(plan, vector(0.5)).unwrap();
    assert!(matches!(c.begin_single("hello"), Start::Ask(_)));
}

#[test]
fn batch_is_stitched_in_the_order_of_its_texts() {
    let mut c = client(true);
    let plan = plan_of(c.begin_single("b"));
    c.complete_single(plan, vector(2.0)).unwrap();
    let texts = vec!["a".to_string(), "b".to_string(), "c".to_string()];
    let plan = plan_of(c.begin_batch(&texts));
    assert_eq!(plan.pending(), 2);
    let request = plan.request();
    assert!(matches!(
        request.input,
        EmbeddingInput::Batch(ref asked) if asked == &vec!["a".to_string(), "c".to_string()]
    ));
    let vectors = c.complete_batch(plan, vec![vector(1.0), vector(3.0)]).unwrap();
    assert_eq!(vectors, vec![vector(1.0), vector(2.0), vector(3.0)]);
    // now all three come from the cache
    match c.begin_batch(&texts) {
        Start::Complete(vectors) => assert_eq!(vectors, vec![vector(1.0), vector(2.0), vector(3.0)]),
        _ => panic!("the cache should answer"),
    }
}

#[test]
fn answer_that_does_not_fit_is_a_failure() {
    let mut c = client(true);
    let texts = vec!["a".to_string(), "b".to_string()];
    let plan = plan_of(c.begin_batch(&texts));
    let short = c.complete_batch(plan, vec![vector(1.0)]);
    assert!(matches!(
        short,
        Err(ContextError::Embedding(EmbeddingError::ApiError(ref m))) if m == "Missing embedding in response"
    ));
    let plan = plan_of(c.begin_batch(&texts));
    let wrong = c.complete_batch(plan, vec![vector(1.0), vec![0u32; 3]]);
    assert!(matches!(
        wrong,
        Err(ContextError::Validation(ValidationError::InvalidVectorDimension { actual: 3, expected: 1024 }))
    ));
    // nothing went into the cache
    assert!(matches!(c.begin_batch(&texts), Start::Ask(_)));
}

#[test]
fn breaker_opens_after_three_failures_and_refuses_the_next_call() {
    let breaker = CircuitBreakerConfig {
        failure_threshold: 3,
        success_threshold: 2,
        timeout: Duration::from_secs(60),
        window_size: Duration::from_secs(60),
    };
    let mut c = client(true).with_circuit_breaker(breaker);
    assert_eq!(c.breaker_state(), Some(CircuitState::Closed));
    for attempt in 1..=3u32 {
        let plan = plan_of(c.begin_single("hello"));
        assert_eq!(plan.pending(), 1);
        let decision = c.on_outcome(attempt, Outcome::Unreachable("refused".to_string()));
        assert!(matches!(decision, Decision::Retry { .. }));
    }
    assert_eq!(c.breaker_state(), Some(CircuitState::Open));
    match c.begin_single("hello") {
        Start::Unavailable(ContextError::Embedding(EmbeddingError::ServiceUnavailable(_))) => {}
        _ => panic!("the open breaker should refuse the call"),
    }
}

#[test]
fn refused_credentials_do_not_count_for_the_breaker() {
    let breaker = CircuitBreakerConfig {
        failure_threshold: 1,
        success_threshold: 1,
        timeout: Duration::from_secs(60),
        window_size: Duration::from_secs(60),
    };
    let mut c = client(false).with_circuit_breaker(breaker);
    let decision = c.on_outcome(1, Outcome::Unauthorized);
    assert!(matches!(decision, Decision::Fail(EmbeddingError::AuthenticationFailed)));
    assert_eq!(c.breaker_state(), Some(CircuitState::Closed));
    assert!(matches!(c.on_outcome(1, Outcome::Delivered), Decision::Deliver));
    assert_eq!(c.breaker_state(), Some(CircuitState::Closed));
    c.on_outcome(1, Outcome::RateLimited);
    assert_eq!(c.breaker_state(), Some(CircuitState::Open));
}

#[test]
fn open_breaker_does_not_stop_an_answer_from_the_cache() {
    let breaker = CircuitBreakerConfig {
        failure_threshold: 1,
        success_threshold: 1,
        timeout: Duration::from_secs(60),
        window_size: Duration::from_secs(60),
    };
    let mut c = client(true).with_circuit_breaker(breaker);
    let plan = plan_of(c.begin_single("hello"));
    c.complete_single(plan, vector(0.5)).unwrap();
    c.on_outcome(1, Outcome::Unreachable("down".to_string()));
    assert_eq!(c.breaker_state(), Some(CircuitState::Open));
    assert!(matches!(c.begin_single("hello"), Start::Complete(_)));
    assert!(matches!(c.begin_single("new"), Start::Unavailable(_)));
}

#[test]
fn test_cache_put_get() {
    let mut cache = EmbeddingCache::new(10, Duration::from_secs(60));
    let embedding = vec![1.0f32.to_bits(), 2.0f32.to_bits(), 3.0f32.to_bits()];

    cache.put("test".to_string(), embedding.clone());
    let result = cache.get("test");

    assert_eq!(result, Some(embedding));
}

#[test]
fn test_cache_miss() {
    let mut cache = EmbeddingCache::new(10, Duration::from_secs(60));
    let result = cache.get("nonexistent");

    assert_eq!(result, None);
}

#[test]
fn test_cache_stats() {
    let mut cache = EmbeddingCache::new(10, Duration::from_secs(60));
    let embedding = vec![1.0f32.to_bits(), 2.0f32.to_bits(), 3.0f32.to_bits()];

    cache.put("test".to_string(), embedding);
    cache.get("test");
    cache.get("nonexistent");

    let stats = cache.stats();
    assert!(stats.size <= 10);
    assert_eq!(stats.hits, 1);
    assert_eq!(stats.misses, 1);
    assert_eq!(stats.hit_rate, 500_000);
}

#[test]
fn cache_clear_discards_everything() {
    let mut cache = EmbeddingCache::new(10, Duration::from_secs(60));
    cache.put("a".to_string(), vec![1]);
    cache.put("b".to_string(), vec![2]);
    // let the clock move on, so that the entries are older than the call
    let start = std::time::Instant::now();
    while start.elapsed() < Duration::from_millis(5) {
        std::hint::spin_loop();
    }
    cache.clear();
    assert_eq!(cache.get("a"), None);
    assert_eq!(cache.get("b"), None);
    let start = std::time::Instant::now();
    while start.elapsed() < Duration::from_millis(5) {
        std::hint::spin_loop();
    }
    cache.put("a".to_string(), vec![3]);
    assert_eq!(cache.get("a"), Some(vec![3]));
    cache.cleanup();
    assert_eq!(cache.size(), 1);
}

#[test]
fn status_codes_and_what_they_mean() {
    assert!(matches!(outcome_of_status(200, true, String::new()), Outcome::Delivered));
    assert!(matches!(outcome_of_status(299, true, String::new()), Outcome::Delivered));
    assert!(matches!(
        outcome_of_status(200, false, "bad".to_string()),
        Outcome::Unparseable(ref detail) if detail == "bad"
    ));
    assert!(matches!(outcome_of_status(401, false, String::new()), Outcome::Unauthorized));
    assert!(matches!(outcome_of_status(429, false, String::new()), Outcome::RateLimited));
    assert!(matches!(
        outcome_of_status(500, false, "down".to_string()),
        Outcome::Rejected(ref detail) if detail == "down"
    ));
    assert!(matches!(outcome_of_status(300, true, String::new()), Outcome::Rejected(_)));
    assert!(matches!(outcome_of_status(199, true, String::new()), Outcome::Rejected(_)));
}

#[test]
fn single_text_gives_the_vector_of_the_answer() {
    let mut c = client(true);
    let plan = plan_of(c.begin_single("hello"));
    assert_eq!(plan.pending(), 1);
    assert_eq!(c.complete_single(plan, vector(7.0)).unwrap(), vector(7.0));
    match c.begin_single("hello") {
        Start::Complete(vectors) => assert_eq!(vectors, vec![vector(7.0)]),
        _ => panic!("the cache should answer"),
    }
    // a vector of another dimension is refused and not cached
    let plan = plan_of(c.begin_single("other"));
    let wrong = c.complete_single(plan, vec![0u32; 5]);
    assert!(matches!(
        wrong,
        Err(ContextError::Validation(ValidationError::InvalidVectorDimension { actual: 5, expected: 1024 }))
    ));
    assert!(matches!(c.begin_single("other"), Start::Ask(_)));
}

#[test]
fn single_answer_to_a_plan_of_two_texts_does_not_fit() {
    let mut c = client(false);
    let texts = vec!["a".to_string(), "b".to_string()];
    let plan = plan_of(c.begin_batch(&texts));
    let r = c.complete_single(plan, vector(1.0));
    assert!(matches!(
        r,
        Err(ContextError::Embedding(EmbeddingError::ApiError(ref m))) if m == "Missing embedding in response"
    ));
}

#[test]
fn test_cache_ttl() {
    let mut cache = EmbeddingCache::new(10, Duration::from_millis(100));
    let embedding = vec![1.0f32.to_bits(), 2.0f32.to_bits(), 3.0f32.to_bits()];

    cache.put("test".to_string(), embedding.clone());
    let start = std::time::Instant::now();
    while start.elapsed() < Duration::from_millis(150) {
        std::hint::spin_loop();
    }

    // Run pending tasks to process expirations
    cache.cleanup();

    let result = cache.get("test");
    assert_eq!(result, None);
}

#[test]
fn lookup_takes_only_vectors_of_the_dimension() {
    assert_eq!(EmbeddingClientV2::take_fitting(None, 1024), None);
    assert_eq!(EmbeddingClientV2::take_fitting(Some(vec![0u32; 3]), 1024), None);
    assert_eq!(EmbeddingClientV2::take_fitting(Some(vector(1.0)), 1024), Some(vector(1.0)));
    assert_eq!(EmbeddingClientV2::take_fitting(Some(vec![0u32; 3]), 3), Some(vec![0u32; 3]));

    // without a cache nothing is found
    let mut bare = client(false);
    assert_eq!(bare.lookup("x"), None);

    // a cached vector of another dimension is passed over, one that fits is found
    let mut cache = EmbeddingCache::new(10, Duration::from_secs(60));
    cache.put(cache_key("short"), vec![0u32; 3]);
    cache.put(cache_key("good"), vector(5.0));
    let mut c = client(false).with_cache(cache);
    assert_eq!(c.lookup("short"), None);
    assert_eq!(c.lookup("good"), Some(vector(5.0)));
    assert_eq!(c.lookup("absent"), None);
}
