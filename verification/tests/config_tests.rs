use context_manager::config::validation::{
    validate_config, validate_config_for, validate_embedding_config, validate_hirag_config,
    validate_protocol_config, validate_server_config, validate_vector_db_config,
};
use context_manager::config::{
    CodecType, Config, Distance, RankingWeights, RetrievalStrategy, TokenEstimator,
};
use context_manager::error::ContextError;

fn message(r: Result<(), ContextError>) -> String {
    match r {
        Err(ContextError::Config(message)) => message,
        Ok(()) => panic!("accepted"),
        Err(_) => panic!("another failure"),
    }
}

#[test]
fn test_valid_config() {
    let config = Config::default_config("test_token".to_string());

    assert!(validate_config(&config).is_ok());
}

#[test]
fn test_invalid_embedding_url() {
    let mut config = Config::default_config("test_token".to_string());
    config.embedding.api_url = "invalid_url".to_string();

    assert!(validate_embedding_config(&config.embedding).is_err());
}

#[test]
fn test_invalid_batch_size() {
    let mut config = Config::default_config("test_token".to_string());
    config.embedding.batch_size = 0;

    assert!(validate_embedding_config(&config.embedding).is_err());
}

#[test]
fn test_invalid_vector_size() {
    let mut config = Config::default_config(String::new());
    config.vector_db.vector_size = 0;

    assert!(validate_vector_db_config(&config.vector_db, true).is_err());
}

#[test]
fn test_invalid_relevance_threshold() {
    let mut config = Config::default_config(String::new());
    config.hirag.relevance_threshold = 1_500_000;

    assert!(validate_hirag_config(&config.hirag).is_err());
}

#[test]
fn test_invalid_ranking_weights() {
    let mut config = Config::default_config(String::new());
    config.hirag.ranking_weights.similarity_weight = 500_000;
    config.hirag.ranking_weights.recency_weight = 500_000;
    config.hirag.ranking_weights.level_weight = 500_000;
    config.hirag.ranking_weights.frequency_weight = 500_000; // Sum > 1.0

    assert!(validate_hirag_config(&config.hirag).is_err());
}

#[test]
fn default_config_values() {
    let config = Config::default_config("t".to_string());
    assert_eq!(config.embedding.api_token, "t");
    assert_eq!(config.embedding.batch_size, 32);
    assert_eq!(config.embedding.timeout_secs, 30);
    assert_eq!(config.embedding.max_retries, 3);
    assert!(config.embedding.cache_enabled);
    assert_eq!(config.embedding.cache_ttl_secs, 3600);
    assert_eq!(config.embedding.cache_size, 1000);
    assert_eq!(config.vector_db.url, "http://localhost:6334");
    assert_eq!(config.vector_db.collection_prefix, "contexts");
    assert_eq!(config.vector_db.vector_size, 1024);
    assert_eq!(config.vector_db.distance, Distance::Cosine);
    assert_eq!(config.hirag.l1_size, 10);
    assert_eq!(config.hirag.l2_size, 100);
    assert_eq!(config.hirag.max_context_tokens, 4000);
    assert_eq!(config.hirag.relevance_threshold, 700_000);
    assert_eq!(config.hirag.token_estimator, TokenEstimator::CharacterBased { chars_per_token: 4_000_000 });
    assert_eq!(config.hirag.retrieval_strategy, RetrievalStrategy::default());
    assert_eq!(config.hirag.retrieval_strategy.l2_allocation, 400_000);
    assert_eq!(config.hirag.ranking_weights, RankingWeights::default());
    assert_eq!(config.hirag.ranking_weights.similarity_weight, 500_000);
    assert!(!config.hirag.gc_enabled);
    assert_eq!(config.hirag.gc_interval_secs, 300);
    assert_eq!(config.hirag.l2_ttl_secs, 3600);
    assert_eq!(config.hirag.l3_ttl_secs, 86400);
    assert_eq!(config.protocol.version, "1.0.0");
    assert_eq!(config.protocol.codec, CodecType::Json);
    assert_eq!(config.protocol.max_message_size_mb, 10);
    assert_eq!(config.logging.level, "info");
    assert_eq!(config.logging.format, "json");
    assert_eq!(config.server.port, 8080);
    assert_eq!(config.server.host, "0.0.0.0");
    assert_eq!(config.server.max_body_size_mb, 10);
    assert!(config.validate().is_ok());
}

#[test]
fn embedding_rules_in_order() {
    let valid = Config::default_config("t".to_string()).embedding;
    assert!(validate_embedding_config(&valid).is_ok());
    let mut c = valid.clone();
    c.api_url = String::new();
    assert_eq!(message(validate_embedding_config(&c)), "Embedding API URL cannot be empty");
    c.api_url = "ftp://x".to_string();
    assert_eq!(
        message(validate_embedding_config(&c)),
        "Embedding API URL must start with http:// or https://"
    );
    c.api_url = "http://x".to_string();
    c.api_token = String::new();
    c.batch_size = 0;
    assert_eq!(message(validate_embedding_config(&c)), "Embedding API token is required");
    c.api_token = "t".to_string();
    assert_eq!(message(validate_embedding_config(&c)), "Embedding batch size must be greater than 0");
    c.batch_size = 1001;
    assert_eq!(message(validate_embedding_config(&c)), "Embedding batch size too large (max: 1000)");
    c.batch_size = 1000;
    c.timeout_secs = 0;
    assert_eq!(message(validate_embedding_config(&c)), "Embedding timeout must be greater than 0");
    c.timeout_secs = 301;
    assert_eq!(message(validate_embedding_config(&c)), "Embedding timeout too large (max: 300 seconds)");
    c.timeout_secs = 300;
    c.max_retries = 11;
    assert_eq!(message(validate_embedding_config(&c)), "Max retries too large (max: 10)");
    c.max_retries = 10;
    c.cache_size = 0;
    assert_eq!(
        message(validate_embedding_config(&c)),
        "Cache size must be greater than 0 when cache is enabled"
    );
    c.cache_size = 1;
    c.cache_ttl_secs = 0;
    assert_eq!(
        message(validate_embedding_config(&c)),
        "Cache TTL must be greater than 0 when cache is enabled"
    );
    c.cache_enabled = false;
    assert!(validate_embedding_config(&c).is_ok());
}

#[test]
fn vector_db_rules() {
    let valid = Config::default_config("t".to_string()).vector_db;
    assert!(validate_vector_db_config(&valid, true).is_ok());
    let mut c = valid.clone();
    c.url = "localhost".to_string();
    assert_eq!(
        message(validate_vector_db_config(&c, true)),
        "Vector database URL must start with http:// or https://"
    );
    c.url = "http://localhost:6334".to_string();
    c.tls_enabled = true;
    assert_eq!(message(validate_vector_db_config(&c, true)), "TLS is enabled but URL does not use https://");
    c.url = "https://localhost:6334".to_string();
    c.tls_verify = false;
    assert_eq!(
        message(validate_vector_db_config(&c, true)),
        "TLS certificate verification cannot be disabled in production (release mode)"
    );
    assert!(validate_vector_db_config(&c, false).is_ok());
    c.tls_verify = true;
    c.collection_prefix = String::new();
    assert_eq!(message(validate_vector_db_config(&c, true)), "Collection prefix cannot be empty");
    c.collection_prefix = "p".to_string();
    c.vector_size = 4097;
    assert_eq!(message(validate_vector_db_config(&c, true)), "Vector size too large (max: 4096)");
    c.vector_size = 4096;
    c.timeout_secs = 0;
    assert_eq!(message(validate_vector_db_config(&c, true)), "Database timeout must be greater than 0");
    c.timeout_secs = 301;
    assert_eq!(message(validate_vector_db_config(&c, true)), "Database timeout too large (max: 300 seconds)");
}

#[test]
fn hirag_rules() {
    let valid = Config::default_config("t".to_string()).hirag;
    assert!(validate_hirag_config(&valid).is_ok());
    let mut c = valid;
    c.l1_size = 0;
    assert_eq!(message(validate_hirag_config(&c)), "L1 cache size must be greater than 0");
    c.l1_size = 10_001;
    assert_eq!(message(validate_hirag_config(&c)), "L1 cache size too large (max: 10000)");
    c.l1_size = 10_000;
    c.l2_size = 0;
    assert_eq!(message(validate_hirag_config(&c)), "L2 size must be greater than 0");
    c.l2_size = 1_000_001;
    assert_eq!(message(validate_hirag_config(&c)), "L2 size too large (max: 1000000)");
    c.l2_size = 1;
    c.max_context_tokens = 0;
    assert_eq!(message(validate_hirag_config(&c)), "Max context tokens must be greater than 0");
    c.max_context_tokens = 1_000_001;
    assert_eq!(message(validate_hirag_config(&c)), "Max context tokens too large (max: 1000000)");
    c.max_context_tokens = 1;
    c.relevance_threshold = 1_000_001;
    assert_eq!(message(validate_hirag_config(&c)), "Relevance threshold must be between 0.0 and 1.0");
    c.relevance_threshold = 1_000_000;
    c.ranking_weights.recency_weight = 1_000_001;
    assert_eq!(message(validate_hirag_config(&c)), "Recency weight must be between 0.0 and 1.0");
    c.ranking_weights.recency_weight = 200_000;
    // within a hundredth of one
    c.ranking_weights.frequency_weight = 110_000;
    assert!(validate_hirag_config(&c).is_ok());
    c.ranking_weights.frequency_weight = 110_001;
    assert_eq!(message(validate_hirag_config(&c)), "Ranking weights should sum to 1.0");
    c.ranking_weights.frequency_weight = 90_000;
    assert!(validate_hirag_config(&c).is_ok());
    c.ranking_weights.frequency_weight = 89_999;
    assert_eq!(message(validate_hirag_config(&c)), "Ranking weights should sum to 1.0");
    c.ranking_weights.frequency_weight = 100_000;
    c.retrieval_strategy.l2_allocation = 1_000_001;
    assert_eq!(message(validate_hirag_config(&c)), "Retrieval allocations must be between 0.0 and 1.0");
    c.retrieval_strategy.l2_allocation = 500_000;
    assert_eq!(message(validate_hirag_config(&c)), "Retrieval allocations should sum to 1.0");
    c.retrieval_strategy.l2_allocation = 410_000;
    assert!(validate_hirag_config(&c).is_ok());
}

#[test]
fn protocol_and_server_rules() {
    let config = Config::default_config("t".to_string());
    assert!(validate_protocol_config(&config.protocol).is_ok());
    assert!(validate_server_config(&config.server).is_ok());
    let mut p = config.protocol.clone();
    p.version = String::new();
    assert_eq!(message(validate_protocol_config(&p)), "Protocol version cannot be empty");
    p.version = "1".to_string();
    p.max_message_size_mb = 0;
    assert_eq!(message(validate_protocol_config(&p)), "Max message size must be greater than 0");
    p.max_message_size_mb = 101;
    assert_eq!(message(validate_protocol_config(&p)), "Max message size too large (max: 100 MB)");
    let mut s = config.server.clone();
    s.port = 0;
    assert_eq!(message(validate_server_config(&s)), "Server port cannot be 0");
    s.port = 1;
    s.host = String::new();
    assert_eq!(message(validate_server_config(&s)), "Server host cannot be empty");
}

#[test]
fn whole_config_reports_the_first_part_that_fails() {
    let mut config = Config::default_config(String::new());
    config.server.port = 0;
    assert_eq!(message(validate_config(&config)), "Embedding API token is required");
    config.embedding.api_token = "t".to_string();
    assert_eq!(message(validate_config(&config)), "Server port cannot be 0");
    config.server.port = 80;
    config.vector_db.url = "https://db".to_string();
    config.vector_db.tls_enabled = true;
    config.vector_db.tls_verify = false;
    assert!(validate_config(&config).is_err());
    assert!(validate_config_for(&config, false).is_ok());
}
