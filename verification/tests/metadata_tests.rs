use context_manager::api::handlers::{SearchContextRequest, StoreContextRequest};
use context_manager::config::loader::validate_config;
use context_manager::config::Config;
use context_manager::error::ContextError;
use context_manager::hirag::models::{Context, ContextRequest, Priority};
use context_manager::metadata::Metadata;
use context_manager::middleware::validator::{InputValidator, ValidationError};
use context_manager::vector_db::models::ContextLevel;

#[test]
fn metadata_is_a_map_in_order_of_arrival() {
    let mut metadata = Metadata::new();
    assert_eq!(metadata.len(), 0);
    metadata.insert("b".to_string(), serde_json::Value::from(1));
    metadata.insert("a".to_string(), serde_json::Value::from(2));
    metadata.insert("b".to_string(), serde_json::Value::from(3));
    assert_eq!(metadata.len(), 2);
    assert_eq!(metadata.entry(0).key, "b");
    assert_eq!(metadata.entry(0).value, serde_json::Value::from(3));
    assert_eq!(metadata.entry(1).key, "a");
    assert_eq!(metadata.get("a"), Some(&serde_json::Value::from(2)));
    assert_eq!(metadata.get("c"), None);
    let copy = metadata.clone();
    assert_eq!(copy.len(), 2);
    assert_eq!(copy.get("b"), Some(&serde_json::Value::from(3)));
}

#[test]
fn merge_is_last_writer_wins_per_key() {
    let mut base = Metadata::new();
    base.insert("a".to_string(), serde_json::Value::from(1));
    base.insert("b".to_string(), serde_json::Value::from(2));
    let mut newer = Metadata::new();
    newer.insert("b".to_string(), serde_json::Value::from(20));
    newer.insert("c".to_string(), serde_json::Value::from(30));
    base.merge(&newer);
    assert_eq!(base.len(), 3);
    assert_eq!(base.get("a"), Some(&serde_json::Value::from(1)));
    assert_eq!(base.get("b"), Some(&serde_json::Value::from(20)));
    assert_eq!(base.get("c"), Some(&serde_json::Value::from(30)));
}

#[test]
fn metadata_values_are_checked() {
    assert!(InputValidator::validate_metadata_value(&serde_json::Value::from("fine\n\ttext\r")).is_ok());
    assert!(InputValidator::validate_metadata_value(&serde_json::Value::from(5)).is_ok());
    assert!(InputValidator::validate_metadata_value(&serde_json::Value::Null).is_ok());
    assert_eq!(
        InputValidator::validate_metadata_value(&serde_json::Value::from("a\u{0}b")),
        Err(ValidationError::InvalidMetadataValue)
    );
    assert_eq!(
        InputValidator::validate_metadata_value(&serde_json::Value::from("a\u{1b}b")),
        Err(ValidationError::InvalidMetadataValue)
    );
    // 16382 characters and two quotes are 16384 bytes of JSON text
    let fits = serde_json::Value::from("x".repeat(16382));
    assert!(InputValidator::validate_metadata_value(&fits).is_ok());
    let too_large = serde_json::Value::from("x".repeat(16383));
    assert_eq!(
        InputValidator::validate_metadata_value(&too_large),
        Err(ValidationError::MetadataValueTooLarge { size: 16385, max_size: 16384 })
    );
    // a control character inside a nested value is not looked at
    let nested = serde_json::Value::Array(vec![serde_json::Value::from("a\u{1}")]);
    assert!(InputValidator::validate_metadata_value(&nested).is_ok());
    assert_eq!(InputValidator::check_value_text("ok"), Ok(()));
    assert_eq!(InputValidator::check_value_text("\u{7f}"), Err(ValidationError::InvalidMetadataValue));
}

#[test]
fn metadata_keys_are_ascii() {
    let long = "k".repeat(257);
    assert_eq!(
        InputValidator::validate_metadata_key(&long),
        Err(ValidationError::MetadataKeyTooLong { length: 257, max_length: 256 })
    );
    assert!(InputValidator::validate_metadata_key(&"k".repeat(256)).is_ok());
    assert_eq!(InputValidator::validate_metadata_key(""), Err(ValidationError::EmptyMetadataKey));
    assert_eq!(InputValidator::validate_metadata_key("schlüssel"), Err(ValidationError::InvalidMetadataKey));
    assert_eq!(InputValidator::validate_metadata_key("a.b"), Err(ValidationError::InvalidMetadataKey));
    assert!(InputValidator::validate_metadata_key("A-Z_a-z_0-9").is_ok());
}

#[test]
fn whole_metadata_reports_the_first_fault() {
    let mut metadata = Metadata::new();
    metadata.insert("good".to_string(), serde_json::Value::from(1));
    assert!(InputValidator::validate_metadata(&metadata).is_ok());
    metadata.insert("bad value".to_string(), serde_json::Value::from("a\u{0}"));
    metadata.insert("".to_string(), serde_json::Value::from(1));
    assert_eq!(InputValidator::validate_metadata(&metadata), Err(ValidationError::InvalidMetadataKey));
    let mut metadata = Metadata::new();
    metadata.insert("key".to_string(), serde_json::Value::from("a\u{0}"));
    metadata.insert("bad key".to_string(), serde_json::Value::from(1));
    assert_eq!(InputValidator::validate_metadata(&metadata), Err(ValidationError::InvalidMetadataValue));
    let request = StoreContextRequest { text: "t".to_string(), level: ContextLevel::Immediate, metadata };
    assert_eq!(request.check_metadata(), Err(ValidationError::InvalidMetadataValue));
}

#[test]
fn sanitize_keeps_inner_white_space() {
    assert_eq!(InputValidator::sanitize_text("  a \t b\n"), "a \t b");
    assert_eq!(InputValidator::sanitize_text("\u{1}\u{2}"), "");
    assert_eq!(InputValidator::sanitize_text(" \u{0} x \u{0} "), "x");
    assert_eq!(InputValidator::sanitize_text(""), "");
}

#[test]
fn requests_and_contexts() {
    let request = ContextRequest::new("q".to_string(), 10);
    assert!(request.levels.is_empty());
    assert!(request.filters.is_none());
    assert_eq!(request.priority, Priority::Normal);
    assert!(request.session_id.is_none());
    let request = request.with_levels(vec![ContextLevel::LongTerm]).with_session("s".to_string());
    assert_eq!(request.levels, vec![ContextLevel::LongTerm]);
    assert_eq!(request.session_id.as_deref(), Some("s"));
    assert_eq!(request.max_tokens, 10);
    assert_eq!(Priority::default(), Priority::Normal);
    let context = Context::new(5, "t".to_string(), ContextLevel::ShortTerm, 9, 3);
    assert_eq!(context.id, 5);
    assert_eq!(context.relevance_score, 0);
    assert_eq!(context.token_count, 3);
    assert_eq!(context.timestamp, 9);
    assert_eq!(context.metadata.len(), 0);
    let search = SearchContextRequest {
        query: "q".to_string(),
        max_tokens: 7,
        levels: vec![ContextLevel::Immediate],
        priority: Priority::High,
        session_id: Some("s".to_string()),
    };
    let request = search.into_request();
    assert_eq!(request.query, "q");
    assert_eq!(request.max_tokens, 7);
    assert_eq!(request.priority, Priority::High);
    assert!(request.filters.is_none());
}

fn message(r: Result<(), ContextError>) -> String {
    match r {
        Err(ContextError::Config(message)) => message,
        _ => panic!("a configuration error was expected"),
    }
}

#[test]
fn test_validate_config() {
    let config = Config::default_config("test_token".to_string());

    assert!(validate_config(&config).is_ok());
}

#[test]
fn test_validate_empty_token() {
    let config = Config::default_config("".to_string());

    assert!(validate_config(&config).is_err());
}

#[test]
fn loaded_config_rules() {
    let mut config = Config::default_config("t".to_string());
    config.hirag.retrieval_strategy.l1_allocation = 500_000;
    assert_eq!(message(validate_config(&config)), "Retrieval strategy allocations must sum to 1.0");
    config.hirag.retrieval_strategy.l1_allocation = 310_000;
    assert!(validate_config(&config).is_ok());
    config.hirag.ranking_weights.level_weight = 0;
    assert_eq!(message(validate_config(&config)), "Ranking weights must sum to 1.0");
    config.hirag.max_context_tokens = 0;
    assert_eq!(message(validate_config(&config)), "Max context tokens must be greater than 0");
    config.vector_db.vector_size = 0;
    assert_eq!(message(validate_config(&config)), "Vector size must be greater than 0");
    config.vector_db.url = String::new();
    assert_eq!(message(validate_config(&config)), "Vector database URL is required");
    config.embedding.batch_size = 0;
    assert_eq!(message(validate_config(&config)), "Embedding batch size must be greater than 0");
}
