//! Validation of a configuration at start.
//!
//! Each check names the first rule that a configuration breaks, in a fixed
//! order, as the message of a configuration error.

use vstd::prelude::*;
use crate::config::{
    Config, EmbeddingConfig, HiRAGConfig, ProtocolConfig, RankingWeights, ServerConfig,
    VectorDbConfig,
};
use crate::error::ContextError;
use crate::text::starts_with;
use crate::units::{sums_to_one, SCALE, SUM_TOLERANCE};

verus! {

/// Whether `r` reports `fault`: success where there is none, else a
/// configuration error with the fault as its message.
pub open spec fn reports(r: Result<(), ContextError>, fault: Option<Seq<char>>) -> bool {
    match fault {
        None => r is Ok,
        Some(message) => match r {
            Err(ContextError::Config(text)) => text@ == message,
            _ => false,
        },
    }
}

/// Whether a URL names the `http` or the `https` scheme.
pub open spec fn has_http_scheme(url: Seq<char>) -> bool {
    "http://"@.is_prefix_of(url) || "https://"@.is_prefix_of(url)
}

/// The first rule that an embedding configuration breaks.
pub open spec fn embedding_fault(c: EmbeddingConfig) -> Option<Seq<char>> {
    if c.api_url@.len() == 0 {
        Some("Embedding API URL cannot be empty"@)
    } else if !has_http_scheme(c.api_url@) {
        Some("Embedding API URL must start with http:// or https://"@)
    } else if c.api_token@.len() == 0 {
        Some("Embedding API token is required"@)
    } else if c.batch_size == 0 {
        Some("Embedding batch size must be greater than 0"@)
    } else if c.batch_size > 1000 {
        Some("Embedding batch size too large (max: 1000)"@)
    } else if c.timeout_secs == 0 {
        Some("Embedding timeout must be greater than 0"@)
    } else if c.timeout_secs > 300 {
        Some("Embedding timeout too large (max: 300 seconds)"@)
    } else if c.max_retries > 10 {
        Some("Max retries too large (max: 10)"@)
    } else if c.cache_enabled && c.cache_size == 0 {
        Some("Cache size must be greater than 0 when cache is enabled"@)
    } else if c.cache_enabled && c.cache_ttl_secs == 0 {
        Some("Cache TTL must be greater than 0 when cache is enabled"@)
    } else {
        None
    }
}

/// The first rule that a vector index configuration breaks. In a release
/// build TLS may not go without verification of certificates.
pub open spec fn vector_db_fault(c: VectorDbConfig, release: bool) -> Option<Seq<char>> {
    if c.url@.len() == 0 {
        Some("Vector database URL cannot be empty"@)
    } else if !has_http_scheme(c.url@) {
        Some("Vector database URL must start with http:// or https://"@)
    } else if c.tls_enabled && !"https://"@.is_prefix_of(c.url@) {
        Some("TLS is enabled but URL does not use https://"@)
    } else if c.collection_prefix@.len() == 0 {
        Some("Collection prefix cannot be empty"@)
    } else if c.vector_size == 0 {
        Some("Vector size must be greater than 0"@)
    } else if c.vector_size > 4096 {
        Some("Vector size too large (max: 4096)"@)
    } else if c.timeout_secs == 0 {
        Some("Database timeout must be greater than 0"@)
    } else if c.timeout_secs > 300 {
        Some("Database timeout too large (max: 300 seconds)"@)
    } else if release && c.tls_enabled && !c.tls_verify {
        Some("TLS certificate verification cannot be disabled in production (release mode)"@)
    } else {
        None
    }
}

/// Sum of the four ranking weights.
pub open spec fn weight_sum(w: RankingWeights) -> int {
    w.similarity_weight + w.recency_weight + w.level_weight + w.frequency_weight
}

/// The first rule that a core configuration breaks.
pub open spec fn hirag_fault(c: HiRAGConfig) -> Option<Seq<char>> {
    let w = c.ranking_weights;
    let a = c.retrieval_strategy;
    if c.l1_size == 0 {
        Some("L1 cache size must be greater than 0"@)
    } else if c.l1_size > 10000 {
        Some("L1 cache size too large (max: 10000)"@)
    } else if c.l2_size == 0 {
        Some("L2 size must be greater than 0"@)
    } else if c.l2_size > 1000000 {
        Some("L2 size too large (max: 1000000)"@)
    } else if c.max_context_tokens == 0 {
        Some("Max context tokens must be greater than 0"@)
    } else if c.max_context_tokens > 1000000 {
        Some("Max context tokens too large (max: 1000000)"@)
    } else if c.relevance_threshold > SCALE {
        Some("Relevance threshold must be between 0.0 and 1.0"@)
    } else if w.similarity_weight > SCALE {
        Some("Similarity weight must be between 0.0 and 1.0"@)
    } else if w.recency_weight > SCALE {
        Some("Recency weight must be between 0.0 and 1.0"@)
    } else if w.level_weight > SCALE {
        Some("Level weight must be between 0.0 and 1.0"@)
    } else if w.frequency_weight > SCALE {
        Some("Frequency weight must be between 0.0 and 1.0"@)
    } else if !sums_to_one(weight_sum(w)) {
        Some("Ranking weights should sum to 1.0"@)
    } else if a.l1_allocation > SCALE || a.l2_allocation > SCALE || a.l3_allocation > SCALE {
        Some("Retrieval allocations must be between 0.0 and 1.0"@)
    } else if !sums_to_one(a.l1_allocation + a.l2_allocation + a.l3_allocation) {
        Some("Retrieval allocations should sum to 1.0"@)
    } else {
        None
    }
}

/// The first rule that a protocol configuration breaks.
pub open spec fn protocol_fault(c: ProtocolConfig) -> Option<Seq<char>> {
    if c.version@.len() == 0 {
        Some("Protocol version cannot be empty"@)
    } else if c.max_message_size_mb == 0 {
        Some("Max message size must be greater than 0"@)
    } else if c.max_message_size_mb > 100 {
        Some("Max message size too large (max: 100 MB)"@)
    } else {
        None
    }
}

/// The first rule that a server configuration breaks.
pub open spec fn server_fault(c: ServerConfig) -> Option<Seq<char>> {
    if c.port == 0 {
        Some("Server port cannot be 0"@)
    } else if c.host@.len() == 0 {
        Some("Server host cannot be empty"@)
    } else {
        None
    }
}

/// The first rule that a configuration breaks, part by part.
pub open spec fn config_fault(c: Config, release: bool) -> Option<Seq<char>> {
    if embedding_fault(c.embedding) is Some {
        embedding_fault(c.embedding)
    } else if vector_db_fault(c.vector_db, release) is Some {
        vector_db_fault(c.vector_db, release)
    } else if hirag_fault(c.hirag) is Some {
        hirag_fault(c.hirag)
    } else if protocol_fault(c.protocol) is Some {
        protocol_fault(c.protocol)
    } else {
        server_fault(c.server)
    }
}

/// What `validate_config` answers for a configuration.
pub open spec fn config_verdict(c: Config, r: Result<(), ContextError>) -> bool {
    reports(r, config_fault(c, true))
}

fn fault(message: &str) -> (r: Result<(), ContextError>)
    ensures
        reports(r, Some(message@)),
{
    Err(ContextError::Config(message.to_owned()))
}

fn http_scheme(url: &str) -> (found: bool)
    ensures
        found == has_http_scheme(url@),
{
    starts_with(url, "http://") || starts_with(url, "https://")
}

/// Checks the whole configuration by the rules of a release build.
pub fn validate_config(config: &Config) -> (r: Result<(), ContextError>)
    ensures
        config_verdict(*config, r),
{
    validate_config_for(config, true)
}

/// Checks the whole configuration, for a release build or a debug build.
pub fn validate_config_for(config: &Config, release: bool) -> (r: Result<(), ContextError>)
    ensures
        reports(r, config_fault(*config, release)),
{
    let embedding = validate_embedding_config(&config.embedding);
    if embedding.is_err() {
        return embedding;
    }
    let vector_db = validate_vector_db_config(&config.vector_db, release);
    if vector_db.is_err() {
        return vector_db;
    }
    let hirag = validate_hirag_config(&config.hirag);
    if hirag.is_err() {
        return hirag;
    }
    let protocol = validate_protocol_config(&config.protocol);
    if protocol.is_err() {
        return protocol;
    }
    validate_server_config(&config.server)
}

/// Checks the embedding client's configuration.
pub fn validate_embedding_config(config: &EmbeddingConfig) -> (r: Result<(), ContextError>)
    ensures
        reports(r, embedding_fault(*config)),
{
    if config.api_url.as_str().unicode_len() == 0 {
        return fault("Embedding API URL cannot be empty");
    }
    if !http_scheme(config.api_url.as_str()) {
        return fault("Embedding API URL must start with http:// or https://");
    }
    if config.api_token.as_str().unicode_len() == 0 {
        return fault("Embedding API token is required");
    }
    if config.batch_size == 0 {
        return fault("Embedding batch size must be greater than 0");
    }
    if config.batch_size > 1000 {
        return fault("Embedding batch size too large (max: 1000)");
    }
    if config.timeout_secs == 0 {
        return fault("Embedding timeout must be greater than 0");
    }
    if config.timeout_secs > 300 {
        return fault("Embedding timeout too large (max: 300 seconds)");
    }
    if config.max_retries > 10 {
        return fault("Max retries too large (max: 10)");
    }
    if config.cache_enabled {
        if config.cache_size == 0 {
            return fault("Cache size must be greater than 0 when cache is enabled");
        }
        if config.cache_ttl_secs == 0 {
            return fault("Cache TTL must be greater than 0 when cache is enabled");
        }
    }
    Ok(())
}

/// Checks the vector index client's configuration.
pub fn validate_vector_db_config(config: &VectorDbConfig, release: bool) -> (r: Result<
    (),
    ContextError,
>)
    ensures
        reports(r, vector_db_fault(*config, release)),
{
    if config.url.as_str().unicode_len() == 0 {
        return fault("Vector database URL cannot be empty");
    }
    if !http_scheme(config.url.as_str()) {
        return fault("Vector database URL must start with http:// or https://");
    }
    if config.tls_enabled && !starts_with(config.url.as_str(), "https://") {
        return fault("TLS is enabled but URL does not use https://");
    }
    if config.collection_prefix.as_str().unicode_len() == 0 {
        return fault("Collection prefix cannot be empty");
    }
    if config.vector_size == 0 {
        return fault("Vector size must be greater than 0");
    }
    if config.vector_size > 4096 {
        return fault("Vector size too large (max: 4096)");
    }
    if config.timeout_secs == 0 {
        return fault("Database timeout must be greater than 0");
    }
    if config.timeout_secs > 300 {
        return fault("Database timeout too large (max: 300 seconds)");
    }
    if release && config.tls_enabled && !config.tls_verify {
        return fault(
            "TLS certificate verification cannot be disabled in production (release mode)",
        );
    }
    Ok(())
}

/// Checks the core's configuration.
pub fn validate_hirag_config(config: &HiRAGConfig) -> (r: Result<(), ContextError>)
    ensures
        reports(r, hirag_fault(*config)),
{
    if config.l1_size == 0 {
        return fault("L1 cache size must be greater than 0");
    }
    if config.l1_size > 10000 {
        return fault("L1 cache size too large (max: 10000)");
    }
    if config.l2_size == 0 {
        return fault("L2 size must be greater than 0");
    }
    if config.l2_size > 1000000 {
        return fault("L2 size too large (max: 1000000)");
    }
    if config.max_context_tokens == 0 {
        return fault("Max context tokens must be greater than 0");
    }
    if config.max_context_tokens > 1000000 {
        return fault("Max context tokens too large (max: 1000000)");
    }
    if config.relevance_threshold > SCALE {
        return fault("Relevance threshold must be between 0.0 and 1.0");
    }
    let weights = &config.ranking_weights;
    if weights.similarity_weight > SCALE {
        return fault("Similarity weight must be between 0.0 and 1.0");
    }
    if weights.recency_weight > SCALE {
        return fault("Recency weight must be between 0.0 and 1.0");
    }
    if weights.level_weight > SCALE {
        return fault("Level weight must be between 0.0 and 1.0");
    }
    if weights.frequency_weight > SCALE {
        return fault("Frequency weight must be between 0.0 and 1.0");
    }
    let sum = weights.similarity_weight + weights.recency_weight + weights.level_weight
        + weights.frequency_weight;
    if sum < SCALE - SUM_TOLERANCE || sum > SCALE + SUM_TOLERANCE {
        return fault("Ranking weights should sum to 1.0");
    }
    let shares = &config.retrieval_strategy;
    if shares.l1_allocation > SCALE || shares.l2_allocation > SCALE || shares.l3_allocation > SCALE {
        return fault("Retrieval allocations must be between 0.0 and 1.0");
    }
    let total = shares.l1_allocation + shares.l2_allocation + shares.l3_allocation;
    if total < SCALE - SUM_TOLERANCE || total > SCALE + SUM_TOLERANCE {
        return fault("Retrieval allocations should sum to 1.0");
    }
    Ok(())
}

/// Checks the protocol's configuration.
pub fn validate_protocol_config(config: &ProtocolConfig) -> (r: Result<(), ContextError>)
    ensures
        reports(r, protocol_fault(*config)),
{
    if config.version.as_str().unicode_len() == 0 {
        return fault("Protocol version cannot be empty");
    }
    if config.max_message_size_mb == 0 {
        return fault("Max message size must be greater than 0");
    }
    if config.max_message_size_mb > 100 {
        return fault("Max message size too large (max: 100 MB)");
    }
    Ok(())
}

/// Checks the server's configuration.
pub fn validate_server_config(config: &ServerConfig) -> (r: Result<(), ContextError>)
    ensures
        reports(r, server_fault(*config)),
{
    if config.port == 0 {
        return fault("Server port cannot be 0");
    }
    if config.host.as_str().unicode_len() == 0 {
        return fault("Server host cannot be empty");
    }
    Ok(())
}

} // verus!
