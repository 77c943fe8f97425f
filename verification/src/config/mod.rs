//! Configuration of the service.
//!
//! Fractions (weights, shares of the token budget, thresholds, characters
//! per token) are given in millionths.

use vstd::prelude::*;

pub mod loader;
pub mod validation;

verus! {

/// Distance metric of the vector index.
#[derive(Debug, Clone, Copy, PartialEq, Eq, Structural)]
pub enum Distance {
    Cosine,
    Euclidean,
    Dot,
}

impl Default for Distance {
    fn default() -> (distance: Self)
        ensures
            distance == Distance::Cosine,
    {
        Distance::Cosine
    }
}

/// Encoding of protocol messages.
#[derive(Debug, Clone, Copy, PartialEq, Eq, Structural)]
pub enum CodecType {
    Json,
    MessagePack,
}

impl Default for CodecType {
    fn default() -> (codec: Self)
        ensures
            codec == CodecType::Json,
    {
        CodecType::Json
    }
}

/// How tokens are estimated from a text.
#[derive(Debug, Clone, Copy, PartialEq, Eq, Structural)]
pub enum TokenEstimator {
    /// So many characters make a token, in millionths of a character.
    CharacterBased { chars_per_token: u32 },
    /// So many words make a token, in millionths of a word.
    WordBased { words_per_token: u32 },
}

impl Default for TokenEstimator {
    fn default() -> (estimator: Self)
        ensures
            estimator == (TokenEstimator::CharacterBased { chars_per_token: 4_000_000 }),
    {
        TokenEstimator::CharacterBased { chars_per_token: 4_000_000 }
    }
}

/// Shares of the token budget per tier, in millionths.
#[derive(Debug, Clone, Copy, PartialEq, Eq, Structural)]
pub struct RetrievalStrategy {
    pub l1_allocation: u32,
    pub l2_allocation: u32,
    pub l3_allocation: u32,
    pub min_contexts_per_level: usize,
}

impl Default for RetrievalStrategy {
    fn default() -> (strategy: Self)
        ensures
            strategy == (RetrievalStrategy {
                l1_allocation: 300_000,
                l2_allocation: 400_000,
                l3_allocation: 300_000,
                min_contexts_per_level: 1,
            }),
    {
        RetrievalStrategy {
            l1_allocation: default_l1_allocation(),
            l2_allocation: default_l2_allocation(),
            l3_allocation: default_l3_allocation(),
            min_contexts_per_level: default_min_contexts(),
        }
    }
}

/// Weights of the four ranking signals, in millionths.
#[derive(Debug, Clone, Copy, PartialEq, Eq, Structural)]
pub struct RankingWeights {
    pub similarity_weight: u32,
    pub recency_weight: u32,
    pub level_weight: u32,
    pub frequency_weight: u32,
}

impl Default for RankingWeights {
    fn default() -> (weights: Self)
        ensures
            weights == (RankingWeights {
                similarity_weight: 500_000,
                recency_weight: 200_000,
                level_weight: 200_000,
                frequency_weight: 100_000,
            }),
    {
        RankingWeights {
            similarity_weight: default_similarity_weight(),
            recency_weight: default_recency_weight(),
            level_weight: default_level_weight(),
            frequency_weight: default_frequency_weight(),
        }
    }
}

/// Configuration of the embedding client.
#[derive(Clone)]
pub struct EmbeddingConfig {
    pub api_url: String,
    /// The bearer token. It is a secret: this type has no `Debug`.
    pub api_token: String,
    pub batch_size: usize,
    pub timeout_secs: u64,
    pub max_retries: u32,
    pub cache_enabled: bool,
    pub cache_ttl_secs: u64,
    pub cache_size: usize,
    pub tls_enabled: bool,
    pub tls_verify: bool,
}

/// Configuration of the vector index client.
#[derive(Clone)]
pub struct VectorDbConfig {
    pub url: String,
    /// The API key. It is a secret: this type has no `Debug`.
    pub api_key: Option<String>,
    pub collection_prefix: String,
    pub vector_size: usize,
    pub distance: Distance,
    pub timeout_secs: u64,
    pub tls_enabled: bool,
    pub tls_cert_path: Option<String>,
    pub tls_verify: bool,
}

/// Configuration of the retrieval core.
#[derive(Debug, Clone, Copy, PartialEq, Eq, Structural)]
pub struct HiRAGConfig {
    pub l1_size: usize,
    pub l2_size: usize,
    pub l3_enabled: bool,
    pub max_context_tokens: usize,
    /// Least relevance of a result, in millionths.
    pub relevance_threshold: u32,
    pub token_estimator: TokenEstimator,
    pub retrieval_strategy: RetrievalStrategy,
    pub ranking_weights: RankingWeights,
    pub gc_enabled: bool,
    pub gc_interval_secs: u64,
    pub l2_ttl_secs: i64,
    pub l3_ttl_secs: i64,
}

/// Configuration of the message protocol.
#[derive(Debug, Clone)]
pub struct ProtocolConfig {
    pub version: String,
    pub codec: CodecType,
    pub max_message_size_mb: usize,
}

/// Configuration of the HTTP server.
#[derive(Debug, Clone)]
pub struct ServerConfig {
    pub port: u16,
    pub host: String,
    /// Largest request body in MB; zero for no limit.
    pub max_body_size_mb: usize,
}

/// Configuration of logging.
#[derive(Debug, Clone)]
pub struct LoggingConfig {
    pub level: String,
    pub format: String,
}

/// The whole configuration.
#[derive(Clone)]
pub struct Config {
    pub embedding: EmbeddingConfig,
    pub vector_db: VectorDbConfig,
    pub hirag: HiRAGConfig,
    pub protocol: ProtocolConfig,
    pub logging: LoggingConfig,
    pub server: ServerConfig,
}

pub fn default_batch_size() -> (n: usize)
    ensures
        n == 32,
{
    32
}

pub fn default_timeout() -> (secs: u64)
    ensures
        secs == 30,
{
    30
}

pub fn default_tls_verify() -> (verify: bool)
    ensures
        verify,
{
    true
}

pub fn default_max_retries() -> (n: u32)
    ensures
        n == 3,
{
    3
}

pub fn default_cache_enabled() -> (enabled: bool)
    ensures
        enabled,
{
    true
}

pub fn default_cache_ttl() -> (secs: u64)
    ensures
        secs == 3600,
{
    3600
}

pub fn default_cache_size() -> (n: usize)
    ensures
        n == 1000,
{
    1000
}

pub fn default_collection_prefix() -> (prefix: String)
    ensures
        prefix@ == "contexts"@,
{
    "contexts".to_owned()
}

pub fn default_vector_size() -> (n: usize)
    ensures
        n == 1024,
{
    1024
}

pub fn default_l1_size() -> (n: usize)
    ensures
        n == 10,
{
    10
}

pub fn default_l2_size() -> (n: usize)
    ensures
        n == 100,
{
    100
}

pub fn default_l3_enabled() -> (enabled: bool)
    ensures
        enabled,
{
    true
}

pub fn default_max_context_tokens() -> (n: usize)
    ensures
        n == 4000,
{
    4000
}

pub fn default_relevance_threshold() -> (threshold: u32)
    ensures
        threshold == 700_000,
{
    700_000
}

pub fn default_l1_allocation() -> (share: u32)
    ensures
        share == 300_000,
{
    300_000
}

pub fn default_l2_allocation() -> (share: u32)
    ensures
        share == 400_000,
{
    400_000
}

pub fn default_l3_allocation() -> (share: u32)
    ensures
        share == 300_000,
{
    300_000
}

pub fn default_min_contexts() -> (n: usize)
    ensures
        n == 1,
{
    1
}

pub fn default_similarity_weight() -> (weight: u32)
    ensures
        weight == 500_000,
{
    500_000
}

pub fn default_recency_weight() -> (weight: u32)
    ensures
        weight == 200_000,
{
    200_000
}

pub fn default_level_weight() -> (weight: u32)
    ensures
        weight == 200_000,
{
    200_000
}

pub fn default_frequency_weight() -> (weight: u32)
    ensures
        weight == 100_000,
{
    100_000
}

pub fn default_protocol_version() -> (version: String)
    ensures
        version@ == "1.0.0"@,
{
    "1.0.0".to_owned()
}

pub fn default_max_message_size() -> (mb: usize)
    ensures
        mb == 10,
{
    10
}

pub fn default_log_level() -> (level: String)
    ensures
        level@ == "info"@,
{
    "info".to_owned()
}

pub fn default_log_format() -> (format: String)
    ensures
        format@ == "json"@,
{
    "json".to_owned()
}

pub fn default_server_port() -> (port: u16)
    ensures
        port == 8080,
{
    8080
}

pub fn default_server_host() -> (host: String)
    ensures
        host@ == "0.0.0.0"@,
{
    "0.0.0.0".to_owned()
}

pub fn default_gc_enabled() -> (enabled: bool)
    ensures
        !enabled,
{
    false
}

pub fn default_gc_interval() -> (secs: u64)
    ensures
        secs == 300,
{
    300
}

pub fn default_l2_ttl() -> (secs: i64)
    ensures
        secs == 3600,
{
    3600
}

pub fn default_l3_ttl() -> (secs: i64)
    ensures
        secs == 86400,
{
    86400
}

pub fn default_max_body_size() -> (mb: usize)
    ensures
        mb == 10,
{
    10
}

impl HiRAGConfig {
    /// The core's configuration where nothing is set.
    pub open spec fn standard() -> HiRAGConfig {
        HiRAGConfig {
            l1_size: 10,
            l2_size: 100,
            l3_enabled: true,
            max_context_tokens: 4000,
            relevance_threshold: 700_000,
            token_estimator: TokenEstimator::CharacterBased { chars_per_token: 4_000_000 },
            retrieval_strategy: RetrievalStrategy {
                l1_allocation: 300_000,
                l2_allocation: 400_000,
                l3_allocation: 300_000,
                min_contexts_per_level: 1,
            },
            ranking_weights: RankingWeights {
                similarity_weight: 500_000,
                recency_weight: 200_000,
                level_weight: 200_000,
                frequency_weight: 100_000,
            },
            gc_enabled: false,
            gc_interval_secs: 300,
            l2_ttl_secs: 3600,
            l3_ttl_secs: 86400,
        }
    }
}

impl Config {
    /// Checks this configuration as the service does at start.
    pub fn validate(&self) -> (r: Result<(), crate::error::ContextError>)
        ensures
            validation::config_verdict(*self, r),
    {
        validation::validate_config(self)
    }

    /// The configuration where nothing but the embedding token is set.
    pub fn default_config(api_token: String) -> (config: Self)
        ensures
            config.embedding.api_url@
                == "https://chutes-intfloat-multilingual-e5-large.chutes.ai/v1/embeddings"@,
            config.embedding.api_token == api_token,
            config.embedding.batch_size == 32,
            config.embedding.timeout_secs == 30,
            config.embedding.max_retries == 3,
            config.embedding.cache_enabled,
            config.embedding.cache_ttl_secs == 3600,
            config.embedding.cache_size == 1000,
            !config.embedding.tls_enabled,
            config.embedding.tls_verify,
            config.vector_db.url@ == "http://localhost:6334"@,
            config.vector_db.api_key is None,
            config.vector_db.collection_prefix@ == "contexts"@,
            config.vector_db.vector_size == 1024,
            config.vector_db.distance == Distance::Cosine,
            config.vector_db.timeout_secs == 30,
            !config.vector_db.tls_enabled,
            config.vector_db.tls_cert_path is None,
            config.vector_db.tls_verify,
            config.hirag == HiRAGConfig::standard(),
            config.protocol.version@ == "1.0.0"@,
            config.protocol.codec == CodecType::Json,
            config.protocol.max_message_size_mb == 10,
            config.logging.level@ == "info"@,
            config.logging.format@ == "json"@,
            config.server.port == 8080,
            config.server.host@ == "0.0.0.0"@,
            config.server.max_body_size_mb == 10,
    {
        Config {
            embedding: EmbeddingConfig {
                api_url: "https://chutes-intfloat-multilingual-e5-large.chutes.ai/v1/embeddings".to_owned(),
                api_token,
                batch_size: default_batch_size(),
                timeout_secs: default_timeout(),
                max_retries: default_max_retries(),
                cache_enabled: default_cache_enabled(),
                cache_ttl_secs: default_cache_ttl(),
                cache_size: default_cache_size(),
                tls_enabled: false,
                tls_verify: true,
            },
            vector_db: VectorDbConfig {
                url: "http://localhost:6334".to_owned(),
                api_key: None,
                collection_prefix: default_collection_prefix(),
                vector_size: default_vector_size(),
                distance: Distance::default(),
                timeout_secs: default_timeout(),
                tls_enabled: false,
                tls_cert_path: None,
                tls_verify: true,
            },
            hirag: HiRAGConfig {
                l1_size: default_l1_size(),
                l2_size: default_l2_size(),
                l3_enabled: default_l3_enabled(),
                max_context_tokens: default_max_context_tokens(),
                relevance_threshold: default_relevance_threshold(),
                token_estimator: TokenEstimator::default(),
                retrieval_strategy: RetrievalStrategy::default(),
                ranking_weights: RankingWeights::default(),
                gc_enabled: default_gc_enabled(),
                gc_interval_secs: default_gc_interval(),
                l2_ttl_secs: default_l2_ttl(),
                l3_ttl_secs: default_l3_ttl(),
            },
            protocol: ProtocolConfig {
                version: default_protocol_version(),
                codec: CodecType::default(),
                max_message_size_mb: default_max_message_size(),
            },
            logging: LoggingConfig { level: default_log_level(), format: default_log_format() },
            server: ServerConfig {
                port: default_server_port(),
                host: default_server_host(),
                max_body_size_mb: default_max_body_size(),
            },
        }
    }
}

} // verus!
