//! Hierarchical context retrieval for AI agents.
//!
//! Text items are embedded, stored in one of three lifetime tiers, and
//! retrieved by similarity under a token budget. This crate holds the
//! logic of that service, verified with Verus:
//!
//! - `hirag`: the manager of the three tiers, the in-memory tier, the
//!   division of the token budget, ranking, selection within a budget, and
//!   garbage collection;
//! - `embedding`: the provider as the core sees it, the embedding cache, and
//!   what the embedding client decides before and after it asks the service;
//! - `vector_db`: the vector index as the core sees it, the circuit breaker,
//!   and the layout of a stored payload;
//! - `middleware`: validation of inputs, token authentication, rate limiting
//!   and the body limit;
//! - `config`, `protocol`, `observability`, `api`: configuration and its
//!   validation, message authentication and handling, health and metrics,
//!   and the bodies of the HTTP interface.
//!
//! Network and disk are not touched here. The manager asks an
//! `EmbeddingProvider` and a `VectorStore` for them, and the embedding client
//! leaves the requests to its caller.
//!
//! Fractions such as scores, weights and shares of the budget are whole
//! numbers of millionths (`units`), and the components of an embedding are
//! held as their bit patterns, so that no floating point is computed here.

pub mod api;
pub mod config;
pub mod crypto;
pub mod embedding;
pub mod error;
pub mod hirag;
pub mod ids;
pub mod json;
pub mod metadata;
pub mod middleware;
pub mod observability;
pub mod prelude;
pub mod protocol;
pub mod text;
pub mod time;
pub mod units;
pub mod v2;
pub mod vector_db;

pub use config::Config;
pub use error::ContextError;
