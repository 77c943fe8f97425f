//! The manager and the embedding client under their present names.

pub use crate::embedding::client_v2::EmbeddingClientV2;
pub use crate::hirag::manager_v2::HiRAGManagerV2;
