//! Mail ingestion and extraction pipeline: content-addressed identity,
//! AI-backed fact extraction with schema validation and one-shot repair,
//! idempotent persistence into a relational store and a vector index, and
//! the polling scheduler that drives it all.

pub mod creds;
pub mod errors;
pub mod extractor;
pub mod ident;
pub mod json;
pub mod numbers;
pub mod pipeline;
pub mod provider;
pub mod schema;
pub mod seqtools;
pub mod store;
pub mod sync;
pub mod types;
