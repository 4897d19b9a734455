//! Core layer of an Elasticsearch client for a PostgreSQL index extension:
//! it sizes bulk-indexing concurrency, rewrites aggregations that target
//! nested fields, builds request URLs and bodies, and classifies HTTP
//! outcomes into typed results or errors.

pub mod bulk;
pub mod error;
pub mod executor;
pub mod options;
pub mod query;
pub mod elasticsearch;
pub mod aggregates;
pub mod aliases;
pub mod get_mapping;
pub mod json;
pub mod text;

pub use bulk::compute_bulk_concurrency;
pub use elasticsearch::Elasticsearch;
pub use error::ElasticsearchError;
pub use json::JsonValue;
pub use options::ZDBIndexOptions;
