pub mod batch;
pub mod db_viewer;
pub mod analytics;
pub mod api_keys;
pub mod auth;
pub mod backups;
pub mod chunks;
pub mod health;
pub mod ingest_jobs;
pub mod models;
pub mod queries;
pub mod reindex;
pub mod users;
pub mod webhooks;
pub mod releases;
pub mod stages;
pub mod sources;
pub mod llm_credentials;
pub mod llm_models;
pub mod query_stream;
pub mod system_metrics;
