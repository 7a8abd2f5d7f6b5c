use ragdoll::config::{config_from_env_vars, sanitize_model_name, Config, EnvVars};
use ragdoll::db::model_guard::embedding_mismatch_for_release;
use std::path::PathBuf;

fn no_vars() -> EnvVars {
    EnvVars {
        data_dir: None,
        db_path: None,
        model_cache_dir: None,
        staging_dir: None,
        backup_dir: None,
        migrations_dir: None,
        static_dir: None,
        secret: None,
        embedding_dim: None,
        distance_metric: None,
        port: None,
        onnx_num_threads: None,
        rerank_pool_size: None,
        hf_token: None,
        hf_hub_offline: None,
        worker_poll_interval_ms: None,
        job_lease_seconds: None,
        max_attempts: None,
        superadmin_email: None,
        superadmin_password: None,
        backup_keep_daily: None,
        backup_keep_manual: None,
        model_download_max_concurrent: None,
        model_download_bandwidth_bps: None,
        model_download_write_chunk_bytes: None,
    }
}

#[test]
fn sanitize_model_name_replaces_slashes() {
    assert_eq!(sanitize_model_name("BAAI/bge-m3"), "BAAI__bge-m3");
}

#[test]
fn for_test_config_has_required_paths() {
    let dir = PathBuf::from("/tmp").join("ragdoll-test-config");
    let config = Config::for_test(dir.to_string_lossy().into_owned(), "secret".into());
    assert_eq!(PathBuf::from(&config.db_path), dir.join("db").join("ragdoll.db"));
    assert_eq!(config.embedding_dim, 1024);
    assert_eq!(PathBuf::from(config.model_dir_for("BAAI/bge-m3")), dir.join("models").join("BAAI__bge-m3"));
}

#[test]
fn config_needs_data_dir_and_secret() {
    assert_eq!(config_from_env_vars(&no_vars()).unwrap_err(), "RAGDOLL_DATA_DIR is required");
    let vars = EnvVars { data_dir: Some("/d".into()), ..no_vars() };
    assert_eq!(config_from_env_vars(&vars).unwrap_err(), "RAGDOLL_SECRET is required");
}

#[test]
fn config_defaults_and_overrides() {
    let vars = EnvVars { data_dir: Some("/d".into()), secret: Some("s".into()), ..no_vars() };
    let c = config_from_env_vars(&vars).unwrap();
    assert_eq!(c.db_path, "/d/db/ragdoll.db");
    assert_eq!(c.backup_dir, "/d/backups");
    assert_eq!(c.port, 8080);
    assert_eq!(c.model_download_write_chunk_bytes, 262144);
    assert!(!c.hf_hub_offline);
    let vars = EnvVars {
        data_dir: Some("/d".into()),
        secret: Some("s".into()),
        port: Some("+9000".into()),
        rerank_pool_size: Some("0".into()),
        hf_hub_offline: Some("TRUE".into()),
        model_download_write_chunk_bytes: Some("1".into()),
        model_download_bandwidth_bps: Some("".into()),
        db_path: Some("".into()),
        ..no_vars()
    };
    let c = config_from_env_vars(&vars).unwrap();
    assert_eq!(c.port, 9000);
    assert_eq!(c.rerank_pool_size, 1);
    assert!(c.hf_hub_offline);
    assert_eq!(c.model_download_write_chunk_bytes, 16384);
    assert_eq!(c.model_download_bandwidth_bps, None);
    assert_eq!(c.db_path, "/d/db/ragdoll.db");
    let vars = EnvVars { data_dir: Some("/d".into()), secret: Some("s".into()), port: Some("70000".into()), ..no_vars() };
    assert_eq!(config_from_env_vars(&vars).unwrap_err(), "invalid RAGDOLL_PORT");
}

#[test]
fn no_chunks_means_no_mismatch() {
    assert!(embedding_mismatch_for_release("rel-1", "v1", "BAAI/bge-m3", &vec![], 1024).is_none());
}

#[test]
fn matching_single_model_means_no_mismatch() {
    assert!(embedding_mismatch_for_release("rel-1", "v1", "BAAI/bge-m3", &vec!["BAAI/bge-m3".into()], 1024).is_none());
}

#[test]
fn single_wrong_model_reports_mismatch() {
    let mismatch = embedding_mismatch_for_release(
        "rel-1",
        "v1",
        "mixedbread-ai/mxbai-embed-large-v1",
        &vec!["BAAI/bge-m3".into()],
        1024,
    )
    .expect("mismatch");
    assert_eq!(mismatch.chunks_model.as_deref(), Some("BAAI/bge-m3"));
    assert!(mismatch.message.contains("existing chunks use BAAI/bge-m3"));
    assert_eq!(
        mismatch.message,
        "release rel-1 is configured for mixedbread-ai/mxbai-embed-large-v1 (dim 1024), but existing chunks use BAAI/bge-m3. Re-index all sources before queries are reliable."
    );
}

#[test]
fn multiple_distinct_models_report_mismatch_even_if_one_matches_settings() {
    let mismatch = embedding_mismatch_for_release(
        "rel-1",
        "first-release",
        "mixedbread-ai/mxbai-embed-large-v1",
        &vec!["BAAI/bge-m3".into(), "mixedbread-ai/mxbai-embed-large-v1".into()],
        1024,
    )
    .expect("mismatch");
    assert_eq!(mismatch.chunks_model.as_deref(), Some("BAAI/bge-m3, mixedbread-ai/mxbai-embed-large-v1"));
    assert!(mismatch.message.contains("some chunks still use other embedding models"));
}

#[test]
fn multiple_wrong_models_report_all_models() {
    let mismatch = embedding_mismatch_for_release(
        "rel-1",
        "v1",
        "mixedbread-ai/mxbai-embed-large-v1",
        &vec!["BAAI/bge-m3".into(), "intfloat/multilingual-e5-large".into()],
        1024,
    )
    .expect("mismatch");
    assert_eq!(mismatch.chunks_model.as_deref(), Some("BAAI/bge-m3, intfloat/multilingual-e5-large"));
    assert!(mismatch.message.contains("multiple embedding models"));
}
