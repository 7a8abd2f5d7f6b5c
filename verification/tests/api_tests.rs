use ragdoll::api::analytics::{build_query_filter, parse_status_groups, status_group_sql, AnalyticsParams};
use ragdoll::api::batch::{BatchItemResult, BatchResponse};
use ragdoll::api::db_viewer::{
    compile_column_filter, facet_of, is_release_scoped, plan_table_query, skip_facet_column, table_alias,
    table_columns, ColumnFilter, DbViewParams,
};
use ragdoll::api::llm_credentials::extract_credential_secret;
use ragdoll::api::llm_models::{validate_model_body, UpsertLlmModelRequest};
use ragdoll::api::releases::{remap_source_id, validate_tag};
use ragdoll::api::sources::{file_extension_from_name, hash_text, validate_file_extension};
use ragdoll::api::stages::validate_stage_tag;
use ragdoll::filter::dsl::FilterValue;

#[test]
fn parse_status_groups_defaults_to_all() {
    assert_eq!(parse_status_groups(None), vec!["2xx", "4xx", "5xx"]);
}

#[test]
fn parse_status_groups_filters_unknown_values() {
    assert_eq!(parse_status_groups(Some("2xx,garbage")), vec!["2xx"]);
}

#[test]
fn parse_status_groups_trims_and_drops_repeats() {
    assert_eq!(parse_status_groups(Some(" 5xx, 2xx ,5xx")), vec!["5xx", "2xx"]);
    assert_eq!(parse_status_groups(Some("")), vec!["2xx", "4xx", "5xx"]);
}

#[test]
fn status_group_sql_builds_or_expression() {
    let sql = status_group_sql(&["2xx", "4xx"], "q.response_status");
    assert!(sql.contains("q.response_status >= 200"));
    assert!(sql.contains("OR"));
}

#[test]
fn status_group_sql_exact_text() {
    assert_eq!(
        status_group_sql(&["2xx", "5xx"], "c"),
        "((c >= 200 AND c < 300) OR (c >= 500))"
    );
    assert_eq!(status_group_sql(&[], "c"), "1=1");
}

#[test]
fn analytics_filter_uses_days_or_range() {
    let params = AnalyticsParams {
        lens: "release".into(),
        tag: "v1".into(),
        days: 0,
        start: None,
        end: None,
        status: Some("4xx".into()),
    };
    let f = build_query_filter("q.release_id", "r1".into(), &params);
    assert_eq!(
        f.sql,
        "q.release_id = ?1 AND COALESCE(q.playground,0)=0 AND q.created_at >= datetime('now', ?2) AND ((q.response_status >= 400 AND q.response_status < 500))"
    );
    assert_eq!(f.bind, vec!["r1".to_string(), "-1 days".to_string()]);
    let params = AnalyticsParams { start: Some("2024-01-01".into()), status: None, ..params };
    let f = build_query_filter("q.stage_id", "s1".into(), &params);
    assert!(f.sql.contains("q.created_at >= ?2 AND q.created_at < date(?3, '+1 day')"));
    assert_eq!(f.bind, vec!["s1".to_string(), "2024-01-01".to_string(), "9999-12-31".to_string()]);
}

#[test]
fn table_columns_rejects_unknown_table() {
    assert!(table_columns("injected;drop").is_none());
}

#[test]
fn table_columns_puts_ids_at_end_for_sources() {
    let cols = table_columns("sources").unwrap();
    assert_eq!(cols.last(), Some(&"updated_at".to_string()));
    assert!(cols.iter().position(|c| c == "name").unwrap() < cols.iter().position(|c| c == "id").unwrap());
}

#[test]
fn table_columns_includes_webhook_tables_without_secret() {
    let webhooks = table_columns("webhooks").unwrap();
    assert!(webhooks.contains(&"events".to_string()));
    assert!(!webhooks.contains(&"secret".to_string()));

    let deliveries = table_columns("webhook_deliveries").unwrap();
    assert!(deliveries.contains(&"event".to_string()));
    assert!(deliveries.contains(&"payload".to_string()));
}

#[test]
fn is_release_scoped_marks_expected_tables() {
    assert!(is_release_scoped("sources"));
    assert!(is_release_scoped("webhooks"));
    assert!(!is_release_scoped("webhook_deliveries"));
    assert!(!is_release_scoped("releases"));
}

#[test]
fn skip_facet_column_skips_high_cardinality() {
    assert!(skip_facet_column("content"));
    assert!(skip_facet_column("source_id"));
    assert!(!skip_facet_column("status"));
}

#[test]
fn table_alias_defaults_to_t() {
    assert_eq!(table_alias("query_chunks"), "qc");
    assert_eq!(table_alias("users"), "t");
}

#[test]
fn column_filter_compiles_each_operator() {
    let cols = table_columns("sources").unwrap();
    let f = ColumnFilter { column: "status".into(), op: "contains".into(), value: FilterValue::String("ok".into()) };
    let (sql, params) = compile_column_filter(&cols, "s", &f).ok().unwrap();
    assert_eq!(sql, "s.status LIKE ?");
    assert_eq!(params, vec!["%ok%".to_string()]);
    let f = ColumnFilter {
        column: "name".into(),
        op: "in".into(),
        value: FilterValue::Array {
            items: vec![FilterValue::Bool(true), FilterValue::Number("3".into())],
            json: "[true,3]".into(),
        },
    };
    let (sql, params) = compile_column_filter(&cols, "s", &f).ok().unwrap();
    assert_eq!(sql, "s.name IN (?, ?)");
    assert_eq!(params, vec!["1".to_string(), "3".to_string()]);
    let f = ColumnFilter { column: "nope".into(), op: "eq".into(), value: FilterValue::Null };
    let err = compile_column_filter(&cols, "s", &f).err().unwrap();
    assert_eq!(err.status, 400);
    assert_eq!(err.problem.detail, "unknown column: nope");
    let f = ColumnFilter { column: "name".into(), op: "like".into(), value: FilterValue::Null };
    assert_eq!(compile_column_filter(&cols, "s", &f).err().unwrap().problem.detail, "unsupported op: like");
    let f = ColumnFilter { column: "name".into(), op: "in".into(), value: FilterValue::Null };
    assert_eq!(compile_column_filter(&cols, "s", &f).err().unwrap().problem.detail, "in requires array value");
}

#[test]
fn plan_table_query_builds_sql() {
    let params = DbViewParams { filter: None, sort: Some("name".into()), dir: Some("desc".into()), limit: Some(900), offset: None };
    let filters = vec![ColumnFilter { column: "status".into(), op: "eq".into(), value: FilterValue::String("ready".into()) }];
    let q = plan_table_query("settings", "r1", &params, &vec![]).ok().unwrap();
    assert_eq!(q.alias, "st");
    assert_eq!(
        q.sql,
        "SELECT st.key, st.value, st.release_id FROM settings st WHERE st.release_id = ?1 ORDER BY st.rowid LIMIT ?2 OFFSET ?3"
    );
    assert_eq!(q.bind, vec!["r1".to_string(), "500".to_string(), "0".to_string()]);
    let q = plan_table_query("sources", "r1", &params, &filters).ok().unwrap();
    assert_eq!(q.where_clause, "s.release_id = ?1 AND s.status = ?");
    assert!(q.sql.ends_with("ORDER BY s.name DESC LIMIT ?3 OFFSET ?4"));
    assert_eq!(plan_table_query("api_keys", "r1", &params, &vec![]).err().unwrap().status, 403);
    assert_eq!(plan_table_query("nope", "r1", &params, &vec![]).err().unwrap().status, 400);
}

#[test]
fn facets_are_cut_off_past_the_limit() {
    let few = facet_of(vec![FilterValue::Null]);
    assert!(!few.truncated);
    assert_eq!(few.values.map(|v| v.len()), Some(1));
    let many = facet_of((0..51).map(|_| FilterValue::Null).collect());
    assert!(many.truncated);
    assert!(many.values.is_none());
}

#[test]
fn file_extension_from_name_accepts_supported_types() {
    assert_eq!(file_extension_from_name("notes.md").unwrap(), ".md");
    assert_eq!(file_extension_from_name("DATA.PDF").unwrap(), ".pdf");
}

#[test]
fn file_extension_from_name_rejects_unknown_types() {
    assert!(file_extension_from_name("archive.zip").is_err());
    assert_eq!(
        validate_file_extension("archive.zip").unwrap_err(),
        "unsupported file type; supported extensions: .txt, .md, .csv, .json, .pdf, .docx, .xlsx, .xlsm, .pptx"
    );
}

#[test]
fn hash_text_is_deterministic() {
    let a = hash_text("hello");
    let b = hash_text("hello");
    assert_eq!(a, b);
    assert_ne!(a, hash_text("world"));
    assert_eq!(a, "2cf24dba5fb0a30e26e83b2ac5b9e29e1b161e5c1fa7425e73043362938b9824");
}

#[test]
fn release_and_stage_tags() {
    assert!(validate_tag("v1_2-rc").is_ok());
    assert_eq!(validate_tag("").unwrap_err().problem.detail, "invalid release tag");
    assert_eq!(validate_tag("a b").unwrap_err().problem.detail, "invalid release tag characters");
    assert!(validate_tag(&"x".repeat(51)).is_err());
    assert!(validate_stage_tag("prod").is_ok());
    assert!(validate_stage_tag("Prod").is_err());
    assert!(validate_stage_tag("abcdefghijklm").is_err());
}

#[test]
fn credential_secrets_by_provider() {
    assert_eq!(extract_credential_secret(" OpenAI ", Some("  sk-1 "), None).ok().unwrap(), "sk-1");
    assert_eq!(extract_credential_secret("openai", None, None).err().unwrap().problem.detail, "api_key is required");
    let sa = r#"{"type":"service_account","project_id":"p","private_key":"k","client_email":"e@x"}"#;
    assert_eq!(extract_credential_secret("vertex", None, Some(sa)).ok().unwrap(), sa);
    assert_eq!(
        extract_credential_secret("vertex", None, Some(r#"{"type":"x"}"#)).err().unwrap().problem.detail,
        "service account JSON missing required field 'project_id'"
    );
}

#[test]
fn model_bodies_are_checked() {
    let body = UpsertLlmModelRequest {
        tag: "t".into(),
        model_name: "".into(),
        provider: "Azure".into(),
        endpoint: None,
        credential_id: None,
    };
    assert_eq!(validate_model_body(&body).err().unwrap().problem.detail, "azure provider requires the full deployment URL");
    let body = UpsertLlmModelRequest { provider: "openai".into(), ..body };
    assert_eq!(validate_model_body(&body).err().unwrap().problem.detail, "model_name is required");
    let body = UpsertLlmModelRequest { model_name: "gpt".into(), ..body };
    assert!(validate_model_body(&body).is_ok());
}

#[test]
fn batch_status_summarises_items() {
    let ok: BatchResponse<u8> = BatchResponse { items: vec![BatchItemResult::ok(0, 1)] };
    assert_eq!(ok.http_status(), 200);
    let failed: BatchResponse<u8> = BatchResponse { items: vec![BatchItemResult::err(0, 404, "missing".into())] };
    assert_eq!(failed.http_status(), 400);
    let mixed: BatchResponse<u8> = BatchResponse { items: vec![BatchItemResult::ok(0, 1), BatchItemResult::err(1, 500, "x".into())] };
    assert_eq!(mixed.http_status(), 207);
    let e = BatchItemResult::<u8>::err(3, 404, "missing".into());
    let p = e.error.unwrap();
    assert_eq!(p.title, "Not Found");
    assert_eq!(p.status, 404);
    assert_eq!(BatchItemResult::<u8>::err(3, 599, "x".into()).error.unwrap().title, "Error");
}

#[test]
fn forked_chunks_follow_their_sources() {
    let pairs = vec![
        ("s1".to_string(), "n1".to_string()),
        ("s2".to_string(), "n2".to_string()),
        ("s1".to_string(), "n3".to_string()),
    ];
    assert_eq!(remap_source_id(&pairs, "s2").unwrap(), "n2");
    assert_eq!(remap_source_id(&pairs, "s1").unwrap(), "n3");
    let err = remap_source_id(&pairs, "s9").unwrap_err();
    assert_eq!(err.status, 500);
    assert_eq!(err.problem.detail, "missing source mapping");
}
