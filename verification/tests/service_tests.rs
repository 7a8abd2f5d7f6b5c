use ragdoll::api::query_stream::{
    check_query_text, check_stream_request, done_event_payload, latency_event_payloads, query_batch_mode,
    token_event_payload, QueryBatchMode, StreamAction, StreamCollector, StreamInput, StreamMachine, StreamPhase,
};
use ragdoll::api::chunks::{staging_file, staging_payload, ChunkInput};
use ragdoll::api::webhooks::{check_url_available, webhook_url};
use ragdoll::generation::types::{attach_generation, GeneratedAnswer, GenerationOutput, QueryLatency, QueryResult};
use ragdoll::api::queries::{plan_listing, ListedTable};
use ragdoll::api::reindex::{batch_summary, reindex_sources_query};
use ragdoll::api::sources::{check_metadata_object, merge_chunk_metadata};
use ragdoll::api::system_metrics::{days_back_modifier, default_days, sample_window, SampleWindow, SystemMetricsParams};
use ragdoll::auth::middleware::{AuthContext, AuthPrincipal};
use ragdoll::auth::permissions::PermissionSet;
use ragdoll::auth::rate_limit::{rate_limit_headers, rate_limit_rejection, rate_limited_key, RateLimitStatus};
use ragdoll::cli::doctor_lines;
use ragdoll::config::Config;
use ragdoll::db::error::DbError;
use ragdoll::db::migrations::{file_stem_of, is_migration_file, migration_files, migration_version, parse_i64};
use ragdoll::db::pool::{after_failed_attempt, RetryStep, MAX_LOCKED_ATTEMPTS};
use ragdoll::filter::dsl::{Condition, FilterExpr, FilterOp, FilterValue};
use ragdoll::filter::sql::compile_filter;
use ragdoll::generation::client_plan::{model_adapter, parse_adapter, plan_client, AdapterKind, ClientPlan};
use ragdoll::generation::mock::{split_whitespace_words, stream_deltas, MockGenerator};
use ragdoll::generation::prompt::{build_prompt, PromptSource};
use ragdoll::generation::stream::{ChatStreamState, ChatStreamStep, StreamStep};
use ragdoll::generation::types::StreamEvent;
use serde_json::Value;

fn json(text: &str) -> Value {
    serde_json::from_str(text).unwrap()
}

fn source(id: &str, name: &str, citation: &str, content: &str) -> PromptSource {
    PromptSource {
        source_id: id.to_string(),
        source_name: name.to_string(),
        citation_id: citation.to_string(),
        content: content.to_string(),
    }
}

#[test]
fn prompt_sets_numbered_sources_before_the_question() {
    let sources = vec![source("s1", "doc.md", "c1", "Alpha"), source("s2", "notes.txt", "c2", "Beta")];
    let (system, user) = build_prompt("Be brief.", "What?", &sources);
    assert_eq!(system, "Be brief.");
    assert_eq!(
        user,
        "Use the following context to answer the question.\n\nContext:\n[source 1] (source_id=s1, source_name=doc.md, citation_id=c1)\nAlpha\n\n---\n\n[source 2] (source_id=s2, source_name=notes.txt, citation_id=c2)\nBeta\n\nQuestion: What?"
    );
}

#[test]
fn prompt_without_sources_is_the_question() {
    let (_, user) = build_prompt("sys", "Just this", &Vec::new());
    assert_eq!(user, "Just this");
}

#[test]
fn mock_answers_with_prefix_and_prompt_start() {
    let mock = MockGenerator::default();
    assert_eq!(mock.stream_delay_ms, 0);
    assert_eq!(mock.answer_text("hello world"), "Mock answer: hello world");
    let long = "a".repeat(200);
    assert_eq!(mock.answer_text(&long), format!("Mock answer: {}", "a".repeat(120)));
    let out = mock.output("hi", 12);
    assert_eq!(out.text, "Mock answer: hi");
    assert_eq!((out.generation_ms, out.generation_total_ms), (12, 12));
    assert_eq!((out.prompt_tokens, out.completion_tokens), (Some(10), Some(20)));
}

#[test]
fn mock_streams_word_by_word() {
    assert_eq!(split_whitespace_words("  a bb\t\nccc "), vec!["a", "bb", "ccc"]);
    assert!(split_whitespace_words(" \t ").is_empty());
    assert_eq!(stream_deltas("Mock answer:  hi\tthere "), vec!["Mock", " answer:", " hi", " there"]);
    let quick = MockGenerator::default();
    assert!(matches!(quick.done_event(7), StreamEvent::Done { generation_ms: 7, generation_total_ms: 7, .. }));
    let slow = MockGenerator { response_prefix: "x".into(), stream_delay_ms: 25 };
    assert!(matches!(
        slow.done_event(90),
        StreamEvent::Done { generation_ms: 25, generation_total_ms: 90, prompt_tokens: Some(10), completion_tokens: Some(20) }
    ));
}

#[test]
fn adapters_by_provider_name() {
    assert_eq!(parse_adapter("OpenAI").unwrap(), AdapterKind::OpenAI);
    assert_eq!(parse_adapter("openai-responses").unwrap(), AdapterKind::OpenAIResp);
    assert_eq!(parse_adapter("azure").unwrap(), AdapterKind::OpenAI);
    assert_eq!(parse_adapter("Together").unwrap(), AdapterKind::Together);
    assert_eq!(parse_adapter("Bogus").unwrap_err(), "unsupported llm provider: bogus");
    assert_eq!(model_adapter(AdapterKind::Groq, "https://h/v1/responses"), AdapterKind::OpenAIResp);
    assert_eq!(model_adapter(AdapterKind::Groq, "https://h/v1/"), AdapterKind::Groq);
}

#[test]
fn azure_clients_need_endpoint_and_key() {
    let url = "https://x.openai.azure.com/openai/deployments/dep1/chat/completions?api-version=1";
    match plan_client("azure", "", Some(url), "key").unwrap() {
        ClientPlan::Azure { adapter, url: u, model_name, api_key } => {
            assert_eq!(adapter, AdapterKind::OpenAI);
            assert_eq!(u, url);
            assert_eq!(model_name, "dep1");
            assert_eq!(api_key, "key");
        }
        other => panic!("unexpected plan {other:?}"),
    }
    let err = plan_client("azure", "gpt", None, "k").unwrap_err();
    assert!(err.starts_with("azure provider requires `endpoint`"));
    let responses = "https://x.openai.azure.com/openai/responses?api-version=1";
    assert_eq!(
        plan_client("Azure", "gpt", Some(responses), "").unwrap_err(),
        "azure provider requires an api key credential"
    );
    assert!(matches!(
        plan_client("azure", "gpt", Some(responses), "k").unwrap(),
        ClientPlan::Azure { adapter: AdapterKind::OpenAIResp, .. }
    ));
}

#[test]
fn standard_and_vertex_clients() {
    assert!(matches!(plan_client("vertex", "gemini-2.0", None, "").unwrap(), ClientPlan::Vertex));
    match plan_client("groq", "llama", Some("https://api.groq.com/openai/v1/chat/completions"), "").unwrap() {
        ClientPlan::Standard { adapter, endpoint, model_name, api_key } => {
            assert_eq!(adapter, AdapterKind::Groq);
            assert_eq!(endpoint.as_deref(), Some("https://api.groq.com/openai/v1/"));
            assert_eq!(model_name, "llama");
            assert!(api_key.is_none());
        }
        other => panic!("unexpected plan {other:?}"),
    }
    match plan_client("openai", "gpt-4o", Some("   "), "sk-1").unwrap() {
        ClientPlan::Standard { endpoint, api_key, .. } => {
            assert_eq!(endpoint.as_deref(), Some("/"));
            assert_eq!(api_key.as_deref(), Some("sk-1"));
        }
        other => panic!("unexpected plan {other:?}"),
    }
    match plan_client("ollama", "llama3", None, "").unwrap() {
        ClientPlan::Standard { endpoint, .. } => assert!(endpoint.is_none()),
        other => panic!("unexpected plan {other:?}"),
    }
    match plan_client("azure", "gpt", Some("  "), "k") {
        Err(e) => assert!(e.starts_with("azure provider requires `endpoint`")),
        Ok(p) => panic!("unexpected plan {p:?}"),
    }
    assert_eq!(plan_client("openai", "", None, "").unwrap_err(), "model_name is required");
}

#[test]
fn migrations_run_in_name_order() {
    let names: Vec<String> = ["0002_b.sql", "README.md", "0001_a.sql", ".sql", "0003_c.SQL", "x.tar.sql"]
        .iter()
        .map(|s| s.to_string())
        .collect();
    assert_eq!(migration_files(&names), vec!["0001_a.sql", "0002_b.sql", "x.tar.sql"]);
    assert!(!is_migration_file(".."));
    assert_eq!(file_stem_of("0001_init.sql"), "0001_init");
    assert_eq!(file_stem_of(".sql"), ".sql");
    assert_eq!(file_stem_of("a.b.sql"), "a.b");
}

#[test]
fn migration_versions_read_as_integers() {
    assert_eq!(migration_version("0001_init").unwrap(), 1);
    assert_eq!(migration_version("-5_neg").unwrap(), -5);
    assert_eq!(migration_version("+7").unwrap(), 7);
    match migration_version("abc_x") {
        Err(DbError::Migration(m)) => assert_eq!(m, "invalid migration version: abc_x"),
        other => panic!("unexpected {other:?}"),
    }
    assert_eq!(parse_i64("9223372036854775807"), Some(i64::MAX));
    assert_eq!(parse_i64("9223372036854775808"), None);
    assert_eq!(parse_i64("-9223372036854775808"), Some(i64::MIN));
    assert_eq!(parse_i64("-+1"), None);
    assert_eq!(parse_i64("-"), None);
    assert_eq!(parse_i64(""), None);
}

#[test]
fn db_errors_and_lock_retries() {
    let locked = DbError::Libsql("database is locked".into());
    assert_eq!(locked.message(), "SQLite failure: `database is locked`");
    assert!(locked.is_locked() && locked.is_transient());
    let misuse = DbError::Libsql("bad parameter or other API misuse".into());
    assert!(!misuse.is_locked() && misuse.is_transient());
    let other = DbError::Migration("x".into());
    assert_eq!(other.message(), "migration error: x");
    assert!(!other.is_locked() && !other.is_transient());
    assert_eq!(DbError::NotFound("q".into()).message(), "not found: q");
    assert_eq!(after_failed_attempt(0, &locked), RetryStep::Retry { delay_ms: 50 });
    assert_eq!(after_failed_attempt(6, &locked), RetryStep::Retry { delay_ms: 350 });
    assert_eq!(after_failed_attempt(MAX_LOCKED_ATTEMPTS - 1, &locked), RetryStep::Fail);
    assert_eq!(after_failed_attempt(0, &other), RetryStep::Fail);
}

#[test]
fn listings_page_the_release_rows() {
    let plan = plan_listing(ListedTable::Chunks, "r1", None, None, None).ok().unwrap();
    assert_eq!(
        plan.sql,
        "SELECT id, source_id, ordinal, content, metadata, provenance, token_count, created_at\n         FROM chunks c WHERE c.release_id = 'r1'\n         ORDER BY created_at DESC LIMIT ?1 OFFSET ?2"
    );
    assert_eq!(plan.params, vec!["50", "0"]);

    let filter = FilterExpr::Condition(Condition {
        field: "source_id".into(),
        op: FilterOp::Eq,
        value: FilterValue::String("s1".into()),
    });
    let compiled = compile_filter(&filter, "s").ok().unwrap();
    let plan = plan_listing(ListedTable::Sources, "r1", Some(&filter), Some(900), Some(10)).ok().unwrap();
    assert!(plan.sql.contains(&format!("FROM sources s WHERE s.release_id = 'r1' AND {}\n", compiled.sql)));
    assert!(plan.sql.ends_with("ORDER BY s.created_at DESC LIMIT ?2 OFFSET ?3"));
    assert_eq!(plan.params, vec!["s1", "500", "10"]);

    let plan = plan_listing(ListedTable::Queries, "r9", None, Some(5), None).ok().unwrap();
    assert!(plan.sql.starts_with("SELECT id, text, filters, params, playground,"));
    assert!(plan.sql.ends_with("FROM queries q\n         WHERE q.release_id = 'r9'\n         ORDER BY created_at DESC\n         LIMIT ?1 OFFSET ?2"));
    assert_eq!(plan.params, vec!["5", "0"]);
}

#[test]
fn streamed_queries_need_text_and_a_stream() {
    let detail = |r: Result<(), ragdoll::api::batch::ApiError>| {
        let e = r.unwrap_err();
        assert_eq!(e.status, 400);
        e.problem.detail
    };
    assert_eq!(detail(check_stream_request("  ", Some(true))), "query text required");
    assert_eq!(detail(check_stream_request("q", None)), "generation object required for streaming");
    assert_eq!(detail(check_stream_request("q", Some(false))), "generation.stream must be true");
    assert!(check_stream_request("q", Some(true)).is_ok());
}

#[test]
fn latency_events_list_each_segment_then_the_sum() {
    let l = QueryLatency {
        upstream_ms: None,
        embed_ms: 5,
        search_ms: 7,
        rerank_ms: Some(3),
        store_ms: 1,
        generation_ms: None,
        generation_total_ms: None,
        total_ragdoll_ms: 20,
    };
    let payloads = latency_event_payloads(&l).unwrap();
    assert_eq!(payloads.len(), 6);
    assert_eq!(json(&payloads[0]), json(r#"{"segment":"upstream_ms","ms":0,"final":false}"#));
    assert_eq!(json(&payloads[3]), json(r#"{"segment":"rerank_ms","ms":3,"final":false}"#));
    assert_eq!(
        json(&payloads[5]),
        json(r#"{"final":false,"upstream_ms":null,"embed_ms":5,"search_ms":7,"rerank_ms":3,"store_ms":1,"total_ragdoll_ms":20}"#)
    );
    let no_rerank = QueryLatency { rerank_ms: None, upstream_ms: Some(2), ..l };
    let payloads = latency_event_payloads(&no_rerank).unwrap();
    assert_eq!(payloads.len(), 5);
    assert_eq!(json(&payloads[0]), json(r#"{"segment":"upstream_ms","ms":2,"final":false}"#));
}

#[test]
fn stream_collects_tokens_and_final_metrics() {
    let mut c = StreamCollector::new();
    assert_eq!(c.on_event(StreamEvent::Token { delta: "a".into() }).as_deref(), Some("a"));
    assert_eq!(c.on_event(StreamEvent::Token { delta: " b".into() }).as_deref(), Some(" b"));
    let done = StreamEvent::Done {
        generation_ms: 1,
        generation_total_ms: 2,
        prompt_tokens: Some(3),
        completion_tokens: None,
    };
    assert!(c.on_event(done).is_none());
    assert_eq!(c.answer, "a b");
    assert_eq!(c.done, Some((1, 2, Some(3), None)));
    assert_eq!(json(&token_event_payload("hi \"x\"").unwrap()), json(r#"{"delta":"hi \"x\""}"#));
}

#[test]
fn done_event_sums_search_and_generation_time() {
    let l = QueryLatency {
        upstream_ms: Some(1),
        embed_ms: 5,
        search_ms: 7,
        rerank_ms: None,
        store_ms: 1,
        generation_ms: None,
        generation_total_ms: None,
        total_ragdoll_ms: 20,
    };
    let payload = done_event_payload("q1", "answer", &l, (4, 9, Some(10), Some(20)), "m1", "tag1").unwrap();
    let expected = r#"{"query_id":"q1","text":"answer","final":true,
        "latency":{"upstream_ms":1,"embed_ms":5,"search_ms":7,"rerank_ms":null,"store_ms":1,
                   "generation_ms":4,"generation_total_ms":9,"total_ragdoll_ms":29},
        "usage":{"prompt_tokens":10,"completion_tokens":20},
        "llm_model_id":"m1","llm_model_tag":"tag1"}"#;
    assert_eq!(json(&payload), json(expected));
}

#[test]
fn chunk_metadata_keeps_derived_keys() {
    let merged = merge_chunk_metadata(r#"{"dept":"hr"}"#, r#"{"section_path":["A","B"],"other":1}"#).unwrap();
    assert_eq!(json(&merged), json(r#"{"dept":"hr","section_path":["A","B"]}"#));
    let merged = merge_chunk_metadata(r#"{"dept":"hr"}"#, r#"{"unit_kinds":"x","section_path":null}"#).unwrap();
    assert_eq!(json(&merged), json(r#"{"dept":"hr","section_path":null,"unit_kinds":"x"}"#));
    assert_eq!(merge_chunk_metadata(r#"{"dept": "hr"}"#, "not json").unwrap(), r#"{"dept": "hr"}"#);
    assert!(check_metadata_object("{}").is_ok());
    assert_eq!(check_metadata_object("[1]").unwrap_err().problem.detail, "metadata must be a JSON object");
}

fn api_key_ctx(rpm: Option<u32>, rph: Option<u32>) -> AuthContext {
    AuthContext {
        principal: AuthPrincipal::ApiKey { key_id: "k1".into(), name: "prod".into() },
        permissions: PermissionSet::new(),
        rpm,
        rph,
    }
}

#[test]
fn only_limited_api_keys_are_counted() {
    assert_eq!(rate_limited_key(&api_key_ctx(Some(5), None)).as_deref(), Some("k1"));
    assert_eq!(rate_limited_key(&api_key_ctx(None, Some(100))).as_deref(), Some("k1"));
    assert!(rate_limited_key(&api_key_ctx(None, None)).is_none());
    let session = AuthContext {
        principal: AuthPrincipal::Session { user_id: "u".into(), email: "e".into(), is_superadmin: true },
        permissions: PermissionSet::new(),
        rpm: Some(1),
        rph: None,
    };
    assert!(rate_limited_key(&session).is_none());
}

#[test]
fn rate_limit_headers_and_rejection() {
    let status = RateLimitStatus { limited: false, limit: Some(5), remaining: Some(2), reset: Some(30), retry_after: None };
    let headers: Vec<(String, String)> =
        rate_limit_headers(&status, 1000).into_iter().map(|(k, v)| (k.to_string(), v)).collect();
    assert_eq!(
        headers,
        vec![
            ("X-RateLimit-Limit".to_string(), "5".to_string()),
            ("X-RateLimit-Remaining".to_string(), "2".to_string()),
            ("X-RateLimit-Reset".to_string(), "1030".to_string()),
        ]
    );
    let (wait, body) = rate_limit_rejection(&status);
    assert_eq!(wait, 1);
    assert_eq!(json(&body.unwrap()), json(r#"{"error":"rate limit exceeded","retry_after":1}"#));
    let limited = RateLimitStatus { limited: true, limit: Some(5), remaining: Some(0), reset: Some(12), retry_after: Some(12) };
    assert_eq!(rate_limit_rejection(&limited).0, 12);
    let empty = RateLimitStatus { limited: false, limit: None, remaining: None, reset: None, retry_after: None };
    assert!(rate_limit_headers(&empty, 5).is_empty());
}

#[test]
fn doctor_reports_paths_and_dimension() {
    let config = Config::for_test("/tmp/rd".to_string(), "s".to_string());
    assert_eq!(
        doctor_lines(&config),
        vec![
            "RAGDOLL_DATA_DIR=/tmp/rd",
            "RAGDOLL_DB_PATH=/tmp/rd/db/ragdoll.db",
            "RAGDOLL_MODEL_CACHE_DIR=/tmp/rd/models",
            "RAGDOLL_STAGING_DIR=/tmp/rd/staging",
            "RAGDOLL_EMBEDDING_DIM=1024",
        ]
    );
    assert_eq!(
        config.directories(),
        vec!["/tmp/rd", "/tmp/rd/db", "/tmp/rd/models", "/tmp/rd/staging", "/tmp/rd/backups"]
    );
}

#[test]
fn query_batches_run_by_what_they_ask() {
    assert_eq!(query_batch_mode(&vec![None, None], 10).unwrap(), QueryBatchMode::Searching);
    assert_eq!(query_batch_mode(&vec![None, Some(false)], 10).unwrap(), QueryBatchMode::Generating);
    assert_eq!(query_batch_mode(&vec![Some(true)], 10).unwrap(), QueryBatchMode::Streaming);
    assert_eq!(
        query_batch_mode(&vec![Some(true), None], 10).unwrap_err().problem.detail,
        "streaming generation requires exactly one query item"
    );
    assert_eq!(query_batch_mode(&vec![None; 3], 2).unwrap_err().problem.detail, "batch too large");
    assert_eq!(query_batch_mode(&Vec::new(), 0).unwrap(), QueryBatchMode::Searching);
    assert_eq!(check_query_text(" \t").unwrap_err(), "query text required");
    assert!(check_query_text(" q ").is_ok());
}

#[test]
fn generation_joins_the_query_result() {
    let latency = QueryLatency {
        upstream_ms: Some(1),
        embed_ms: 2,
        search_ms: 3,
        rerank_ms: None,
        store_ms: 4,
        generation_ms: None,
        generation_total_ms: None,
        total_ragdoll_ms: 10,
    };
    let result = QueryResult { query_id: "q1".into(), latency, usage: None, answer: None };
    let output = GenerationOutput {
        text: "hello".into(),
        generation_ms: 5,
        generation_total_ms: 8,
        prompt_tokens: Some(11),
        completion_tokens: None,
    };
    let answer = GeneratedAnswer { text: "hello".into(), llm_model_id: "m".into(), llm_model_tag: "t".into() };
    let r = attach_generation(result, answer, &output);
    assert_eq!(r.query_id, "q1");
    assert_eq!(r.latency.generation_ms, Some(5));
    assert_eq!(r.latency.generation_total_ms, Some(8));
    assert_eq!(r.latency.total_ragdoll_ms, 18);
    assert_eq!(r.latency.embed_ms, 2);
    let usage = r.usage.unwrap();
    assert_eq!((usage.prompt_tokens, usage.completion_tokens), (Some(11), None));
    assert_eq!(r.answer.unwrap().llm_model_tag, "t");
}

#[test]
fn webhook_urls_are_trimmed_and_unique() {
    assert_eq!(webhook_url("  https://h/x  ").unwrap(), "https://h/x");
    assert_eq!(webhook_url("   ").unwrap_err().problem.detail, "url is required");
    assert!(check_url_available(None, None).is_ok());
    assert!(check_url_available(Some("w1"), Some("w1")).is_ok());
    assert_eq!(
        check_url_available(Some("w1"), Some("w2")).unwrap_err().problem.detail,
        "webhook url already exists for this release"
    );
    assert!(check_url_available(Some("w1"), None).is_err());
}

#[test]
fn reindex_covers_the_filtered_sources_oldest_first() {
    let plan = reindex_sources_query("r1", None).ok().unwrap();
    assert_eq!(plan.sql, "SELECT s.id FROM sources s WHERE s.release_id = 'r1' ORDER BY s.created_at ASC");
    assert!(plan.params.is_empty());
    let filter = FilterExpr::Condition(Condition {
        field: "status".into(),
        op: FilterOp::Eq,
        value: FilterValue::String("failed".into()),
    });
    let compiled = compile_filter(&filter, "s").ok().unwrap();
    let plan = reindex_sources_query("r1", Some(&filter)).ok().unwrap();
    assert_eq!(
        plan.sql,
        format!("SELECT s.id FROM sources s WHERE s.release_id = 'r1' AND {} ORDER BY s.created_at ASC", compiled.sql)
    );
    assert_eq!(plan.params, compiled.params);
}

#[test]
fn batch_progress_sums_the_job_counts() {
    let rows = vec![
        ("pending".to_string(), 2i64),
        ("completed".to_string(), 5i64),
        ("failed".to_string(), 1i64),
        ("weird".to_string(), 9i64),
        ("processing".to_string(), -3i64),
    ];
    let s = batch_summary("b1", &rows);
    assert_eq!(s.batch_id, "b1");
    assert_eq!((s.pending, s.processing, s.completed, s.failed), (2, 0, 5, 1));
    assert_eq!((s.total, s.active), (8, 2));
}

#[test]
fn system_metrics_window() {
    assert_eq!(default_days(), 14);
    let last = |days: u32| SystemMetricsParams { days, start: None, end: None };
    assert!(matches!(sample_window(&last(0)), SampleWindow::LastDays(1)));
    assert!(matches!(sample_window(&last(30)), SampleWindow::LastDays(30)));
    assert!(matches!(sample_window(&last(9999)), SampleWindow::LastDays(365)));
    let ranged = SystemMetricsParams { days: 3, start: Some("2026-01-01".into()), end: None };
    match sample_window(&ranged) {
        SampleWindow::Range { start, end } => {
            assert_eq!(start, "2026-01-01");
            assert_eq!(end, "9999-12-31");
        }
        other => panic!("unexpected {other:?}"),
    }
    let upto = SystemMetricsParams { days: 3, start: None, end: Some("2026-02-01".into()) };
    assert!(matches!(sample_window(&upto), SampleWindow::Range { start, .. } if start == "1970-01-01"));
    assert_eq!(days_back_modifier(14), "-14 days");
}

#[test]
fn chat_streams_pass_tokens_and_close_once() {
    let mut st = ChatStreamState::new();
    assert!(matches!(st.on_event(ChatStreamStep::Start, 1), StreamStep::Skip));
    assert!(matches!(st.on_event(ChatStreamStep::ReasoningChunk, 2), StreamStep::Skip));
    match st.on_event(ChatStreamStep::Chunk("Hel".into()), 40) {
        StreamStep::Emit(StreamEvent::Token { delta }) => assert_eq!(delta, "Hel"),
        other => panic!("unexpected {other:?}"),
    }
    assert!(matches!(st.on_event(ChatStreamStep::Chunk("lo".into()), 55), StreamStep::Emit(StreamEvent::Token { .. })));
    assert_eq!(st.first_token_ms, Some(40));
    let end = ChatStreamStep::End { prompt_tokens: Some(12), completion_tokens: Some(3) };
    assert!(matches!(
        st.on_event(end, 90),
        StreamStep::Emit(StreamEvent::Done { generation_ms: 40, generation_total_ms: 90, prompt_tokens: Some(12), completion_tokens: Some(3) })
    ));
    assert!(matches!(st.on_event(ChatStreamStep::Chunk("x".into()), 95), StreamStep::Finished));
    assert!(matches!(st.on_exhausted(99), StreamStep::Finished));
}

#[test]
fn chat_stream_without_tokens_closes_at_the_end() {
    let mut st = ChatStreamState::new();
    assert!(matches!(
        st.on_exhausted(70),
        StreamStep::Emit(StreamEvent::Done { generation_ms: 70, generation_total_ms: 70, prompt_tokens: None, completion_tokens: None })
    ));
    assert!(st.finished);
}

fn done_event() -> StreamEvent {
    StreamEvent::Done { generation_ms: 4, generation_total_ms: 9, prompt_tokens: Some(1), completion_tokens: Some(2) }
}

#[test]
fn streamed_answer_goes_out_in_order() {
    let (mut m, first) = StreamMachine::begin(2);
    assert!(matches!(first, StreamAction::SendSources));
    assert!(matches!(m.step(StreamInput::Sent), StreamAction::SendLatency(0)));
    assert!(matches!(m.step(StreamInput::Sent), StreamAction::SendLatency(1)));
    assert!(matches!(m.step(StreamInput::Sent), StreamAction::StartGeneration));
    assert!(matches!(m.step(StreamInput::GenerationStarted), StreamAction::NextItem));
    match m.step(StreamInput::Item(StreamEvent::Token { delta: "Hel".into() })) {
        StreamAction::SendToken(d) => assert_eq!(d, "Hel"),
        other => panic!("unexpected {other:?}"),
    }
    assert!(matches!(m.step(StreamInput::Sent), StreamAction::NextItem));
    assert!(matches!(m.step(StreamInput::Item(StreamEvent::Token { delta: "lo".into() })), StreamAction::SendToken(_)));
    assert!(matches!(m.step(StreamInput::Sent), StreamAction::NextItem));
    assert!(matches!(m.step(StreamInput::Item(done_event())), StreamAction::NextItem));
    match m.step(StreamInput::Ended) {
        StreamAction::SendDone { answer, done } => {
            assert_eq!(answer, "Hello");
            assert_eq!(done, (4, 9, Some(1), Some(2)));
        }
        other => panic!("unexpected {other:?}"),
    }
    assert_eq!(m.phase, StreamPhase::Finished);
    assert!(matches!(m.step(StreamInput::Sent), StreamAction::Stop));
}

#[test]
fn streamed_answer_stops_at_failures() {
    let (mut m, _) = StreamMachine::begin(0);
    assert!(matches!(m.step(StreamInput::Sent), StreamAction::StartGeneration));
    match m.step(StreamInput::GenerationFailed("no model".into())) {
        StreamAction::SendError(e) => assert_eq!(e, "no model"),
        other => panic!("unexpected {other:?}"),
    }
    assert!(matches!(m.step(StreamInput::Sent), StreamAction::Stop));

    let (mut m, _) = StreamMachine::begin(1);
    assert!(matches!(m.step(StreamInput::SendFailed), StreamAction::Stop));
    assert_eq!(m.phase, StreamPhase::Finished);

    let (mut m, _) = StreamMachine::begin(0);
    m.step(StreamInput::Sent);
    m.step(StreamInput::GenerationStarted);
    assert!(matches!(m.step(StreamInput::Item(StreamEvent::Token { delta: "x".into() })), StreamAction::SendToken(_)));
    assert!(matches!(m.step(StreamInput::SendFailed), StreamAction::Stop));

    let (mut m, _) = StreamMachine::begin(0);
    m.step(StreamInput::Sent);
    m.step(StreamInput::GenerationStarted);
    assert!(matches!(m.step(StreamInput::ItemFailed("timeout".into())), StreamAction::SendError(_)));

    let (mut m, _) = StreamMachine::begin(0);
    m.step(StreamInput::Sent);
    m.step(StreamInput::GenerationStarted);
    assert!(matches!(m.step(StreamInput::Item(StreamEvent::Token { delta: "x".into() })), StreamAction::SendToken(_)));
    m.step(StreamInput::Sent);
    assert!(matches!(m.step(StreamInput::Ended), StreamAction::Stop));
}

#[test]
fn chunk_staging_payload_names_the_chunk() {
    assert_eq!(staging_file("c-1"), "chunk-c-1.json");
    let item = ChunkInput {
        source_id: "s\"1".to_string(),
        content: "hello".to_string(),
        metadata: r#"{"lang":"en"}"#.to_string(),
        provenance: "null".to_string(),
    };
    let payload = staging_payload("c-1", &item).unwrap();
    assert_eq!(
        json(&payload),
        json(r#"{"chunk_id":"c-1","content":"hello","metadata":{"lang":"en"},"provenance":null,"source_id":"s\"1"}"#)
    );
    let bad = ChunkInput { metadata: "{oops".to_string(), ..item };
    assert!(staging_payload("c-1", &bad).is_none());
}
