use ragdoll::generation::endpoints::{
    azure_endpoint_kind, extract_azure_deployment, normalize_azure_endpoint, normalize_openai_base_url,
    resolve_model_name, AzureEndpointKind,
};
use ragdoll::generation::types::{build_answer, resolve_system_prompt, GenerationOutput};
use ragdoll::generation::vertex::{build_vertex_base_url, parse_vertex_config, validate_service_account_json};

#[test]
fn strips_chat_completions_suffix() {
    let url = normalize_openai_base_url("https://api.groq.com/openai/v1/chat/completions");
    assert_eq!(url, "https://api.groq.com/openai/v1/");
}

#[test]
fn extracts_azure_deployment() {
    let url = "https://x.openai.azure.com/openai/deployments/gpt-5.4-mini/chat/completions?api-version=2025-04-01";
    assert_eq!(extract_azure_deployment(url).as_deref(), Some("gpt-5.4-mini"));
}

#[test]
fn resolve_azure_model_from_deployment_url() {
    let name = resolve_model_name(
        "azure",
        "",
        Some("https://x.openai.azure.com/openai/deployments/my-deploy/chat/completions?api-version=2025-04-01"),
    )
    .unwrap();
    assert_eq!(name, "my-deploy");
}

#[test]
fn preserves_query_string_when_normalizing() {
    let url = normalize_openai_base_url("https://api.example.com/v1/chat/completions?api-version=2025-04-01");
    assert_eq!(url, "https://api.example.com/v1/?api-version=2025-04-01");
}

#[test]
fn azure_endpoint_not_mangled() {
    let raw = "https://x.cognitiveservices.azure.com/openai/responses?api-version=2025-04-01-preview";
    assert_eq!(normalize_azure_endpoint(raw), raw);
}

#[test]
fn normalizing_adds_one_slash_and_drops_empty_query() {
    assert_eq!(normalize_openai_base_url("  https://h/v1/embeddings//?"), "https://h/v1/");
    assert_eq!(normalize_openai_base_url("https://h/v1"), "https://h/v1/");
}

#[test]
fn azure_kinds_and_model_errors() {
    assert_eq!(azure_endpoint_kind("https://x/OpenAI/Responses"), AzureEndpointKind::Responses);
    assert_eq!(azure_endpoint_kind("https://x/openai/DEPLOYMENTS/d/"), AzureEndpointKind::ChatCompletions);
    assert_eq!(azure_endpoint_kind("https://x/"), AzureEndpointKind::Unknown);
    assert_eq!(
        resolve_model_name("azure", " ", Some("https://x/openai/responses")).unwrap_err(),
        "azure Responses API URLs require a model / deployment name"
    );
    assert_eq!(resolve_model_name("openai", " ", None).unwrap_err(), "model_name is required");
    assert_eq!(resolve_model_name("openai", " gpt ", None).unwrap(), "gpt");
    assert_eq!(extract_azure_deployment("https://x/deployments"), None);
}

#[test]
fn build_vertex_base_url_global() {
    let url = build_vertex_base_url("p1", "global");
    assert!(url.contains("locations/global/"));
    assert_eq!(
        build_vertex_base_url("p1", "europe-west1"),
        "https://europe-west1-aiplatform.googleapis.com/v1/projects/p1/locations/europe-west1/"
    );
}

#[test]
fn parse_vertex_config_requires_project_id() {
    assert!(parse_vertex_config(None).is_err());
    assert!(parse_vertex_config(Some(r#"{"location":"europe-west1"}"#)).is_err());
}

#[test]
fn parse_vertex_config_defaults_location_to_global() {
    let cfg = parse_vertex_config(Some(r#"{"project_id":"my-proj"}"#)).unwrap();
    assert_eq!(cfg.project_id, "my-proj");
    assert_eq!(cfg.location, "global");
}

#[test]
fn service_account_keys_need_their_fields() {
    assert_eq!(validate_service_account_json("nope").unwrap_err(), "service account JSON is not valid JSON");
    assert_eq!(
        validate_service_account_json(r#"{"type":""}"#).unwrap_err(),
        "service account JSON missing required field 'type'"
    );
    assert!(validate_service_account_json(r#" {"type":"a","project_id":"b","private_key":"c","client_email":"d"} "#).is_ok());
}

#[test]
fn answers_and_prompts() {
    let out = GenerationOutput {
        text: "hi".into(),
        generation_ms: 1,
        generation_total_ms: 2,
        prompt_tokens: Some(3),
        completion_tokens: None,
    };
    let a = build_answer("m1", "tag", &out);
    assert_eq!(a.text, "hi");
    assert_eq!(a.llm_model_tag, "tag");
    assert_eq!(resolve_system_prompt(Some("  be brief ")).unwrap(), "be brief");
    assert_eq!(resolve_system_prompt(Some("  ")).unwrap_err(), "generation.system_prompt is required");
}
