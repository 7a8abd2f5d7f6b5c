//! Requests and records of the LLM model endpoints, and which model
//! definitions are accepted.
use vstd::prelude::*;

use crate::api::batch::{is_api_error, ApiError};
use crate::generation::endpoints::{chars_eq_ignore_ascii_case, eq_ignore_ascii_case, resolve_model_name, resolved_model_name};
use crate::text::{chars_of, chars_trim, trim};

verus! {

/// A configured LLM model.
#[derive(Clone, Debug)]
pub struct LlmModelRecord {
    pub id: String,
    pub tag: String,
    pub model_name: String,
    pub provider: String,
    pub endpoint: Option<String>,
    pub credential_id: Option<String>,
    pub credential_name: Option<String>,
    pub created_at: String,
    pub updated_at: String,
}

/// A model definition to create or replace.
#[derive(Clone, Debug)]
pub struct UpsertLlmModelRequest {
    pub tag: String,
    pub model_name: String,
    pub provider: String,
    pub endpoint: Option<String>,
    pub credential_id: Option<String>,
}

/// The outcome of a test call to a model.
#[derive(Clone, Debug)]
pub struct TestLlmModelResponse {
    pub ok: bool,
    pub message: String,
    pub latency_ms: Option<i64>,
    pub completion_tokens: Option<u32>,
}

/// Whether a model definition names no usable endpoint.
pub open spec fn blank_endpoint(e: Option<String>) -> bool {
    match e {
        Some(s) => trim(s@).len() == 0,
        None => true,
    }
}

/// Why a model definition is refused, if it is.
pub open spec fn model_body_problem(body: UpsertLlmModelRequest) -> Option<Seq<char>> {
    if trim(body.tag@).len() == 0 || trim(body.provider@).len() == 0 {
        Some("tag and provider are required"@)
    } else if eq_ignore_ascii_case(body.provider@, "openai_compat"@) && blank_endpoint(body.endpoint) {
        Some("openai_compat provider requires an API base URL endpoint"@)
    } else if eq_ignore_ascii_case(body.provider@, "azure"@) && blank_endpoint(body.endpoint) {
        Some("azure provider requires the full deployment URL"@)
    } else {
        match resolved_model_name(
            body.provider@,
            body.model_name@,
            match body.endpoint {
                Some(e) => Some(e@),
                None => None,
            },
        ) {
            Err(d) => Some(d),
            Ok(_) => None,
        }
    }
}

fn is_blank_endpoint(e: &Option<String>) -> (r: bool)
    ensures
        r == blank_endpoint(*e),
{
    match e {
        Some(s) => chars_trim(&chars_of(s.as_str())).len() == 0,
        None => true,
    }
}

/// Checks a model definition.
pub fn validate_model_body(body: &UpsertLlmModelRequest) -> (r: Result<(), ApiError>)
    ensures
        match model_body_problem(*body) {
            Some(d) => r matches Err(e) && is_api_error(e, 400, "Bad Request"@, d),
            None => r is Ok,
        },
{
    if chars_trim(&chars_of(body.tag.as_str())).len() == 0 || chars_trim(&chars_of(body.provider.as_str())).len() == 0 {
        return Err(ApiError::bad_request(String::from_str("tag and provider are required")));
    }
    let provider = chars_of(body.provider.as_str());
    if chars_eq_ignore_ascii_case(&provider, &chars_of("openai_compat")) && is_blank_endpoint(&body.endpoint) {
        return Err(ApiError::bad_request(String::from_str("openai_compat provider requires an API base URL endpoint")));
    }
    if chars_eq_ignore_ascii_case(&provider, &chars_of("azure")) && is_blank_endpoint(&body.endpoint) {
        return Err(ApiError::bad_request(String::from_str("azure provider requires the full deployment URL")));
    }
    let endpoint: Option<&str> = match &body.endpoint {
        Some(e) => Some(e.as_str()),
        None => None,
    };
    match resolve_model_name(body.provider.as_str(), body.model_name.as_str(), endpoint) {
        Ok(_) => Ok(()),
        Err(d) => Err(ApiError::bad_request(d)),
    }
}

} // verus!
