//! Requests and records of the LLM credential endpoints, and which secret
//! a credential stores.
use vstd::prelude::*;

use crate::api::batch::{is_api_error, ApiError};
use crate::generation::endpoints::{to_lowercase, unicode_lowercase};
use crate::generation::vertex::{service_account_problem, validate_service_account_json};
use crate::text::{chars_of, chars_trim, str_eq, string_from_chars, trim};

verus! {

/// A stored credential, without its secret.
#[derive(Clone, Debug)]
pub struct LlmCredentialRecord {
    pub id: String,
    pub name: String,
    pub provider: String,
    pub created_at: String,
    pub updated_at: String,
}

#[derive(Clone, Debug)]
pub struct CreateLlmCredentialRequest {
    pub name: String,
    pub provider: String,
    pub api_key: Option<String>,
    pub service_account_json: Option<String>,
}

#[derive(Clone, Debug)]
pub struct UpdateLlmCredentialRequest {
    pub api_key: Option<String>,
    pub service_account_json: Option<String>,
}

/// A given, non-blank text, trimmed.
pub open spec fn given(o: Option<Seq<char>>) -> Option<Seq<char>> {
    match o {
        Some(s) => if trim(s).len() > 0 { Some(trim(s)) } else { None },
        None => None,
    }
}

/// The secret a credential stores, or the detail of the bad request: for
/// Vertex the service account JSON (checked) or else an API key; for other
/// providers the API key.
pub open spec fn credential_secret(provider: Seq<char>, api_key: Option<Seq<char>>, service_account_json: Option<Seq<char>>) -> Result<Seq<char>, Seq<char>> {
    if unicode_lowercase(trim(provider)) == "vertex"@ {
        if given(service_account_json) is Some {
            match service_account_problem(service_account_json->0) {
                Some(d) => Err(d),
                None => Ok(given(service_account_json)->0),
            }
        } else if given(api_key) is Some {
            Ok(given(api_key)->0)
        } else {
            Err("vertex credentials require service_account_json (GCP service account key JSON)"@)
        }
    } else {
        match given(api_key) {
            Some(k) => Ok(k),
            None => Err("api_key is required"@),
        }
    }
}

fn given_text(o: Option<&str>) -> (r: Option<String>)
    ensures
        match given(
            match o {
                Some(s) => Some(s@),
                None => None,
            },
        ) {
            Some(t) => r matches Some(x) && x@ == t,
            None => r is None,
        },
{
    match o {
        Some(s) => {
            let t = chars_trim(&chars_of(s));
            if t.len() > 0 {
                Some(string_from_chars(&t))
            } else {
                None
            }
        },
        None => None,
    }
}

/// The secret to store for a credential of `provider`.
pub fn extract_credential_secret(provider: &str, api_key: Option<&str>, service_account_json: Option<&str>) -> (r: Result<String, ApiError>)
    ensures
        match credential_secret(
            provider@,
            match api_key {
                Some(s) => Some(s@),
                None => None,
            },
            match service_account_json {
                Some(s) => Some(s@),
                None => None,
            },
        ) {
            Ok(s) => r matches Ok(x) && x@ == s,
            Err(d) => r matches Err(e) && is_api_error(e, 400, "Bad Request"@, d),
        },
{
    let p = to_lowercase(string_from_chars(&chars_trim(&chars_of(provider))).as_str());
    if str_eq(p.as_str(), "vertex") {
        match (service_account_json, given_text(service_account_json)) {
            (Some(json), Some(trimmed)) => {
                match validate_service_account_json(json) {
                    Ok(()) => return Ok(trimmed),
                    Err(e) => return Err(ApiError::bad_request(e)),
                }
            },
            _ => {},
        }
        match given_text(api_key) {
            Some(k) => return Ok(k),
            None => {},
        }
        return Err(
            ApiError::bad_request(String::from_str("vertex credentials require service_account_json (GCP service account key JSON)")),
        );
    }
    match given_text(api_key) {
        Some(k) => Ok(k),
        None => Err(ApiError::bad_request(String::from_str("api_key is required"))),
    }
}

} // verus!
