//! Requests and records of the webhook endpoints, and the checks on a
//! webhook's URL.
use vstd::prelude::*;

use crate::api::batch::{is_api_error, ApiError};
use crate::text::{chars_of, chars_trim, str_eq, string_from_chars, trim};

verus! {

#[derive(Clone, Debug)]
pub struct WebhookRecord {
    pub id: String,
    pub release_id: String,
    pub webhook_type: String,
    pub url: String,
    pub events: Vec<String>,
    pub active: bool,
    pub created_at: String,
}
#[derive(Clone, Debug)]
pub struct CreateWebhookRequest {
    pub webhook_type: String,
    pub url: String,
    pub events: Vec<String>,
    pub active: bool,
}
#[derive(Clone, Debug)]
pub struct PatchWebhookRequest {
    pub url: Option<String>,
    pub events: Option<Vec<String>>,
    pub active: Option<bool>,
}
#[derive(Clone, Debug)]
pub struct TestWebhookResponse {
    pub status_code: Option<u16>,
    pub body: String,
}
#[derive(Clone, Debug)]
pub struct WebhookSecretResponse {
    pub secret: String,
}

/// A webhook's URL, trimmed; it must not be blank.
pub fn webhook_url(raw: &str) -> (r: Result<String, ApiError>)
    ensures
        trim(raw@).len() > 0 ==> (r matches Ok(u) && u@ == trim(raw@)),
        trim(raw@).len() == 0 ==> (r matches Err(e) && is_api_error(e, 400, "Bad Request"@, "url is required"@)),
{
    let t = chars_trim(&chars_of(raw));
    if t.len() == 0 {
        Err(ApiError::bad_request(String::from_str("url is required")))
    } else {
        Ok(string_from_chars(&t))
    }
}

/// A release holds each webhook URL once: the URL is taken when another
/// webhook of the release (`existing_id`) has it, unless that is the
/// webhook being changed (`exclude_id`).
pub fn check_url_available(existing_id: Option<&str>, exclude_id: Option<&str>) -> (r: Result<(), ApiError>)
    ensures
        match existing_id {
            None => r is Ok,
            Some(id) => if exclude_id matches Some(x) && x@ == id@ {
                r is Ok
            } else {
                r matches Err(e) && is_api_error(e, 400, "Bad Request"@, "webhook url already exists for this release"@)
            },
        },
{
    match existing_id {
        None => Ok(()),
        Some(id) => {
            let same = match exclude_id {
                Some(x) => str_eq(x, id),
                None => false,
            };
            if same {
                Ok(())
            } else {
                Err(ApiError::bad_request(String::from_str("webhook url already exists for this release")))
            }
        },
    }
}

} // verus!
