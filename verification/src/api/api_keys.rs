//! Requests and records of the API key endpoints.
use vstd::prelude::*;

verus! {

#[derive(Clone, Debug)]
pub struct CreateApiKeyRequest {
    pub name: String,
    pub permissions: Vec<String>,
    pub rpm: Option<u32>,
    pub rph: Option<u32>,
}
#[derive(Clone, Debug)]
pub struct PatchApiKeyRequest {
    pub permissions: Option<Vec<String>>,
    pub rpm: Option<Option<u32>>,
    pub rph: Option<Option<u32>>,
}
#[derive(Clone, Debug)]
pub struct ApiKeyRecord {
    pub id: String,
    pub name: String,
    pub permissions: Vec<String>,
    pub rpm: Option<u32>,
    pub rph: Option<u32>,
    pub created_at: String,
}
#[derive(Clone, Debug)]
pub struct CreateApiKeyResponse {
    pub id: String,
    pub name: String,
    pub permissions: Vec<String>,
    pub rpm: Option<u32>,
    pub rph: Option<u32>,
    pub created_at: String,
    pub token: String,
}

} // verus!
