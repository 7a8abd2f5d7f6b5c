//! Responses of the local model endpoints.
use vstd::prelude::*;

verus! {

#[derive(Clone, Debug)]
pub struct RequiredModelInfo {
    pub name: String,
    pub kind: String,
    pub present: bool,
    pub releases: Vec<String>,
}
#[derive(Clone, Debug)]
pub struct CatalogStatusEntry {
    pub name: String,
    pub kind: String,
    pub languages: Vec<String>,
    pub present: bool,
    pub releases: Vec<String>,
    pub loaded: bool,
    pub ram_bytes: Option<u64>,
    pub custom: bool,
}
#[derive(Clone, Debug)]
pub struct PurgeModelsResponse {
    pub purged_embedders: usize,
    pub purged_rerankers: usize,
}
#[derive(Clone, Debug)]
pub struct TestModelResponse {
    pub ok: bool,
    pub name: String,
    pub kind: String,
    pub latency_ms: u64,
}
#[derive(Clone, Debug)]
pub struct AddCustomModelRequest {
    pub name: String,
}

} // verus!
