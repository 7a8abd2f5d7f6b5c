//! The health endpoint's response.
use vstd::prelude::*;

verus! {

#[derive(Clone, Debug)]
pub struct HealthResponse {
    pub status: String,
    pub ready: bool,
    pub embedding_mismatch_count: usize,
}

} // verus!
