//! Requests and records of the stage endpoints, and which stage tags are
//! accepted.
use vstd::prelude::*;

use crate::api::batch::{is_api_error, ApiError};
use crate::text::chars_of;

verus! {

/// A stage and the release it points at.
#[derive(Clone, Debug)]
pub struct StageRecord {
    pub id: String,
    pub tag: String,
    pub release_id: String,
    pub release_tag: String,
    pub created_at: String,
}

#[derive(Clone, Debug)]
pub struct CreateStageRequest {
    pub tag: String,
    pub release_tag: String,
}

#[derive(Clone, Debug)]
pub struct UpdateStageRequest {
    pub release_tag: Option<String>,
    pub tag: Option<String>,
}

/// A stage tag: one to 12 bytes, all ASCII lower-case letters.
pub open spec fn valid_stage_tag(tag: Seq<char>) -> bool {
    &&& tag.len() > 0
    &&& vstd::utf8::encode_utf8(tag).len() <= 12
    &&& forall|i: int| 0 <= i < tag.len() ==> 97 <= (#[trigger] tag[i] as u32) <= 122
}

/// Checks a stage tag.
pub fn validate_stage_tag(tag: &str) -> (r: Result<(), ApiError>)
    ensures
        valid_stage_tag(tag@) ==> r is Ok,
        !valid_stage_tag(tag@) ==> (r matches Err(e) && is_api_error(e, 400, "Bad Request"@, "invalid stage tag"@)),
{
    if tag.is_empty() || tag.as_bytes().len() > 12 {
        return Err(ApiError::bad_request(String::from_str("invalid stage tag")));
    }
    let v = chars_of(tag);
    let mut i: usize = 0;
    while i < v.len()
        invariant
            i <= v@.len(),
            v@ == tag@,
            tag@.len() > 0,
            vstd::utf8::encode_utf8(tag@).len() <= 12,
            forall|k: int| 0 <= k < i ==> 97 <= (#[trigger] v@[k] as u32) <= 122,
        decreases v@.len() - i,
    {
        let n = v[i] as u32;
        if !(97 <= n && n <= 122) {
            assert(!valid_stage_tag(tag@)) by {
                assert(!(97 <= (tag@[i as int] as u32) <= 122));
            }
            return Err(ApiError::bad_request(String::from_str("invalid stage tag")));
        }
        i += 1;
    }
    Ok(())
}

} // verus!
