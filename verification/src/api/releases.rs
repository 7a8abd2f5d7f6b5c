//! Requests and records of the release endpoints, and which release tags
//! are accepted.
use vstd::prelude::*;
use vstd::string::StringSliceAdditionalSpecFns;

use crate::api::batch::{is_api_error, ApiError};
use crate::text::{chars_of, str_eq};

verus! {

/// A release with the stages that point at it.
#[derive(Clone, Debug)]
pub struct ReleaseRecord {
    pub id: String,
    pub tag: String,
    pub message: String,
    pub created_at: String,
    pub stage_tags: Vec<String>,
}

/// How a new release starts: empty, as a fork of another, or from a template.
#[derive(Clone, Debug)]
pub enum ReleaseInit {
    New,
    Fork { source: String },
    Template { source: String },
}

#[derive(Clone, Debug)]
pub struct CreateReleaseRequest {
    pub tag: String,
    pub message: String,
    pub init: ReleaseInit,
}

#[derive(Clone, Debug)]
pub struct UpdateReleaseRequest {
    pub tag: String,
}

/// An ASCII letter or digit, `-` or `_`.
pub open spec fn tag_char(c: char) -> bool {
    let n = c as u32;
    (48 <= n <= 57) || (65 <= n <= 90) || (97 <= n <= 122) || c == '-' || c == '_'
}

/// Why a release tag is refused, if it is: empty or over 50 bytes, or a
/// character other than an ASCII letter, digit, `-` or `_`.
pub open spec fn release_tag_problem(tag: Seq<char>) -> Option<Seq<char>> {
    let bytes = vstd::utf8::encode_utf8(tag).len();
    if tag.len() == 0 || bytes > 50 {
        Some("invalid release tag"@)
    } else if exists|i: int| 0 <= i < tag.len() && !tag_char(#[trigger] tag[i]) {
        Some("invalid release tag characters"@)
    } else {
        None
    }
}

/// Checks a release tag.
pub fn validate_tag(tag: &str) -> (r: Result<(), ApiError>)
    ensures
        match release_tag_problem(tag@) {
            Some(d) => r matches Err(e) && is_api_error(e, 400, "Bad Request"@, d),
            None => r is Ok,
        },
{
    if tag.is_empty() || tag.as_bytes().len() > 50 {
        return Err(ApiError::bad_request(String::from_str("invalid release tag")));
    }
    let v = chars_of(tag);
    let mut i: usize = 0;
    while i < v.len()
        invariant
            i <= v@.len(),
            v@ == tag@,
            !(tag@.len() == 0 || vstd::utf8::encode_utf8(tag@).len() > 50),
            forall|k: int| 0 <= k < i ==> tag_char(#[trigger] v@[k]),
        decreases v@.len() - i,
    {
        let c = v[i];
        let n = c as u32;
        if !((48 <= n && n <= 57) || (65 <= n && n <= 90) || (97 <= n && n <= 122) || c == '-' || c == '_') {
            assert(!tag_char(v@[i as int]));
            return Err(ApiError::bad_request(String::from_str("invalid release tag characters")));
        }
        i += 1;
    }
    assert(!exists|k: int| 0 <= k < tag@.len() && !tag_char(#[trigger] tag@[k])) by {
        assert forall|k: int| 0 <= k < tag@.len() implies tag_char(#[trigger] tag@[k]) by {
            assert(tag_char(v@[k]));
        }
    }
    Ok(())
}

/// The new id a fork gives the source with `old_id`: the last pair for it
/// in the old-to-new id pairs recorded as the sources were copied.
pub open spec fn source_mapping(pairs: Seq<(Seq<char>, Seq<char>)>, old_id: Seq<char>) -> Option<Seq<char>>
    decreases pairs.len(),
{
    if pairs.len() == 0 {
        None
    } else if pairs.last().0 == old_id {
        Some(pairs.last().1)
    } else {
        source_mapping(pairs.drop_last(), old_id)
    }
}

/// The views of the id pairs.
pub open spec fn id_pair_views(pairs: Seq<(String, String)>) -> Seq<(Seq<char>, Seq<char>)> {
    pairs.map_values(|p: (String, String)| (p.0@, p.1@))
}

/// The id a forked chunk's source gets: the new id recorded for its old
/// source, or an internal error when none was (a chunk of a source that
/// was not copied).
pub fn remap_source_id(pairs: &Vec<(String, String)>, old_id: &str) -> (r: Result<String, ApiError>)
    ensures
        match source_mapping(id_pair_views(pairs@), old_id@) {
            Some(n) => r matches Ok(s) && s@ == n,
            None => r matches Err(e) && is_api_error(e, 500, "Internal Server Error"@, "missing source mapping"@),
        },
{
    let mut i: usize = pairs.len();
    assert(id_pair_views(pairs@).subrange(0, i as int) =~= id_pair_views(pairs@));
    while i > 0
        invariant
            i <= pairs@.len(),
            source_mapping(id_pair_views(pairs@), old_id@) == source_mapping(id_pair_views(pairs@).subrange(0, i as int), old_id@),
        decreases i,
    {
        let ghost prefix = id_pair_views(pairs@).subrange(0, i as int);
        assert(prefix.drop_last() == id_pair_views(pairs@).subrange(0, i - 1));
        assert(prefix.last() == (pairs@[i - 1].0@, pairs@[i - 1].1@));
        if str_eq(pairs[i - 1].0.as_str(), old_id) {
            return Ok(pairs[i - 1].1.clone());
        }
        i -= 1;
    }
    Err(ApiError::internal(String::from_str("missing source mapping")))
}

} // verus!
