//! Which uploaded files can become sources, and the content hash of a text
//! source.
use vstd::prelude::*;

use crate::api::batch::{is_api_error, ApiError};
use crate::generation::endpoints::unicode_lowercase;
use crate::json::{insert_json_member, json_member_text, json_object_key_list, json_with_member, read_json_member_text, read_json_object_keys};
use crate::text::{chars_ends_with, chars_of, has_suffix, joined};

verus! {

/// What enqueueing a source created.
#[derive(Clone, Debug)]
pub struct SourceEnqueueResult {
    pub source_id: String,
    pub job_id: String,
}

/// The file extensions sources can be made from, in the order they are tried.
pub open spec fn supported_extensions() -> Seq<Seq<char>> {
    seq![".txt"@, ".md"@, ".csv"@, ".json"@, ".pdf"@, ".docx"@, ".xlsx"@, ".xlsm"@, ".pptx"@]
}

/// The first supported extension the lower-cased name ends with.
pub open spec fn first_extension(lower: Seq<char>, exts: Seq<Seq<char>>) -> Option<Seq<char>>
    decreases exts.len(),
{
    if exts.len() == 0 {
        None
    } else if has_suffix(lower, exts[0]) {
        Some(exts[0])
    } else {
        first_extension(lower, exts.drop_first())
    }
}

/// The refusal of an unsupported file.
pub open spec fn unsupported_file_message() -> Seq<char> {
    "unsupported file type; supported extensions: "@ + joined(supported_extensions(), ", "@)
}

/// The supported extension of a file name (compared in lower case).
pub fn file_extension_from_name(name: &str) -> (r: Result<&'static str, String>)
    ensures
        match first_extension(unicode_lowercase(name@), supported_extensions()) {
            Some(e) => r matches Ok(x) && x@ == e,
            None => r matches Err(m) && m@ == unsupported_file_message(),
        },
{
    let lower = chars_of(crate::generation::endpoints::to_lowercase(name).as_str());
    let exts: [&'static str; 9] = [".txt", ".md", ".csv", ".json", ".pdf", ".docx", ".xlsx", ".xlsm", ".pptx"];
    let ghost all = supported_extensions();
    assert(exts@.map_values(|e: &str| e@) =~= all);
    let mut i: usize = 0;
    assert(all.subrange(0, 9) =~= all);
    while i < 9
        invariant
            i <= 9,
            exts@.len() == 9,
            exts@.map_values(|e: &str| e@) == all,
            all == supported_extensions(),
            first_extension(lower@, all) == first_extension(lower@, all.subrange(i as int, 9)),
            lower@ == unicode_lowercase(name@),
        decreases 9 - i,
    {
        let ghost rest = all.subrange(i as int, 9);
        assert(rest[0] == exts@[i as int]@);
        if chars_ends_with(&lower, &chars_of(exts[i])) {
            return Ok(exts[i]);
        }
        assert(rest.drop_first() == all.subrange(i + 1, 9));
        i += 1;
    }
    assert(all.subrange(9, 9).len() == 0);
    proof {
        reveal_strlit("unsupported file type; supported extensions: .txt, .md, .csv, .json, .pdf, .docx, .xlsx, .xlsm, .pptx");
        reveal_strlit("unsupported file type; supported extensions: ");
        reveal_strlit(", ");
        reveal_strlit(".txt");
        reveal_strlit(".md");
        reveal_strlit(".csv");
        reveal_strlit(".json");
        reveal_strlit(".pdf");
        reveal_strlit(".docx");
        reveal_strlit(".xlsx");
        reveal_strlit(".xlsm");
        reveal_strlit(".pptx");
        reveal_with_fuel(joined, 10);
        assert(unsupported_file_message()
            =~= "unsupported file type; supported extensions: .txt, .md, .csv, .json, .pdf, .docx, .xlsx, .xlsm, .pptx"@);
    }
    Err(String::from_str("unsupported file type; supported extensions: .txt, .md, .csv, .json, .pdf, .docx, .xlsx, .xlsm, .pptx"))
}

/// Checks that a file name has a supported extension.
pub fn validate_file_extension(name: &str) -> (r: Result<(), String>)
    ensures
        match first_extension(unicode_lowercase(name@), supported_extensions()) {
            Some(_) => r is Ok,
            None => r matches Err(m) && m@ == unsupported_file_message(),
        },
{
    match file_extension_from_name(name) {
        Ok(_) => Ok(()),
        Err(e) => Err(e),
    }
}

/// The lower-case hexadecimal SHA-256 digest of `bytes`.
pub uninterp spec fn sha256_hex(bytes: Seq<u8>) -> Seq<char>;

/// `format!("{:x}", Sha256::digest(bytes))`: its text is the one named
/// above, a function of the bytes alone.
#[verifier::external_body]
fn sha256_hex_digest(bytes: &[u8]) -> (r: String)
    ensures
        r@ == sha256_hex(bytes@),
{
    format!("{:x}", <sha2::Sha256 as sha2::Digest>::digest(bytes))
}

/// The content hash of a text source: SHA-256 of its UTF-8 bytes, in hex.
pub fn hash_text(text: &str) -> (r: String)
    ensures
        r@ == sha256_hex(vstd::utf8::encode_utf8(text@)),
{
    sha256_hex_digest(text.as_bytes())
}

/// A source's metadata must be a JSON object.
pub fn check_metadata_object(metadata: &str) -> (r: Result<(), ApiError>)
    ensures
        json_object_key_list(metadata@) is Some ==> r is Ok,
        json_object_key_list(metadata@) is None ==> (r matches Err(e) && is_api_error(e, 400, "Bad Request"@, "metadata must be a JSON object"@)),
{
    match read_json_object_keys(metadata) {
        Some(_) => Ok(()),
        None => Err(ApiError::bad_request(String::from_str("metadata must be a JSON object"))),
    }
}

/// What a chunk's old metadata holds under `key`, written back as JSON:
/// nothing when the metadata does not read as JSON or has no such member.
pub open spec fn old_member(old: Seq<char>, key: Seq<char>) -> Option<Seq<char>> {
    match json_member_text(old, key) {
        Some(Some(v)) => Some(v),
        _ => None,
    }
}

/// `metadata` with `key` set to the old metadata's value, where it has one.
pub open spec fn carried_over(metadata: Option<Seq<char>>, old: Seq<char>, key: Seq<char>) -> Option<Seq<char>> {
    match metadata {
        None => None,
        Some(m) => match old_member(old, key) {
            Some(v) => json_with_member(m, key, v),
            None => Some(m),
        },
    }
}

/// A chunk's metadata once its source's metadata is replaced: the new
/// metadata, with the keys the chunk derives from its own text
/// (`section_path`, `unit_kinds`) kept from its old metadata.
pub open spec fn merged_chunk_metadata(new_metadata: Seq<char>, old: Seq<char>) -> Option<Seq<char>> {
    carried_over(carried_over(Some(new_metadata), old, "section_path"@), old, "unit_kinds"@)
}

fn carry_over(metadata: String, old: &str, key: &str) -> (r: Option<String>)
    ensures
        match carried_over(Some(metadata@), old@, key@) {
            Some(t) => r matches Some(s) && s@ == t,
            None => r is None,
        },
{
    match read_json_member_text(old, key) {
        Some(Some(v)) => insert_json_member(metadata.as_str(), key, v.as_str()),
        _ => Some(metadata),
    }
}

/// Merges a chunk's metadata as `merged_chunk_metadata` says; `new_metadata`
/// is the source's new metadata as JSON text.
pub fn merge_chunk_metadata(new_metadata: &str, old: &str) -> (r: Option<String>)
    ensures
        match merged_chunk_metadata(new_metadata@, old@) {
            Some(t) => r matches Some(s) && s@ == t,
            None => r is None,
        },
{
    match carry_over(String::from_str(new_metadata), old, "section_path") {
        Some(m) => carry_over(m, old, "unit_kinds"),
        None => None,
    }
}

} // verus!
