//! The chunk endpoints: the staging payload a posted chunk is written as,
//! and what enqueuing one gives back.
use vstd::prelude::*;

use crate::json::{json_members, json_string_literal, member_views, quote_json_string, write_json_members};
use crate::text::push_str;

verus! {

#[derive(Clone, Debug)]
pub struct ChunkEnqueueResult {
    pub chunk_id: String,
    pub job_id: String,
}

/// A chunk to ingest: its source, its text, and its metadata and
/// provenance as JSON texts (`null` when not given).
#[derive(Clone, Debug)]
pub struct ChunkInput {
    pub source_id: String,
    pub content: String,
    pub metadata: String,
    pub provenance: String,
}

/// The staging file a chunk's payload is written to: `chunk-<id>.json`.
pub open spec fn staging_file_name(chunk_id: Seq<char>) -> Seq<char> {
    "chunk-"@ + chunk_id + ".json"@
}

/// The name of the staging file of a chunk.
pub fn staging_file(chunk_id: &str) -> (r: String)
    ensures
        r@ == staging_file_name(chunk_id@),
{
    let mut r = String::from_str("chunk-");
    push_str(&mut r, chunk_id);
    push_str(&mut r, ".json");
    r
}

/// The members of a chunk's staging payload, each name with the JSON text
/// of its value: the chunk's id, source and content as JSON strings, its
/// metadata and provenance as they are.
pub open spec fn staging_members(
    chunk_id: Seq<char>,
    source_id: Seq<char>,
    content: Seq<char>,
    metadata: Seq<char>,
    provenance: Seq<char>,
) -> Option<Seq<(Seq<char>, Seq<char>)>> {
    match (json_string_literal(chunk_id), json_string_literal(source_id), json_string_literal(content)) {
        (Some(id), Some(source), Some(text)) => Some(
            seq![
                ("chunk_id"@, id),
                ("source_id"@, source),
                ("content"@, text),
                ("metadata"@, metadata),
                ("provenance"@, provenance),
            ],
        ),
        _ => None,
    }
}

/// The JSON object written to a chunk's staging file: the members of
/// `staging_members` set on an empty object; `None` when the metadata or
/// the provenance is no JSON text.
pub open spec fn staging_payload_text(
    chunk_id: Seq<char>,
    source_id: Seq<char>,
    content: Seq<char>,
    metadata: Seq<char>,
    provenance: Seq<char>,
) -> Option<Seq<char>> {
    match staging_members(chunk_id, source_id, content, metadata, provenance) {
        Some(m) => json_members(m),
        None => None,
    }
}

/// Writes the staging payload of a chunk, as `staging_payload_text` says.
pub fn staging_payload(chunk_id: &str, item: &ChunkInput) -> (r: Option<String>)
    ensures
        match staging_payload_text(chunk_id@, item.source_id@, item.content@, item.metadata@, item.provenance@) {
            Some(t) => r matches Some(s) && s@ == t,
            None => r is None,
        },
{
    let id = quote_json_string(chunk_id).unwrap();
    let source = quote_json_string(item.source_id.as_str()).unwrap();
    let text = quote_json_string(item.content.as_str()).unwrap();
    let mut m: Vec<(String, String)> = Vec::new();
    m.push((String::from_str("chunk_id"), id));
    m.push((String::from_str("source_id"), source));
    m.push((String::from_str("content"), text));
    m.push((String::from_str("metadata"), item.metadata.clone()));
    m.push((String::from_str("provenance"), item.provenance.clone()));
    assert(member_views(m@) =~= staging_members(chunk_id@, item.source_id@, item.content@, item.metadata@, item.provenance@)->0);
    write_json_members(&m)
}

} // verus!
