//! The database viewer's catalog: which tables can be browsed, under which
//! alias and with which columns, which of them are scoped to a release,
//! which columns get facets, and how a column filter becomes SQL.
use vstd::prelude::*;

use crate::api::batch::{is_api_error, ApiError};
use crate::filter::dsl::FilterValue;
use crate::text::{decimal, push_decimal, joined, has_infix, has_suffix, chars_contains, chars_ends_with, chars_of, push_joined, push_str, push_string, str_eq};

verus! {

/// The most distinct values a facet lists before it is cut off.
pub const FACET_MAX: usize = 50;

/// The tables whose rows belong to a release.
pub open spec fn release_scoped_table(table: Seq<char>) -> bool {
    table == "sources"@
        || table == "chunks"@
        || table == "queries"@
        || table == "query_chunks"@
        || table == "ingest_jobs"@
        || table == "settings"@
        || table == "webhooks"@
}

/// Whether rows of `table` are filtered by release.
pub fn is_release_scoped(table: &str) -> (r: bool)
    ensures
        r == release_scoped_table(table@),
{
    str_eq(table, "sources")
        || str_eq(table, "chunks")
        || str_eq(table, "queries")
        || str_eq(table, "query_chunks")
        || str_eq(table, "ingest_jobs")
        || str_eq(table, "settings")
        || str_eq(table, "webhooks")
}

/// The SQL alias a table is queried under.
pub open spec fn table_alias_name(table: Seq<char>) -> Seq<char> {
    if table == "sources"@ {
        "s"@
    } else if table == "chunks"@ {
        "c"@
    } else if table == "queries"@ {
        "q"@
    } else if table == "query_chunks"@ {
        "qc"@
    } else if table == "ingest_jobs"@ {
        "j"@
    } else if table == "settings"@ {
        "st"@
    } else if table == "webhooks"@ {
        "w"@
    } else if table == "webhook_deliveries"@ {
        "wd"@
    } else {
        "t"@
    }
}

pub fn table_alias(table: &str) -> (r: &'static str)
    ensures
        r@ == table_alias_name(table@),
{
    if str_eq(table, "sources") {
        "s"
    } else if str_eq(table, "chunks") {
        "c"
    } else if str_eq(table, "queries") {
        "q"
    } else if str_eq(table, "query_chunks") {
        "qc"
    } else if str_eq(table, "ingest_jobs") {
        "j"
    } else if str_eq(table, "settings") {
        "st"
    } else if str_eq(table, "webhooks") {
        "w"
    } else if str_eq(table, "webhook_deliveries") {
        "wd"
    } else {
        "t"
    }
}

/// The columns the viewer shows for `table`, ids and timestamps last;
/// `None` for a table it does not show.
#[verifier::opaque]
pub open spec fn table_column_names(table: Seq<char>) -> Option<Seq<Seq<char>>> {
    if table == "sources"@ {
        Some(seq!["name"@, "type"@, "uri"@, "status"@, "error"@, "content_hash"@, "config"@, "metadata"@, "release_id"@, "id"@, "created_at"@, "updated_at"@])
    } else if table == "chunks"@ {
        Some(seq!["ordinal"@, "content"@, "token_count"@, "embedding_model"@, "embedding_dim"@, "embedding_version"@, "provenance"@, "metadata"@, "source_id"@, "release_id"@, "id"@, "created_at"@])
    } else if table == "queries"@ {
        Some(seq!["text"@, "playground"@, "upstream_ms"@, "embed_ms"@, "search_ms"@, "rerank_ms"@, "store_ms"@, "total_ragdoll_ms"@, "candidate_count"@, "result_count"@, "response_status"@, "filters"@, "params"@, "stage_id"@, "release_id"@, "id"@, "created_at"@])
    } else if table == "query_chunks"@ {
        Some(seq!["step"@, "rank"@, "score"@, "content"@, "metadata"@, "chunk_id"@, "source_id"@, "stage_id"@, "release_id"@, "query_id"@])
    } else if table == "ingest_jobs"@ {
        Some(seq!["status"@, "attempts"@, "max_attempts"@, "worker_id"@, "heartbeat_at"@, "error"@, "queue_ms"@, "extract_ms"@, "chunk_ms"@, "embed_ms"@, "db_write_ms"@, "total_ms"@, "chunk_count"@, "char_count"@, "started_at"@, "finished_at"@, "source_name"@, "source_type"@, "source_uri"@, "content_hash"@, "config"@, "metadata"@, "source_id"@, "stage_id"@, "release_id"@, "id"@, "created_at"@])
    } else if table == "settings"@ {
        Some(seq!["key"@, "value"@, "release_id"@])
    } else if table == "webhooks"@ {
        Some(seq!["type"@, "url"@, "events"@, "active"@, "release_id"@, "id"@, "created_at"@])
    } else if table == "webhook_deliveries"@ {
        Some(seq!["event"@, "status_code"@, "error"@, "response"@, "payload"@, "webhook_id"@, "id"@, "created_at"@])
    } else if table == "models"@ {
        Some(seq!["name"@, "kind"@, "runtime"@, "dim"@, "uri"@, "status"@, "is_default"@])
    } else if table == "releases"@ {
        Some(seq!["tag"@, "message"@, "id"@, "created_at"@])
    } else if table == "stages"@ {
        Some(seq!["tag"@, "release_id"@, "id"@, "created_at"@])
    } else if table == "users"@ {
        Some(seq!["email"@, "is_superadmin"@, "password_is_default"@, "id"@, "created_at"@, "password_hash"@])
    } else {
        None
    }
}

fn strings_of(raw: &[&str]) -> (r: Vec<String>)
    ensures
        r@.map_values(|s: String| s@) == raw@.map_values(|s: &str| s@),
{
    let mut r: Vec<String> = Vec::new();
    let mut i: usize = 0;
    while i < raw.len()
        invariant
            i <= raw@.len(),
            r@.map_values(|s: String| s@) == raw@.subrange(0, i as int).map_values(|s: &str| s@),
        decreases raw@.len() - i,
    {
        let ghost prev = r@;
        let item = String::from_str(raw[i]);
        r.push(item);
        assert(r@ == prev.push(item));
        assert(r@.map_values(|s: String| s@) =~= prev.map_values(|s: String| s@).push(raw@[i as int]@));
        assert(raw@.subrange(0, i + 1).map_values(|s: &str| s@) =~= raw@.subrange(0, i as int).map_values(|s: &str| s@).push(raw@[i as int]@));
        i += 1;
    }
    assert(raw@.subrange(0, raw@.len() as int) == raw@);
    r
}

/// The columns the viewer shows for `table`, or `None` for a table it does
/// not show.
pub fn table_columns(table: &str) -> (r: Option<Vec<String>>)
    ensures
        match r {
            Some(v) => table_column_names(table@) == Some(v@.map_values(|s: String| s@)),
            None => table_column_names(table@) is None,
        },
{
    reveal(table_column_names);
    if str_eq(table, "sources") {
        let raw: [&str; 12] = ["name", "type", "uri", "status", "error", "content_hash", "config", "metadata", "release_id", "id", "created_at", "updated_at"];
        proof {
            reveal_strlit("config");
            reveal_strlit("content_hash");
            reveal_strlit("created_at");
            reveal_strlit("error");
            reveal_strlit("id");
            reveal_strlit("metadata");
            reveal_strlit("name");
            reveal_strlit("release_id");
            reveal_strlit("status");
            reveal_strlit("type");
            reveal_strlit("updated_at");
            reveal_strlit("uri");
        }
        let v = strings_of(&raw);
        assert(raw@.map_values(|s: &str| s@) =~= seq!["name"@, "type"@, "uri"@, "status"@, "error"@, "content_hash"@, "config"@, "metadata"@, "release_id"@, "id"@, "created_at"@, "updated_at"@]);
        Some(v)
    } else if str_eq(table, "chunks") {
        let raw: [&str; 12] = ["ordinal", "content", "token_count", "embedding_model", "embedding_dim", "embedding_version", "provenance", "metadata", "source_id", "release_id", "id", "created_at"];
        proof {
            reveal_strlit("content");
            reveal_strlit("created_at");
            reveal_strlit("embedding_dim");
            reveal_strlit("embedding_model");
            reveal_strlit("embedding_version");
            reveal_strlit("id");
            reveal_strlit("metadata");
            reveal_strlit("ordinal");
            reveal_strlit("provenance");
            reveal_strlit("release_id");
            reveal_strlit("source_id");
            reveal_strlit("token_count");
        }
        let v = strings_of(&raw);
        assert(raw@.map_values(|s: &str| s@) =~= seq!["ordinal"@, "content"@, "token_count"@, "embedding_model"@, "embedding_dim"@, "embedding_version"@, "provenance"@, "metadata"@, "source_id"@, "release_id"@, "id"@, "created_at"@]);
        Some(v)
    } else if str_eq(table, "queries") {
        let raw: [&str; 17] = ["text", "playground", "upstream_ms", "embed_ms", "search_ms", "rerank_ms", "store_ms", "total_ragdoll_ms", "candidate_count", "result_count", "response_status", "filters", "params", "stage_id", "release_id", "id", "created_at"];
        proof {
            reveal_strlit("candidate_count");
            reveal_strlit("created_at");
            reveal_strlit("embed_ms");
            reveal_strlit("filters");
            reveal_strlit("id");
            reveal_strlit("params");
            reveal_strlit("playground");
            reveal_strlit("release_id");
            reveal_strlit("rerank_ms");
            reveal_strlit("response_status");
            reveal_strlit("result_count");
            reveal_strlit("search_ms");
            reveal_strlit("stage_id");
            reveal_strlit("store_ms");
            reveal_strlit("text");
            reveal_strlit("total_ragdoll_ms");
            reveal_strlit("upstream_ms");
        }
        let v = strings_of(&raw);
        assert(raw@.map_values(|s: &str| s@) =~= seq!["text"@, "playground"@, "upstream_ms"@, "embed_ms"@, "search_ms"@, "rerank_ms"@, "store_ms"@, "total_ragdoll_ms"@, "candidate_count"@, "result_count"@, "response_status"@, "filters"@, "params"@, "stage_id"@, "release_id"@, "id"@, "created_at"@]);
        Some(v)
    } else if str_eq(table, "query_chunks") {
        let raw: [&str; 10] = ["step", "rank", "score", "content", "metadata", "chunk_id", "source_id", "stage_id", "release_id", "query_id"];
        proof {
            reveal_strlit("chunk_id");
            reveal_strlit("content");
            reveal_strlit("metadata");
            reveal_strlit("query_id");
            reveal_strlit("rank");
            reveal_strlit("release_id");
            reveal_strlit("score");
            reveal_strlit("source_id");
            reveal_strlit("stage_id");
            reveal_strlit("step");
        }
        let v = strings_of(&raw);
        assert(raw@.map_values(|s: &str| s@) =~= seq!["step"@, "rank"@, "score"@, "content"@, "metadata"@, "chunk_id"@, "source_id"@, "stage_id"@, "release_id"@, "query_id"@]);
        Some(v)
    } else if str_eq(table, "ingest_jobs") {
        let raw: [&str; 27] = ["status", "attempts", "max_attempts", "worker_id", "heartbeat_at", "error", "queue_ms", "extract_ms", "chunk_ms", "embed_ms", "db_write_ms", "total_ms", "chunk_count", "char_count", "started_at", "finished_at", "source_name", "source_type", "source_uri", "content_hash", "config", "metadata", "source_id", "stage_id", "release_id", "id", "created_at"];
        proof {
            reveal_strlit("attempts");
            reveal_strlit("char_count");
            reveal_strlit("chunk_count");
            reveal_strlit("chunk_ms");
            reveal_strlit("config");
            reveal_strlit("content_hash");
            reveal_strlit("created_at");
            reveal_strlit("db_write_ms");
            reveal_strlit("embed_ms");
            reveal_strlit("error");
            reveal_strlit("extract_ms");
            reveal_strlit("finished_at");
            reveal_strlit("heartbeat_at");
            reveal_strlit("id");
            reveal_strlit("max_attempts");
            reveal_strlit("metadata");
            reveal_strlit("queue_ms");
            reveal_strlit("release_id");
            reveal_strlit("source_id");
            reveal_strlit("source_name");
            reveal_strlit("source_type");
            reveal_strlit("source_uri");
            reveal_strlit("stage_id");
            reveal_strlit("started_at");
            reveal_strlit("status");
            reveal_strlit("total_ms");
            reveal_strlit("worker_id");
        }
        let v = strings_of(&raw);
        assert(raw@.map_values(|s: &str| s@) =~= seq!["status"@, "attempts"@, "max_attempts"@, "worker_id"@, "heartbeat_at"@, "error"@, "queue_ms"@, "extract_ms"@, "chunk_ms"@, "embed_ms"@, "db_write_ms"@, "total_ms"@, "chunk_count"@, "char_count"@, "started_at"@, "finished_at"@, "source_name"@, "source_type"@, "source_uri"@, "content_hash"@, "config"@, "metadata"@, "source_id"@, "stage_id"@, "release_id"@, "id"@, "created_at"@]);
        Some(v)
    } else if str_eq(table, "settings") {
        let raw: [&str; 3] = ["key", "value", "release_id"];
        proof {
            reveal_strlit("key");
            reveal_strlit("release_id");
            reveal_strlit("value");
        }
        let v = strings_of(&raw);
        assert(raw@.map_values(|s: &str| s@) =~= seq!["key"@, "value"@, "release_id"@]);
        Some(v)
    } else if str_eq(table, "webhooks") {
        let raw: [&str; 7] = ["type", "url", "events", "active", "release_id", "id", "created_at"];
        proof {
            reveal_strlit("active");
            reveal_strlit("created_at");
            reveal_strlit("events");
            reveal_strlit("id");
            reveal_strlit("release_id");
            reveal_strlit("type");
            reveal_strlit("url");
        }
        let v = strings_of(&raw);
        assert(raw@.map_values(|s: &str| s@) =~= seq!["type"@, "url"@, "events"@, "active"@, "release_id"@, "id"@, "created_at"@]);
        Some(v)
    } else if str_eq(table, "webhook_deliveries") {
        let raw: [&str; 8] = ["event", "status_code", "error", "response", "payload", "webhook_id", "id", "created_at"];
        proof {
            reveal_strlit("created_at");
            reveal_strlit("error");
            reveal_strlit("event");
            reveal_strlit("id");
            reveal_strlit("payload");
            reveal_strlit("response");
            reveal_strlit("status_code");
            reveal_strlit("webhook_id");
        }
        let v = strings_of(&raw);
        assert(raw@.map_values(|s: &str| s@) =~= seq!["event"@, "status_code"@, "error"@, "response"@, "payload"@, "webhook_id"@, "id"@, "created_at"@]);
        Some(v)
    } else if str_eq(table, "models") {
        let raw: [&str; 7] = ["name", "kind", "runtime", "dim", "uri", "status", "is_default"];
        proof {
            reveal_strlit("dim");
            reveal_strlit("is_default");
            reveal_strlit("kind");
            reveal_strlit("name");
            reveal_strlit("runtime");
            reveal_strlit("status");
            reveal_strlit("uri");
        }
        let v = strings_of(&raw);
        assert(raw@.map_values(|s: &str| s@) =~= seq!["name"@, "kind"@, "runtime"@, "dim"@, "uri"@, "status"@, "is_default"@]);
        Some(v)
    } else if str_eq(table, "releases") {
        let raw: [&str; 4] = ["tag", "message", "id", "created_at"];
        proof {
            reveal_strlit("created_at");
            reveal_strlit("id");
            reveal_strlit("message");
            reveal_strlit("tag");
        }
        let v = strings_of(&raw);
        assert(raw@.map_values(|s: &str| s@) =~= seq!["tag"@, "message"@, "id"@, "created_at"@]);
        Some(v)
    } else if str_eq(table, "stages") {
        let raw: [&str; 4] = ["tag", "release_id", "id", "created_at"];
        proof {
            reveal_strlit("created_at");
            reveal_strlit("id");
            reveal_strlit("release_id");
            reveal_strlit("tag");
        }
        let v = strings_of(&raw);
        assert(raw@.map_values(|s: &str| s@) =~= seq!["tag"@, "release_id"@, "id"@, "created_at"@]);
        Some(v)
    } else if str_eq(table, "users") {
        let raw: [&str; 6] = ["email", "is_superadmin", "password_is_default", "id", "created_at", "password_hash"];
        proof {
            reveal_strlit("created_at");
            reveal_strlit("email");
            reveal_strlit("id");
            reveal_strlit("is_superadmin");
            reveal_strlit("password_hash");
            reveal_strlit("password_is_default");
        }
        let v = strings_of(&raw);
        assert(raw@.map_values(|s: &str| s@) =~= seq!["email"@, "is_superadmin"@, "password_is_default"@, "id"@, "created_at"@, "password_hash"@]);
        Some(v)
    } else {
        None
    }
}

/// Columns too varied to facet: free text, payloads, secrets and ids.
pub open spec fn skipped_facet_column(col: Seq<char>) -> bool {
    col == "content"@
        || col == "metadata"@
        || col == "provenance"@
        || col == "config"@
        || col == "filters"@
        || col == "params"@
        || col == "text"@
        || col == "error"@
        || col == "payload"@
        || col == "password_hash"@
        || col == "response"@
        || col == "uri"@
        || col == "message"@
        || col == "value"@
        || has_suffix(col, "_id"@) || col == "id"@ || has_infix(col, "embedding"@)
}

pub fn skip_facet_column(col: &str) -> (r: bool)
    ensures
        r == skipped_facet_column(col@),
{
    let v = chars_of(col);
    str_eq(col, "content")
        || str_eq(col, "metadata")
        || str_eq(col, "provenance")
        || str_eq(col, "config")
        || str_eq(col, "filters")
        || str_eq(col, "params")
        || str_eq(col, "text")
        || str_eq(col, "error")
        || str_eq(col, "payload")
        || str_eq(col, "password_hash")
        || str_eq(col, "response")
        || str_eq(col, "uri")
        || str_eq(col, "message")
        || str_eq(col, "value")
        || chars_ends_with(&v, &chars_of("_id")) || str_eq(col, "id") || chars_contains(&v, &chars_of("embedding"))
}

/// A filter on one column, as the viewer's `filter` parameter lists them.
#[derive(Debug)]
pub struct ColumnFilter {
    pub column: String,
    pub op: String,
    pub value: FilterValue,
}

/// The distinct values of a column, or only that there are too many.
#[derive(Debug)]
pub struct ColumnFacet {
    pub truncated: bool,
    pub values: Option<Vec<FilterValue>>,
}

/// The query parameters of the viewer.
#[derive(Debug)]
pub struct DbViewParams {
    pub filter: Option<String>,
    pub sort: Option<String>,
    pub dir: Option<String>,
    pub limit: Option<u32>,
    pub offset: Option<u32>,
}

/// How a scalar filter value is bound as an SQL parameter; `None` for
/// arrays and objects.
pub open spec fn scalar_param_text(v: FilterValue) -> Option<Seq<char>> {
    match v {
        FilterValue::Null => Some(Seq::empty()),
        FilterValue::Bool(b) => Some(if b { "1"@ } else { "0"@ }),
        FilterValue::Number(n) => Some(n@),
        FilterValue::String(t) => Some(t@),
        _ => None,
    }
}

fn scalar_param(value: &FilterValue) -> (r: Result<String, ApiError>)
    ensures
        match r {
            Ok(t) => scalar_param_text(*value) == Some(t@),
            Err(e) => scalar_param_text(*value) is None && is_api_error(e, 400, "Bad Request"@, "filter value must be scalar"@),
        },
{
    match value {
        FilterValue::Null => Ok(String::new()),
        FilterValue::Bool(b) => Ok(String::from_str(if *b { "1" } else { "0" })),
        FilterValue::Number(n) => Ok(n.clone()),
        FilterValue::String(t) => Ok(t.clone()),
        _ => Err(ApiError::bad_request(String::from_str("filter value must be scalar"))),
    }
}

/// The parameters of a list of values, or `None` if one is not a scalar.
pub open spec fn scalar_params(items: Seq<FilterValue>) -> Option<Seq<Seq<char>>>
    decreases items.len(),
{
    if items.len() == 0 {
        Some(Seq::empty())
    } else {
        match (scalar_params(items.drop_last()), scalar_param_text(items.last())) {
            (Some(ps), Some(p)) => Some(ps.push(p)),
            _ => None,
        }
    }
}

/// The SQL comparison for a viewer operator on a scalar value.
pub open spec fn comparison_op(op: Seq<char>) -> Option<Seq<char>> {
    if op == "eq"@ {
        Some(" = ?"@)
    } else if op == "ne"@ {
        Some(" != ?"@)
    } else if op == "gt"@ {
        Some(" > ?"@)
    } else if op == "gte"@ {
        Some(" >= ?"@)
    } else if op == "lt"@ {
        Some(" < ?"@)
    } else if op == "lte"@ {
        Some(" <= ?"@)
    } else {
        None
    }
}

/// The SQL condition and parameters of a column filter, or the detail of
/// the bad request it is.
pub open spec fn column_filter_sql(columns: Seq<Seq<char>>, alias: Seq<char>, column: Seq<char>, op: Seq<char>, value: FilterValue) -> Result<(Seq<char>, Seq<Seq<char>>), Seq<char>> {
    let col_ref = alias + "."@ + column;
    if !columns.contains(column) {
        Err("unknown column: "@ + column)
    } else if comparison_op(op) is Some {
        match scalar_param_text(value) {
            Some(v) => Ok((col_ref + comparison_op(op)->0, seq![v])),
            None => Err("filter value must be scalar"@),
        }
    } else if op == "contains"@ {
        match scalar_param_text(value) {
            Some(v) => Ok((col_ref + " LIKE ?"@, seq!["%"@ + v + "%"@])),
            None => Err("filter value must be scalar"@),
        }
    } else if op == "in"@ {
        match value {
            FilterValue::Array { items, .. } => if items@.len() == 0 {
                Err("in requires non-empty array"@)
            } else {
                match scalar_params(items@) {
                    Some(ps) => Ok((col_ref + " IN ("@ + joined(Seq::new(items@.len(), |_i: int| "?"@), ", "@) + ")"@, ps)),
                    None => Err("filter value must be scalar"@),
                }
            },
            _ => Err("in requires array value"@),
        }
    } else {
        Err("unsupported op: "@ + op)
    }
}

/// What `comparison_op` gives for each of the six operator names.
proof fn lemma_comparison_op_values()
    ensures
        comparison_op("eq"@) == Some(" = ?"@),
        comparison_op("ne"@) == Some(" != ?"@),
        comparison_op("gt"@) == Some(" > ?"@),
        comparison_op("gte"@) == Some(" >= ?"@),
        comparison_op("lt"@) == Some(" < ?"@),
        comparison_op("lte"@) == Some(" <= ?"@),
{
    reveal_strlit("eq");
    reveal_strlit("ne");
    reveal_strlit("gt");
    reveal_strlit("gte");
    reveal_strlit("lt");
    reveal_strlit("lte");
    assert("ne"@ != "eq"@) by { assert("ne"@[0] != "eq"@[0]); }
    assert("gt"@ != "eq"@ && "gt"@ != "ne"@) by { assert("gt"@[0] != "eq"@[0] && "gt"@[0] != "ne"@[0]); }
    assert("gte"@ != "eq"@ && "gte"@ != "ne"@ && "gte"@ != "gt"@) by { assert("gte"@.len() == 3); }
    assert("lt"@ != "eq"@ && "lt"@ != "ne"@ && "lt"@ != "gt"@ && "lt"@ != "gte"@) by {
        assert("lt"@[0] != "eq"@[0] && "lt"@[0] != "ne"@[0] && "lt"@[0] != "gt"@[0]);
    }
    assert("lte"@ != "eq"@ && "lte"@ != "ne"@ && "lte"@ != "gt"@ && "lte"@ != "gte"@ && "lte"@ != "lt"@) by {
        assert("lte"@.len() == 3 && "lte"@[0] != "gte"@[0]);
    }
}

/// The six comparison operators of the viewer compile, for a known column
/// and a scalar value, to the column reference, the SQL comparison they
/// name, and one placeholder bound to the value: `eq` to `=`, `ne` to `!=`,
/// `gt` to `>`, `gte` to `>=`, `lt` to `<`, `lte` to `<=`.
pub proof fn lemma_comparison_filters(columns: Seq<Seq<char>>, alias: Seq<char>, column: Seq<char>, value: FilterValue)
    requires
        columns.contains(column),
        scalar_param_text(value) is Some,
    ensures
        ({
            let col_ref = alias + "."@ + column;
            let v = scalar_param_text(value)->0;
            &&& column_filter_sql(columns, alias, column, "eq"@, value) == Ok::<(Seq<char>, Seq<Seq<char>>), Seq<char>>((col_ref + " = ?"@, seq![v]))
            &&& column_filter_sql(columns, alias, column, "ne"@, value) == Ok::<(Seq<char>, Seq<Seq<char>>), Seq<char>>((col_ref + " != ?"@, seq![v]))
            &&& column_filter_sql(columns, alias, column, "gt"@, value) == Ok::<(Seq<char>, Seq<Seq<char>>), Seq<char>>((col_ref + " > ?"@, seq![v]))
            &&& column_filter_sql(columns, alias, column, "gte"@, value) == Ok::<(Seq<char>, Seq<Seq<char>>), Seq<char>>((col_ref + " >= ?"@, seq![v]))
            &&& column_filter_sql(columns, alias, column, "lt"@, value) == Ok::<(Seq<char>, Seq<Seq<char>>), Seq<char>>((col_ref + " < ?"@, seq![v]))
            &&& column_filter_sql(columns, alias, column, "lte"@, value) == Ok::<(Seq<char>, Seq<Seq<char>>), Seq<char>>((col_ref + " <= ?"@, seq![v]))
        }),
{
    lemma_comparison_op_values();
}

/// Distinct comparison operators of the viewer compile to distinct SQL: no
/// two of `eq`, `ne`, `gt`, `gte`, `lt`, `lte` test the same thing.
pub proof fn lemma_comparisons_distinct(a: Seq<char>, b: Seq<char>)
    requires
        comparison_op(a) is Some,
        comparison_op(b) is Some,
        a != b,
    ensures
        comparison_op(a) != comparison_op(b),
{
    lemma_comparison_op_values();
    reveal_strlit(" = ?");
    reveal_strlit(" != ?");
    reveal_strlit(" > ?");
    reveal_strlit(" >= ?");
    reveal_strlit(" < ?");
    reveal_strlit(" <= ?");
    assert(a == "eq"@ || a == "ne"@ || a == "gt"@ || a == "gte"@ || a == "lt"@ || a == "lte"@);
    assert(b == "eq"@ || b == "ne"@ || b == "gt"@ || b == "gte"@ || b == "lt"@ || b == "lte"@);
    let x = comparison_op(a)->0;
    let y = comparison_op(b)->0;
    if x == y {
        assert(x.len() == y.len() && x[1] == y[1]);
    }
}

/// A filter on a column the table does not have is refused naming the
/// column, whatever its operator and value; `contains` on a known column is
/// a `LIKE` against the value's text between `%` signs; an operator the
/// viewer does not know is refused naming it.
pub proof fn lemma_other_column_filters(
    columns: Seq<Seq<char>>,
    alias: Seq<char>,
    column: Seq<char>,
    op: Seq<char>,
    value: FilterValue,
)
    ensures
        !columns.contains(column) ==> column_filter_sql(columns, alias, column, op, value) == Err::<
            (Seq<char>, Seq<Seq<char>>),
            Seq<char>,
        >("unknown column: "@ + column),
        columns.contains(column) && scalar_param_text(value) is Some ==> column_filter_sql(
            columns,
            alias,
            column,
            "contains"@,
            value,
        ) == Ok::<(Seq<char>, Seq<Seq<char>>), Seq<char>>(
            (alias + "."@ + column + " LIKE ?"@, seq!["%"@ + scalar_param_text(value)->0 + "%"@]),
        ),
        columns.contains(column) && op != "eq"@ && op != "ne"@ && op != "gt"@ && op != "gte"@ && op != "lt"@ && op
            != "lte"@ && op != "contains"@ && op != "in"@ ==> column_filter_sql(columns, alias, column, op, value)
            == Err::<(Seq<char>, Seq<Seq<char>>), Seq<char>>("unsupported op: "@ + op),
{
    lemma_comparison_op_values();
    reveal_strlit("contains");
    assert(comparison_op("contains"@) is None) by {
        reveal_strlit("contains");
        assert("contains"@.len() == 8);
        reveal_strlit("eq");
        reveal_strlit("ne");
        reveal_strlit("gt");
        reveal_strlit("gte");
        reveal_strlit("lt");
        reveal_strlit("lte");
        assert("contains"@ != "eq"@ && "contains"@ != "ne"@ && "contains"@ != "gt"@);
        assert("contains"@ != "gte"@ && "contains"@ != "lt"@ && "contains"@ != "lte"@);
    }
}

fn contains_string(v: &Vec<String>, x: &str) -> (r: bool)
    ensures
        r == v@.map_values(|s: String| s@).contains(x@),
{
    let ghost views = v@.map_values(|s: String| s@);
    let mut i: usize = 0;
    while i < v.len()
        invariant
            i <= v@.len(),
            views == v@.map_values(|s: String| s@),
            forall|k: int| 0 <= k < i ==> views[k] != x@,
        decreases v@.len() - i,
    {
        if str_eq(v[i].as_str(), x) {
            assert(views[i as int] == x@);
            return true;
        }
        i += 1;
    }
    false
}

/// The placeholders and parameters of an `in` filter's values.
fn in_params(items: &Vec<FilterValue>) -> (r: Result<(Vec<String>, Vec<String>), ApiError>)
    ensures
        match scalar_params(items@) {
            Some(ps) => r matches Ok((marks, v)) && v@.map_values(|q: String| q@) == ps
                && marks@.len() == items@.len() && (forall|k: int| 0 <= k < marks@.len() ==> (#[trigger] marks@[k])@ == "?"@),
            None => r matches Err(e) && is_api_error(e, 400, "Bad Request"@, "filter value must be scalar"@),
        },
{
    let mut marks: Vec<String> = Vec::new();
    let mut ps: Vec<String> = Vec::new();
    let mut i: usize = 0;
    while i < items.len()
        invariant
            i <= items@.len(),
            marks@.len() == i,
            forall|k: int| 0 <= k < i ==> (#[trigger] marks@[k])@ == "?"@,
            scalar_params(items@.subrange(0, i as int)) == Some(ps@.map_values(|q: String| q@)),
        decreases items@.len() - i,
    {
        assert(items@.subrange(0, i + 1).drop_last() == items@.subrange(0, i as int));
        let v = match scalar_param(&items[i]) {
            Ok(v) => v,
            Err(e) => {
                proof {
                    lemma_scalar_params_fail(items@, i as int);
                }
                return Err(e);
            },
        };
        let ghost pv = ps@;
        ps.push(v);
        assert(ps@.map_values(|q: String| q@) =~= pv.map_values(|q: String| q@).push(v@));
        let ghost mv = marks@;
        let mark = String::from_str("?");
        marks.push(mark);
        assert(marks@ == mv.push(mark));
        i += 1;
    }
    assert(items@.subrange(0, items@.len() as int) == items@);
    Ok((marks, ps))
}

/// Compiles one column filter of the viewer into an SQL condition on
/// `alias` and its parameters.
pub fn compile_column_filter(columns: &Vec<String>, alias: &str, filter: &ColumnFilter) -> (r: Result<(String, Vec<String>), ApiError>)
    ensures
        match column_filter_sql(columns@.map_values(|c: String| c@), alias@, filter.column@, filter.op@, filter.value) {
            Ok((sql, ps)) => r matches Ok((s, v)) && s@ == sql && v@.map_values(|p: String| p@) == ps,
            Err(d) => r matches Err(e) && is_api_error(e, 400, "Bad Request"@, d),
        },
{
    proof {
        reveal_strlit("eq");
        reveal_strlit("ne");
        reveal_strlit("gt");
        reveal_strlit("gte");
        reveal_strlit("lt");
        reveal_strlit("lte");
        reveal_strlit("contains");
        reveal_strlit("in");
    }
    if !contains_string(columns, filter.column.as_str()) {
        let mut m = String::new();
        push_str(&mut m, "unknown column: ");
        push_string(&mut m, &filter.column);
        return Err(ApiError::bad_request(m));
    }
    let mut col_ref = String::new();
    push_str(&mut col_ref, alias);
    push_str(&mut col_ref, ".");
    push_string(&mut col_ref, &filter.column);
    let op = filter.op.as_str();
    let comparison: Option<&str> = if str_eq(op, "eq") {
        Some(" = ?")
    } else if str_eq(op, "ne") {
        Some(" != ?")
    } else if str_eq(op, "gt") {
        Some(" > ?")
    } else if str_eq(op, "gte") {
        Some(" >= ?")
    } else if str_eq(op, "lt") {
        Some(" < ?")
    } else if str_eq(op, "lte") {
        Some(" <= ?")
    } else {
        None
    };
    match comparison {
        Some(sql_op) => {
            let v = scalar_param(&filter.value)?;
            push_str(&mut col_ref, sql_op);
            let mut ps: Vec<String> = Vec::new();
            ps.push(v);
            assert(ps@.map_values(|p: String| p@) =~= seq![v@]);
            Ok((col_ref, ps))
        },
        None => {
            if str_eq(op, "contains") {
                let v = scalar_param(&filter.value)?;
                push_str(&mut col_ref, " LIKE ?");
                let mut p = String::new();
                push_str(&mut p, "%");
                push_string(&mut p, &v);
                push_str(&mut p, "%");
                let mut ps: Vec<String> = Vec::new();
                ps.push(p);
                assert(ps@.map_values(|q: String| q@) =~= seq![p@]);
                Ok((col_ref, ps))
            } else if str_eq(op, "in") {
                match &filter.value {
                    FilterValue::Array { items, .. } => {
                        if items.len() == 0 {
                            return Err(ApiError::bad_request(String::from_str("in requires non-empty array")));
                        }
                        let (marks, ps) = in_params(items)?;
                        assert(marks@.map_values(|q: String| q@) =~= Seq::new(items@.len(), |_k: int| "?"@));
                        push_str(&mut col_ref, " IN (");
                        push_joined(&mut col_ref, &marks, ", ");
                        push_str(&mut col_ref, ")");
                        Ok((col_ref, ps))
                    },
                    _ => Err(ApiError::bad_request(String::from_str("in requires array value"))),
                }
            } else {
                let mut m = String::new();
                push_str(&mut m, "unsupported op: ");
                push_str(&mut m, op);
                Err(ApiError::bad_request(m))
            }
        },
    }
}

proof fn lemma_scalar_params_fail(items: Seq<FilterValue>, i: int)
    requires
        0 <= i < items.len(),
        scalar_param_text(items[i]) is None,
    ensures
        scalar_params(items) is None,
    decreases items.len(),
{
    if i < items.len() - 1 {
        lemma_scalar_params_fail(items.drop_last(), i);
    }
}

/// The conditions and parameters of a list of column filters, in order,
/// or the detail of the first one refused.
pub open spec fn compiled_filters(columns: Seq<Seq<char>>, alias: Seq<char>, filters: Seq<ColumnFilter>) -> Result<(Seq<Seq<char>>, Seq<Seq<char>>), Seq<char>>
    decreases filters.len(),
{
    if filters.len() == 0 {
        Ok((Seq::empty(), Seq::empty()))
    } else {
        match compiled_filters(columns, alias, filters.drop_last()) {
            Err(d) => Err(d),
            Ok((parts, bind)) => {
                let f = filters.last();
                match column_filter_sql(columns, alias, f.column@, f.op@, f.value) {
                    Err(d) => Err(d),
                    Ok((sql, ps)) => Ok((parts.push(sql), bind + ps)),
                }
            },
        }
    }
}

/// The conditions every query on `table` starts with, and their parameters.
pub open spec fn scope_conditions(table: Seq<char>, alias: Seq<char>, release_id: Seq<char>) -> (Seq<Seq<char>>, Seq<Seq<char>>) {
    let (parts, bind) = if release_scoped_table(table) {
        (seq![alias + ".release_id = ?1"@], seq![release_id])
    } else if table == "webhook_deliveries"@ {
        (seq!["EXISTS (SELECT 1 FROM webhooks wh WHERE wh.id = wd.webhook_id AND wh.release_id = ?1)"@], seq![release_id])
    } else {
        (Seq::empty(), Seq::empty())
    };
    if table == "queries"@ {
        (parts.push("COALESCE(q.playground, 0) = 0"@), bind)
    } else {
        (parts, bind)
    }
}

/// The `WHERE` clause made of `parts`.
pub open spec fn where_text(parts: Seq<Seq<char>>) -> Seq<char> {
    if parts.len() == 0 {
        "1=1"@
    } else {
        joined(parts, " AND "@)
    }
}

/// The `ORDER BY` clause for the requested sort column and direction.
pub open spec fn order_text(columns: Seq<Seq<char>>, alias: Seq<char>, sort: Option<Seq<char>>, dir: Option<Seq<char>>) -> Seq<char> {
    let col = match sort {
        Some(c) => c,
        None => Seq::empty(),
    };
    let direction = if dir == Some("desc"@) { "DESC"@ } else { "ASC"@ };
    if col.len() == 0 || !columns.contains(col) {
        alias + ".rowid"@
    } else {
        alias + "."@ + col + " "@ + direction
    }
}

/// `alias.c` for each column `c`, joined by commas.
pub open spec fn select_text(columns: Seq<Seq<char>>, alias: Seq<char>) -> Seq<char> {
    joined(columns.map_values(|c: Seq<char>| alias + "."@ + c), ", "@)
}

/// A planned viewer query.
#[derive(Debug)]
pub struct TableQuery {
    pub columns: Vec<String>,
    pub alias: &'static str,
    /// The `WHERE` clause, shared with the facet queries.
    pub where_clause: String,
    /// The parameters; the last two are the limit and the offset.
    pub bind: Vec<String>,
    pub sql: String,
}

/// How the viewer queries `table` for `release_id` with `params` and the
/// column filters parsed from `params.filter`.
pub open spec fn planned_query(
    table: Seq<char>,
    release_id: Seq<char>,
    sort: Option<Seq<char>>,
    dir: Option<Seq<char>>,
    limit: Option<u32>,
    offset: Option<u32>,
    filters: Seq<ColumnFilter>,
) -> Result<(Seq<Seq<char>>, Seq<char>, Seq<char>, Seq<Seq<char>>, Seq<char>), (u16, Seq<char>)> {
    if table == "api_keys"@ {
        Err((403, "table not available"@))
    } else {
        match table_column_names(table) {
            None => Err((400, "unknown table"@)),
            Some(columns) => {
                let alias = table_alias_name(table);
                let (scope_parts, scope_bind) = scope_conditions(table, alias, release_id);
                match compiled_filters(columns, alias, filters) {
                    Err(d) => Err((400, d)),
                    Ok((parts, fbind)) => {
                        let where_clause = where_text(scope_parts + parts);
                        let lim: u32 = match limit { Some(l) => if l < 500 { l } else { 500 }, None => 50 };
                        let off: u32 = match offset { Some(o) => o, None => 0 };
                        let bind = scope_bind + fbind + seq![decimal(lim as nat), decimal(off as nat)];
                        let sql = "SELECT "@ + select_text(columns, alias) + " FROM "@ + table + " "@ + alias + " WHERE "@
                            + where_clause + " ORDER BY "@ + order_text(columns, alias, sort, dir) + " LIMIT ?"@
                            + decimal((bind.len() - 1) as nat) + " OFFSET ?"@ + decimal(bind.len());
                        Ok((columns, alias, where_clause, bind, sql))
                    },
                }
            },
        }
    }
}

fn option_view(o: &Option<String>) -> (r: Option<&str>)
    ensures
        match o {
            Some(x) => r matches Some(y) && y@ == x@,
            None => r is None,
        },
{
    match o {
        Some(x) => Some(x.as_str()),
        None => None,
    }
}

/// The views of the optional text parameters.
pub open spec fn opt_view(o: Option<String>) -> Option<Seq<char>> {
    match o {
        Some(x) => Some(x@),
        None => None,
    }
}

fn compile_filters(columns: &Vec<String>, alias: &str, filters: &Vec<ColumnFilter>) -> (r: Result<(Vec<String>, Vec<String>), ApiError>)
    ensures
        match compiled_filters(columns@.map_values(|c: String| c@), alias@, filters@) {
            Ok((parts, bind)) => r matches Ok((p, b)) && p@.map_values(|x: String| x@) == parts
                && b@.map_values(|x: String| x@) == bind,
            Err(d) => r matches Err(e) && is_api_error(e, 400, "Bad Request"@, d),
        },
{
    let ghost cols = columns@.map_values(|c: String| c@);
    let mut parts: Vec<String> = Vec::new();
    let mut bind: Vec<String> = Vec::new();
    let mut i: usize = 0;
    assert(parts@.map_values(|x: String| x@) =~= Seq::<Seq<char>>::empty());
    assert(bind@.map_values(|x: String| x@) =~= Seq::<Seq<char>>::empty());
    assert(filters@.subrange(0, 0).len() == 0);
    while i < filters.len()
        invariant
            i <= filters@.len(),
            cols == columns@.map_values(|c: String| c@),
            compiled_filters(cols, alias@, filters@.subrange(0, i as int))
                == Ok::<(Seq<Seq<char>>, Seq<Seq<char>>), Seq<char>>((parts@.map_values(|x: String| x@), bind@.map_values(|x: String| x@))),
        decreases filters@.len() - i,
    {
        assert(filters@.subrange(0, i + 1).drop_last() == filters@.subrange(0, i as int));
        let (sql, mut ps) = match compile_column_filter(columns, alias, &filters[i]) {
            Ok(x) => x,
            Err(e) => {
                proof {
                    lemma_compiled_filters_fail(cols, alias@, filters@, i as int);
                }
                return Err(e);
            },
        };
        let ghost pv = parts@;
        let ghost bv = bind@;
        let ghost psv = ps@;
        parts.push(sql);
        bind.append(&mut ps);
        assert(parts@.map_values(|x: String| x@) =~= pv.map_values(|x: String| x@).push(sql@));
        assert(bind@.map_values(|x: String| x@) =~= bv.map_values(|x: String| x@) + psv.map_values(|x: String| x@));
        i += 1;
    }
    assert(filters@.subrange(0, filters@.len() as int) == filters@);
    Ok((parts, bind))
}

proof fn lemma_compiled_filters_fail(columns: Seq<Seq<char>>, alias: Seq<char>, filters: Seq<ColumnFilter>, i: int)
    requires
        0 <= i < filters.len(),
        compiled_filters(columns, alias, filters.subrange(0, i)) is Ok,
        column_filter_sql(columns, alias, filters[i].column@, filters[i].op@, filters[i].value) matches Err(d)
            && compiled_filters(columns, alias, filters.subrange(0, i + 1)) == Err::<(Seq<Seq<char>>, Seq<Seq<char>>), Seq<char>>(d),
    ensures
        compiled_filters(columns, alias, filters) == compiled_filters(columns, alias, filters.subrange(0, i + 1)),
    decreases filters.len(),
{
    if i + 1 < filters.len() {
        assert(filters.drop_last().subrange(0, i) == filters.subrange(0, i));
        assert(filters.drop_last().subrange(0, i + 1) == filters.subrange(0, i + 1));
        lemma_compiled_filters_fail(columns, alias, filters.drop_last(), i);
    } else {
        assert(filters.subrange(0, i + 1) == filters);
    }
}

fn select_list(columns: &Vec<String>, alias: &str) -> (r: String)
    ensures
        r@ == select_text(columns@.map_values(|c: String| c@), alias@),
{
    let mut items: Vec<String> = Vec::new();
    let mut i: usize = 0;
    while i < columns.len()
        invariant
            i <= columns@.len(),
            items@.map_values(|x: String| x@) == columns@.subrange(0, i as int).map_values(|c: String| alias@ + "."@ + c@),
        decreases columns@.len() - i,
    {
        let mut item = String::new();
        push_str(&mut item, alias);
        push_str(&mut item, ".");
        push_string(&mut item, &columns[i]);
        let ghost prev = items@;
        items.push(item);
        assert(items@.map_values(|x: String| x@) =~= prev.map_values(|x: String| x@).push(item@));
        assert(columns@.subrange(0, i + 1).map_values(|c: String| alias@ + "."@ + c@)
            =~= columns@.subrange(0, i as int).map_values(|c: String| alias@ + "."@ + c@).push(alias@ + "."@ + columns@[i as int]@));
        i += 1;
    }
    assert(columns@.subrange(0, columns@.len() as int) == columns@);
    assert(columns@.map_values(|c: String| alias@ + "."@ + c@) =~= columns@.map_values(|c: String| c@).map_values(
        |c: Seq<char>| alias@ + "."@ + c,
    ));
    let mut r = String::new();
    push_joined(&mut r, &items, ", ");
    r
}

fn scope_parts(table: &str, alias: &str, release_id: &str) -> (r: (Vec<String>, Vec<String>))
    ensures
        r.0@.map_values(|x: String| x@) == scope_conditions(table@, alias@, release_id@).0,
        r.1@.map_values(|x: String| x@) == scope_conditions(table@, alias@, release_id@).1,
{
    let mut parts: Vec<String> = Vec::new();
    let mut bind: Vec<String> = Vec::new();
    if is_release_scoped(table) {
        let mut p = String::new();
        push_str(&mut p, alias);
        push_str(&mut p, ".release_id = ?1");
        parts.push(p);
        bind.push(String::from_str(release_id));
    } else if str_eq(table, "webhook_deliveries") {
        parts.push(
            String::from_str("EXISTS (SELECT 1 FROM webhooks wh WHERE wh.id = wd.webhook_id AND wh.release_id = ?1)"),
        );
        bind.push(String::from_str(release_id));
    }
    if str_eq(table, "queries") {
        parts.push(String::from_str("COALESCE(q.playground, 0) = 0"));
    }
    let ghost scope = scope_conditions(table@, alias@, release_id@);
    assert(parts@.map_values(|x: String| x@) =~= scope.0);
    assert(bind@.map_values(|x: String| x@) =~= scope.1);
    (parts, bind)
}

fn where_of(parts: &Vec<String>) -> (r: String)
    ensures
        r@ == where_text(parts@.map_values(|x: String| x@)),
{
    if parts.len() == 0 {
        String::from_str("1=1")
    } else {
        let mut w = String::new();
        push_joined(&mut w, parts, " AND ");
        w
    }
}

fn order_clause(columns: &Vec<String>, alias: &str, sort: &Option<String>, dir: &Option<String>) -> (r: String)
    ensures
        r@ == order_text(columns@.map_values(|c: String| c@), alias@, opt_view(*sort), opt_view(*dir)),
{
    let sort_col: &str = match option_view(sort) {
        Some(c) => c,
        None => "",
    };
    let desc = match option_view(dir) {
        Some(d) => str_eq(d, "desc"),
        None => false,
    };
    proof {
        reveal_strlit("");
    }
    let mut order = String::new();
    push_str(&mut order, alias);
    if sort_col.is_empty() || !contains_string(columns, sort_col) {
        push_str(&mut order, ".rowid");
    } else {
        push_str(&mut order, ".");
        push_str(&mut order, sort_col);
        push_str(&mut order, " ");
        push_str(&mut order, if desc { "DESC" } else { "ASC" });
    }
    order
}

/// Plans the viewer's query on `table` for the release `release_id`: the
/// columns shown, the alias, the `WHERE` clause and parameters (release
/// scope, then the column filters in order, then limit and offset) and the
/// SQL text.
pub fn plan_table_query(table: &str, release_id: &str, params: &DbViewParams, filters: &Vec<ColumnFilter>) -> (r: Result<TableQuery, ApiError>)
    ensures
        match planned_query(table@, release_id@, opt_view(params.sort), opt_view(params.dir), params.limit, params.offset, filters@) {
            Ok((columns, alias, where_clause, bind, sql)) => r matches Ok(q) && q.columns@.map_values(|c: String| c@) == columns
                && q.alias@ == alias && q.where_clause@ == where_clause && q.bind@.map_values(|b: String| b@) == bind
                && q.sql@ == sql,
            Err((status, detail)) => r matches Err(e) && is_api_error(
                e,
                status,
                if status == 403 { "Forbidden"@ } else { "Bad Request"@ },
                detail,
            ),
        },
{
    if str_eq(table, "api_keys") {
        return Err(ApiError::forbidden(String::from_str("table not available")));
    }
    let columns = match table_columns(table) {
        Some(c) => c,
        None => return Err(ApiError::bad_request(String::from_str("unknown table"))),
    };
    let ghost cols = columns@.map_values(|c: String| c@);
    let alias = table_alias(table);
    let (mut parts, mut bind) = scope_parts(table, alias, release_id);
    let ghost scope = scope_conditions(table@, alias@, release_id@);
    let (mut fparts, mut fbind) = compile_filters(&columns, alias, filters)?;
    let ghost pv = parts@;
    let ghost fpv = fparts@;
    let ghost bv = bind@;
    let ghost fbv = fbind@;
    parts.append(&mut fparts);
    bind.append(&mut fbind);
    assert(parts@.map_values(|x: String| x@) =~= pv.map_values(|x: String| x@) + fpv.map_values(|x: String| x@));
    let where_clause = where_of(&parts);
    let lim: u32 = match params.limit {
        Some(l) => if l < 500 { l } else { 500 },
        None => 50,
    };
    let off: u32 = match params.offset {
        Some(o) => o,
        None => 0,
    };
    let mut ls = String::new();
    push_decimal(&mut ls, lim as u64);
    let mut os = String::new();
    push_decimal(&mut os, off as u64);
    let ghost bv2 = bind@;
    bind.push(ls);
    bind.push(os);
    assert(bind@.map_values(|x: String| x@) =~= bv.map_values(|x: String| x@) + fbv.map_values(|x: String| x@)
        + seq![decimal(lim as nat), decimal(off as nat)]);
    let order = order_clause(&columns, alias, &params.sort, &params.dir);
    let select = select_list(&columns, alias);
    let n = bind.len();
    let mut sql = String::new();
    push_str(&mut sql, "SELECT ");
    push_string(&mut sql, &select);
    push_str(&mut sql, " FROM ");
    push_str(&mut sql, table);
    push_str(&mut sql, " ");
    push_str(&mut sql, alias);
    push_str(&mut sql, " WHERE ");
    push_string(&mut sql, &where_clause);
    push_str(&mut sql, " ORDER BY ");
    push_string(&mut sql, &order);
    push_str(&mut sql, " LIMIT ?");
    push_decimal(&mut sql, (n - 1) as u64);
    push_str(&mut sql, " OFFSET ?");
    push_decimal(&mut sql, n as u64);
    Ok(TableQuery { columns, alias, where_clause, bind, sql })
}

/// The parameters a facet query binds: the viewer query's, without its
/// limit and offset.
pub fn facet_bind(bind: &Vec<String>) -> (r: Vec<String>)
    ensures
        r@.map_values(|x: String| x@) == bind@.subrange(0, if bind@.len() >= 2 { bind@.len() - 2 } else { 0 }).map_values(
            |x: String| x@,
        ),
{
    let n: usize = if bind.len() >= 2 { bind.len() - 2 } else { 0 };
    let mut r: Vec<String> = Vec::new();
    let mut i: usize = 0;
    while i < n
        invariant
            i <= n <= bind@.len(),
            r@.map_values(|x: String| x@) == bind@.subrange(0, i as int).map_values(|x: String| x@),
        decreases n - i,
    {
        let ghost prev = r@;
        let item = bind[i].clone();
        r.push(item);
        assert(r@.map_values(|x: String| x@) =~= prev.map_values(|x: String| x@).push(bind@[i as int]@));
        assert(bind@.subrange(0, i + 1).map_values(|x: String| x@) =~= bind@.subrange(0, i as int).map_values(|x: String| x@).push(
            bind@[i as int]@,
        ));
        i += 1;
    }
    r
}

/// The query for the distinct values of `col`, one more than a facet lists.
pub fn facet_sql(table: &str, alias: &str, col: &str, where_clause: &str) -> (r: String)
    ensures
        r@ == "SELECT DISTINCT "@ + alias@ + "."@ + col@ + " FROM "@ + table@ + " "@ + alias@ + " WHERE "@ + where_clause@
            + " ORDER BY "@ + alias@ + "."@ + col@ + " LIMIT "@ + decimal(FACET_MAX as nat + 1),
{
    let mut s = String::new();
    push_str(&mut s, "SELECT DISTINCT ");
    push_str(&mut s, alias);
    push_str(&mut s, ".");
    push_str(&mut s, col);
    push_str(&mut s, " FROM ");
    push_str(&mut s, table);
    push_str(&mut s, " ");
    push_str(&mut s, alias);
    push_str(&mut s, " WHERE ");
    push_str(&mut s, where_clause);
    push_str(&mut s, " ORDER BY ");
    push_str(&mut s, alias);
    push_str(&mut s, ".");
    push_str(&mut s, col);
    push_str(&mut s, " LIMIT ");
    push_decimal(&mut s, (FACET_MAX + 1) as u64);
    s
}

/// The facet of a column from the distinct values its query returned: the
/// values themselves, or only that there are more than a facet lists.
pub fn facet_of(values: Vec<FilterValue>) -> (r: ColumnFacet)
    ensures
        r.truncated == (values@.len() > FACET_MAX),
        r.truncated ==> r.values is None,
        !r.truncated ==> (r.values matches Some(v) && v@ == values@),
{
    if values.len() > FACET_MAX {
        ColumnFacet { truncated: true, values: None }
    } else {
        ColumnFacet { truncated: false, values: Some(values) }
    }
}

} // verus!
