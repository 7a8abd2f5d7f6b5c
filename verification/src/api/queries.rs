//! Query parameters of the query endpoints, and how the listings of
//! sources, chunks and queries are read: the release's rows, narrowed by
//! the filter, newest first, one page at a time.
use vstd::prelude::*;

use crate::filter::dsl::{FilterError, FilterExpr};
use crate::filter::sql::{compile_filter, compile_spec, Fault, SqlFilter};
use crate::json::string_views;
use crate::text::{decimal, push_decimal, push_str};

verus! {

#[derive(Clone, Debug)]
pub struct ListQueryParams {
    pub filter: Option<String>,
    pub limit: Option<u32>,
    pub offset: Option<u32>,
}
#[derive(Clone, Debug)]
pub struct QueryParams {
    pub ts_start: Option<i64>,
    pub store_payload: Option<bool>,
    pub playground: Option<bool>,
}

/// The rows a listing reads.
#[derive(Clone, Copy, Debug, PartialEq, Eq, Structural)]
pub enum ListedTable {
    Sources,
    Chunks,
    Queries,
}

/// The alias the listing's table goes by, which the filter's columns take.
pub open spec fn listed_alias(t: ListedTable) -> Seq<char> {
    match t {
        ListedTable::Sources => "s"@,
        ListedTable::Chunks => "c"@,
        ListedTable::Queries => "q"@,
    }
}

/// The alias of the listing's table.
pub fn listing_alias(t: ListedTable) -> (r: &'static str)
    ensures
        r@ == listed_alias(t),
{
    match t {
        ListedTable::Sources => "s",
        ListedTable::Chunks => "c",
        ListedTable::Queries => "q",
    }
}

/// How many rows a page holds: 50 unless asked, at most 500.
pub open spec fn page_limit(limit: Option<u32>) -> u32 {
    match limit {
        Some(l) => if l < 500 {
            l
        } else {
            500
        },
        None => 50,
    }
}

/// The condition of a listing: the release's rows, and those the filter
/// selects when there is one.
pub open spec fn listing_where(alias: Seq<char>, release_id: Seq<char>, filter_sql: Option<Seq<char>>) -> Seq<char> {
    let own = alias + ".release_id = '"@ + release_id + "'"@;
    match filter_sql {
        None => own,
        Some(f) => own + " AND "@ + f,
    }
}

/// The text of a listing's query, with `n` parameters bound, of which the
/// last two are the page's size and offset.
pub open spec fn listing_sql(t: ListedTable, where_clause: Seq<char>, n: nat) -> Seq<char> {
    let tail = decimal((n - 1) as nat) + " OFFSET ?"@ + decimal(n);
    match t {
        ListedTable::Sources => "SELECT s.id, s.name, s.type, s.uri, s.content_hash, s.config, s.metadata, s.status, s.error, s.created_at, s.updated_at,\n                (SELECT COUNT(*) FROM chunks c WHERE c.source_id = s.id) AS chunk_count\n         FROM sources s WHERE "@ + where_clause + "\n         ORDER BY s.created_at DESC LIMIT ?"@ + tail,
        ListedTable::Chunks => "SELECT id, source_id, ordinal, content, metadata, provenance, token_count, created_at\n         FROM chunks c WHERE "@ + where_clause + "\n         ORDER BY created_at DESC LIMIT ?"@ + tail,
        ListedTable::Queries => "SELECT id, text, filters, params, playground, upstream_ms, embed_ms, search_ms, rerank_ms,\n                store_ms, total_ragdoll_ms, generation_ms, generation_total_ms, prompt_tokens,\n                completion_tokens, llm_model_id, candidate_count, result_count, response_status, created_at\n         FROM queries q\n         WHERE "@ + where_clause + "\n         ORDER BY created_at DESC\n         LIMIT ?"@ + tail,
    }
}

/// The query of a listing and its parameters: those of the filter, then
/// the page's size and offset.
pub open spec fn listing_plan(
    t: ListedTable,
    release_id: Seq<char>,
    filter: Option<FilterExpr>,
    limit: Option<u32>,
    offset: Option<u32>,
) -> Result<(Seq<char>, Seq<Seq<char>>), Fault> {
    let page = seq![decimal(page_limit(limit) as nat), decimal((match offset { Some(o) => o, None => 0u32 }) as nat)];
    match filter {
        None => Ok((listing_sql(t, listing_where(listed_alias(t), release_id, None), 2), page)),
        Some(f) => {
            let (sql, ps) = compile_spec(f, listed_alias(t), Seq::empty());
            match sql {
                Err(e) => Err(e),
                Ok(s) => Ok(
                    (listing_sql(t, listing_where(listed_alias(t), release_id, Some(s)), ps.len() + 2), ps + page),
                ),
            }
        },
    }
}

/// Plans a listing of the release's rows, as `listing_plan` says.
pub fn plan_listing(
    t: ListedTable,
    release_id: &str,
    filter: Option<&FilterExpr>,
    limit: Option<u32>,
    offset: Option<u32>,
) -> (r: Result<SqlFilter, FilterError>)
    ensures
        match listing_plan(
            t,
            release_id@,
            match filter {
                Some(f) => Some(*f),
                None => None,
            },
            limit,
            offset,
        ) {
            Ok((sql, ps)) => r matches Ok(p) && p.sql@ == sql && string_views(p.params@) == ps,
            Err(e) => r matches Err(x) && x@ == e,
        },
{
    let alias = listing_alias(t);
    let mut where_clause = String::new();
    push_str(&mut where_clause, alias);
    push_str(&mut where_clause, ".release_id = '");
    push_str(&mut where_clause, release_id);
    push_str(&mut where_clause, "'");
    let mut params: Vec<String> = Vec::new();
    match filter {
        Some(f) => match compile_filter(f, alias) {
            Ok(compiled) => {
                push_str(&mut where_clause, " AND ");
                push_str(&mut where_clause, compiled.sql.as_str());
                params = compiled.params;
            },
            Err(e) => return Err(e),
        },
        None => {},
    }
    let ghost filter_params = string_views(params@);
    let page: u32 = match limit {
        Some(l) => if l < 500 { l } else { 500 },
        None => 50,
    };
    let off: u32 = match offset {
        Some(o) => o,
        None => 0,
    };
    let mut a = String::new();
    push_decimal(&mut a, page as u64);
    let mut b = String::new();
    push_decimal(&mut b, off as u64);
    params.push(a);
    params.push(b);
    assert(string_views(params@) == filter_params + seq![decimal(page as nat), decimal(off as nat)]);
    let n = params.len();
    let mut sql = String::new();
    match t {
        ListedTable::Sources => push_str(&mut sql, "SELECT s.id, s.name, s.type, s.uri, s.content_hash, s.config, s.metadata, s.status, s.error, s.created_at, s.updated_at,\n                (SELECT COUNT(*) FROM chunks c WHERE c.source_id = s.id) AS chunk_count\n         FROM sources s WHERE "),
        ListedTable::Chunks => push_str(&mut sql, "SELECT id, source_id, ordinal, content, metadata, provenance, token_count, created_at\n         FROM chunks c WHERE "),
        ListedTable::Queries => push_str(&mut sql, "SELECT id, text, filters, params, playground, upstream_ms, embed_ms, search_ms, rerank_ms,\n                store_ms, total_ragdoll_ms, generation_ms, generation_total_ms, prompt_tokens,\n                completion_tokens, llm_model_id, candidate_count, result_count, response_status, created_at\n         FROM queries q\n         WHERE "),
    }
    push_str(&mut sql, where_clause.as_str());
    match t {
        ListedTable::Sources => push_str(&mut sql, "\n         ORDER BY s.created_at DESC LIMIT ?"),
        ListedTable::Chunks => push_str(&mut sql, "\n         ORDER BY created_at DESC LIMIT ?"),
        ListedTable::Queries => push_str(&mut sql, "\n         ORDER BY created_at DESC\n         LIMIT ?"),
    }
    push_decimal(&mut sql, (n - 1) as u64);
    push_str(&mut sql, " OFFSET ?");
    push_decimal(&mut sql, n as u64);
    Ok(SqlFilter { sql, params })
}

} // verus!
