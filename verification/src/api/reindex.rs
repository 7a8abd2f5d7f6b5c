//! Requests and progress reports of batch re-indexing: which sources a
//! re-index covers, and how a batch's progress is summed up.
use vstd::prelude::*;

use crate::api::ingest_jobs::{status_count, summarize_ingest_jobs};
use crate::filter::dsl::{FilterError, FilterExpr};
use crate::filter::sql::{compile_filter, compile_spec, Fault, SqlFilter};
use crate::json::string_views;
use crate::text::push_str;

verus! {

#[derive(Clone, Debug)]
pub struct ReindexBatchPath {
    pub tag: String,
    pub batch_id: String,
}
#[derive(Clone, Debug)]
pub struct ReindexResult {
    pub source_id: String,
    pub job_id: String,
}
pub struct ReindexBatchResponse {
    pub batch_id: String,
    pub items: Vec<crate::api::batch::BatchItemResult<ReindexResult>>,
}
#[derive(Clone, Debug)]
pub struct ReindexBatchSummary {
    pub batch_id: String,
    pub total: u32,
    pub pending: u32,
    pub processing: u32,
    pub completed: u32,
    pub failed: u32,
    pub active: u32,
}
#[derive(Clone, Debug)]
pub struct ReindexBatchJob {
    pub id: String,
    pub source_id: String,
    pub source_name: Option<String>,
    pub status: String,
    pub error: Option<String>,
    pub created_at: String,
    pub finished_at: Option<String>,
}
#[derive(Clone, Debug)]
pub struct ReindexBatchEvent {
    pub batch_id: String,
    pub summary: ReindexBatchSummary,
    pub jobs: Vec<ReindexBatchJob>,
}

/// The query for the release's sources that a filtered re-index covers,
/// oldest first, and its parameters (those of the filter).
pub open spec fn reindex_sources_plan(release_id: Seq<char>, filter: Option<FilterExpr>) -> Result<(Seq<char>, Seq<Seq<char>>), Fault> {
    let own = "s.release_id = '"@ + release_id + "'"@;
    let query = |w: Seq<char>| "SELECT s.id FROM sources s WHERE "@ + w + " ORDER BY s.created_at ASC"@;
    match filter {
        None => Ok((query(own), Seq::empty())),
        Some(f) => {
            let (sql, ps) = compile_spec(f, "s"@, Seq::empty());
            match sql {
                Err(e) => Err(e),
                Ok(c) => Ok((query(own + " AND "@ + c), ps)),
            }
        },
    }
}

/// Plans the query for the sources a re-index covers, as
/// `reindex_sources_plan` says.
pub fn reindex_sources_query(release_id: &str, filter: Option<&FilterExpr>) -> (r: Result<SqlFilter, FilterError>)
    ensures
        match reindex_sources_plan(
            release_id@,
            match filter {
                Some(f) => Some(*f),
                None => None,
            },
        ) {
            Ok((sql, ps)) => r matches Ok(p) && p.sql@ == sql && string_views(p.params@) == ps,
            Err(e) => r matches Err(x) && x@ == e,
        },
{
    let mut w = String::new();
    push_str(&mut w, "s.release_id = '");
    push_str(&mut w, release_id);
    push_str(&mut w, "'");
    let mut params: Vec<String> = Vec::new();
    match filter {
        Some(f) => match compile_filter(f, "s") {
            Ok(compiled) => {
                push_str(&mut w, " AND ");
                push_str(&mut w, compiled.sql.as_str());
                params = compiled.params;
            },
            Err(e) => return Err(e),
        },
        None => {
            assert(string_views(params@) == Seq::<Seq<char>>::empty());
        },
    }
    let mut sql = String::new();
    push_str(&mut sql, "SELECT s.id FROM sources s WHERE ");
    push_str(&mut sql, w.as_str());
    push_str(&mut sql, " ORDER BY s.created_at ASC");
    Ok(SqlFilter { sql, params })
}

/// Sums up a batch's jobs from the per-status counts (rows of status and
/// count), as the release's job status does.
pub fn batch_summary(batch_id: &str, rows: &Vec<(String, i64)>) -> (r: ReindexBatchSummary)
    requires
        status_count(rows@, "pending"@) + status_count(rows@, "processing"@) + status_count(rows@, "completed"@)
            + status_count(rows@, "failed"@) <= u32::MAX,
    ensures
        r.batch_id@ == batch_id@,
        r.pending == status_count(rows@, "pending"@),
        r.processing == status_count(rows@, "processing"@),
        r.completed == status_count(rows@, "completed"@),
        r.failed == status_count(rows@, "failed"@),
        r.total == r.pending + r.processing + r.completed + r.failed,
        r.active == r.pending + r.processing,
{
    let s = summarize_ingest_jobs(rows);
    ReindexBatchSummary {
        batch_id: String::from_str(batch_id),
        total: s.total,
        pending: s.pending,
        processing: s.processing,
        completed: s.completed,
        failed: s.failed,
        active: s.active,
    }
}

} // verus!
