//! Requests and responses of the ingest job status endpoint.
use vstd::prelude::*;

use crate::text::str_eq;

verus! {

#[derive(Clone, Debug)]
pub struct IngestJobsQuery {
    pub details: Option<bool>,
    pub limit: Option<u32>,
}
#[derive(Clone, Debug)]
pub struct IngestJobsSummary {
    pub total: u32,
    pub pending: u32,
    pub processing: u32,
    pub completed: u32,
    pub failed: u32,
    pub active: u32,
}
#[derive(Clone, Debug)]
pub struct IngestJobRecord {
    pub id: String,
    pub source_id: String,
    pub source_name: Option<String>,
    pub status: String,
    pub error: Option<String>,
    pub created_at: String,
    pub finished_at: Option<String>,
}
#[derive(Clone, Debug)]
pub struct IngestJobsStatusResponse {
    pub summary: IngestJobsSummary,
    pub jobs: Option<Vec<IngestJobRecord>>,
}

/// A row count as `u32::try_from(count).unwrap_or(0)` reads it.
pub open spec fn count_u32(count: i64) -> u32 {
    if 0 <= count <= u32::MAX { count as u32 } else { 0 }
}

/// The count the summary takes for `status`: that of the last row naming
/// it, or 0.
pub open spec fn status_count(rows: Seq<(String, i64)>, status: Seq<char>) -> u32
    decreases rows.len(),
{
    if rows.len() == 0 {
        0
    } else if rows.last().0@ == status {
        count_u32(rows.last().1)
    } else {
        status_count(rows.drop_last(), status)
    }
}

/// Sums up the per-status job counts of a release (rows of status and
/// count): each known status takes its count, the total and the active
/// (pending or processing) jobs are added up.
pub fn summarize_ingest_jobs(rows: &Vec<(String, i64)>) -> (r: IngestJobsSummary)
    requires
        status_count(rows@, "pending"@) + status_count(rows@, "processing"@) + status_count(rows@, "completed"@)
            + status_count(rows@, "failed"@) <= u32::MAX,
    ensures
        r.pending == status_count(rows@, "pending"@),
        r.processing == status_count(rows@, "processing"@),
        r.completed == status_count(rows@, "completed"@),
        r.failed == status_count(rows@, "failed"@),
        r.total == r.pending + r.processing + r.completed + r.failed,
        r.active == r.pending + r.processing,
{
    let mut pending: u32 = 0;
    let mut processing: u32 = 0;
    let mut completed: u32 = 0;
    let mut failed: u32 = 0;
    let mut i: usize = 0;
    while i < rows.len()
        invariant
            i <= rows@.len(),
            pending == status_count(rows@.subrange(0, i as int), "pending"@),
            processing == status_count(rows@.subrange(0, i as int), "processing"@),
            completed == status_count(rows@.subrange(0, i as int), "completed"@),
            failed == status_count(rows@.subrange(0, i as int), "failed"@),
        decreases rows@.len() - i,
    {
        assert(rows@.subrange(0, i + 1).drop_last() == rows@.subrange(0, i as int));
        let status = rows[i].0.as_str();
        let c = rows[i].1;
        let count: u32 = if 0 <= c && c <= 4294967295 { c as u32 } else { 0 };
        proof {
            reveal_strlit("pending");
            reveal_strlit("processing");
            reveal_strlit("completed");
            reveal_strlit("failed");
            assert("pending"@.len() == 7 && "processing"@.len() == 10 && "completed"@.len() == 9 && "failed"@.len() == 6);
            assert("pending"@ != "processing"@ && "pending"@ != "completed"@ && "pending"@ != "failed"@);
            assert("processing"@ != "completed"@ && "processing"@ != "failed"@ && "completed"@ != "failed"@);
            assert(rows@.subrange(0, i + 1).last() == rows@[i as int]);
        }
        if str_eq(status, "pending") {
            pending = count;
        } else if str_eq(status, "processing") {
            processing = count;
        } else if str_eq(status, "completed") {
            completed = count;
        } else if str_eq(status, "failed") {
            failed = count;
        }
        i += 1;
    }
    assert(rows@.subrange(0, rows@.len() as int) == rows@);
    IngestJobsSummary {
        total: pending + processing + completed + failed,
        pending,
        processing,
        completed,
        failed,
        active: pending + processing,
    }
}

/// How many jobs the status lists: `None` unless details are asked for,
/// then the requested number (100 by default), at most 500.
pub fn jobs_limit(query: &IngestJobsQuery) -> (r: Option<u32>)
    ensures
        r == match query.details {
            Some(true) => Some(
                match query.limit {
                    Some(l) => if l < 500 { l } else { 500 },
                    None => 100,
                },
            ),
            _ => None,
        },
{
    match query.details {
        Some(true) => Some(
            match query.limit {
                Some(l) => if l < 500 { l } else { 500 },
                None => 100,
            },
        ),
        _ => None,
    }
}

} // verus!
