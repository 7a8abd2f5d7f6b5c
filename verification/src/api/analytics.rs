//! Query analytics: reading the requested status groups, and the filter and
//! SQL the analytics queries run with.
use vstd::prelude::*;

use crate::api::batch::{is_api_error, ApiError};
use crate::backup::{lemma_text_lt_strict_total, text_less, text_lt};
use crate::json::{json_object_key_list, read_json_object_keys, string_views};
use crate::text::{chars_of, chars_split, chars_trim, decimal, joined, push_decimal, push_joined, push_str, push_string, split_on, str_eq, trim};

verus! {

/// The days an analytics window spans when none is asked for.
pub fn default_days() -> (r: u32)
    ensures
        r == 14,
{
    14
}

/// The query parameters of the analytics endpoint.
#[derive(Debug)]
pub struct AnalyticsParams {
    pub lens: String,
    pub tag: String,
    pub days: u32,
    pub start: Option<String>,
    pub end: Option<String>,
    /// Comma-separated status groups: 2xx, 4xx, 5xx.
    pub status: Option<String>,
}

/// Requests per day, by status group.
#[derive(Clone, Debug, PartialEq, Eq)]
pub struct DailyRequestCount {
    pub day: String,
    pub s2xx: i64,
    pub s4xx: i64,
    pub s5xx: i64,
}

/// How many chunks a source has.
#[derive(Clone, Debug, PartialEq, Eq)]
pub struct SourceChunkCount {
    pub source_id: String,
    pub name: String,
    pub chunk_count: i64,
}

/// How many queries retrieved a chunk.
#[derive(Clone, Debug, PartialEq, Eq)]
pub struct QueryChunkHit {
    pub chunk_id: String,
    pub source_id: String,
    pub source_name: String,
    pub hit_count: i64,
}

/// The `WHERE` clause the analytics queries share, with its parameters.
#[derive(Debug)]
pub struct QueryFilter {
    pub sql: String,
    pub bind: Vec<String>,
}

/// The status groups a client can ask for.
pub open spec fn known_group(t: Seq<char>) -> bool {
    t == "2xx"@ || t == "4xx"@ || t == "5xx"@
}

/// Every status group, in order.
pub open spec fn all_groups() -> Seq<Seq<char>> {
    seq!["2xx"@, "4xx"@, "5xx"@]
}

/// The known groups among the comma-separated `parts`, trimmed, each once,
/// in the order first named.
pub open spec fn collect_groups(parts: Seq<Seq<char>>) -> Seq<Seq<char>>
    decreases parts.len(),
{
    if parts.len() == 0 {
        Seq::empty()
    } else {
        let acc = collect_groups(parts.drop_last());
        let t = trim(parts.last());
        if known_group(t) && !acc.contains(t) {
            acc.push(t)
        } else {
            acc
        }
    }
}

/// The status groups a request asks for: those it names, or all of them
/// when it names none.
pub open spec fn status_groups(raw: Option<Seq<char>>) -> Seq<Seq<char>> {
    match raw {
        None => all_groups(),
        Some(r) => {
            let g = collect_groups(split_on(r, ','));
            if g.len() == 0 {
                all_groups()
            } else {
                g
            }
        },
    }
}

proof fn lemma_collect_groups(parts: Seq<Seq<char>>)
    ensures
        forall|i: int| 0 <= i < collect_groups(parts).len() ==> known_group(#[trigger] collect_groups(parts)[i]),
        forall|i: int, j: int|
            0 <= i < j < collect_groups(parts).len() ==> #[trigger] collect_groups(parts)[i] != #[trigger] collect_groups(parts)[j],
    decreases parts.len(),
{
    if parts.len() > 0 {
        lemma_collect_groups(parts.drop_last());
        let acc = collect_groups(parts.drop_last());
        let t = trim(parts.last());
        if known_group(t) && !acc.contains(t) {
            assert forall|i: int, j: int| 0 <= i < j < acc.push(t).len() implies #[trigger] acc.push(t)[i] != #[trigger] acc.push(
                t,
            )[j] by {
                if j == acc.len() {
                    assert(acc.push(t)[i] == acc[i]);
                    if acc[i] == t {
                        assert(acc.contains(t));
                    }
                }
            }
        }
    }
}

/// The status groups a request asks for are known groups, each named once,
/// and there is always at least one.
pub proof fn lemma_status_groups_distinct(raw: Option<Seq<char>>)
    ensures
        status_groups(raw).len() >= 1,
        forall|i: int| 0 <= i < status_groups(raw).len() ==> known_group(#[trigger] status_groups(raw)[i]),
        forall|i: int, j: int|
            0 <= i < j < status_groups(raw).len() ==> #[trigger] status_groups(raw)[i] != #[trigger] status_groups(raw)[j],
{
    reveal_strlit("2xx");
    reveal_strlit("4xx");
    reveal_strlit("5xx");
    let g = all_groups();
    assert("2xx"@[0] != "4xx"@[0] && "2xx"@[0] != "5xx"@[0] && "4xx"@[0] != "5xx"@[0]);
    assert forall|i: int, j: int| 0 <= i < j < g.len() implies #[trigger] g[i] != #[trigger] g[j] by {
        assert(g[i][0] != g[j][0]);
    }
    match raw {
        Some(r) => lemma_collect_groups(split_on(r, ',')),
        None => {},
    }
}

fn group_name(t: &Vec<char>) -> (r: Option<&'static str>)
    ensures
        match r {
            Some(g) => known_group(t@) && g@ == t@,
            None => !known_group(t@),
        },
{
    let s = crate::text::string_from_chars(t);
    if str_eq(s.as_str(), "2xx") {
        Some("2xx")
    } else if str_eq(s.as_str(), "4xx") {
        Some("4xx")
    } else if str_eq(s.as_str(), "5xx") {
        Some("5xx")
    } else {
        None
    }
}

fn contains_name(v: &Vec<&'static str>, x: &str) -> (r: bool)
    ensures
        r == v@.map_values(|s: &str| s@).contains(x@),
{
    let ghost views = v@.map_values(|s: &str| s@);
    let mut i: usize = 0;
    while i < v.len()
        invariant
            i <= v@.len(),
            views == v@.map_values(|s: &str| s@),
            forall|k: int| 0 <= k < i ==> views[k] != x@,
        decreases v@.len() - i,
    {
        if str_eq(v[i], x) {
            assert(views[i as int] == x@);
            return true;
        }
        i += 1;
    }
    false
}

fn every_group() -> (r: Vec<&'static str>)
    ensures
        r@.map_values(|s: &str| s@) == all_groups(),
{
    let mut r: Vec<&'static str> = Vec::new();
    r.push("2xx");
    r.push("4xx");
    r.push("5xx");
    assert(r@.map_values(|s: &str| s@) =~= all_groups());
    r
}

/// The status groups named in the `status` parameter (comma-separated,
/// spaces ignored, unknown names and repeats dropped), or all of them.
pub fn parse_status_groups(raw: Option<&str>) -> (r: Vec<&'static str>)
    ensures
        r@.map_values(|s: &str| s@) == status_groups(
            match raw {
                Some(x) => Some(x@),
                None => None,
            },
        ),
{
    let raw = match raw {
        Some(x) => x,
        None => return every_group(),
    };
    let parts = chars_split(&chars_of(raw), ',');
    let ghost pv = parts@.map_values(|p: Vec<char>| p@);
    let mut groups: Vec<&'static str> = Vec::new();
    let mut i: usize = 0;
    while i < parts.len()
        invariant
            i <= parts@.len(),
            pv == parts@.map_values(|p: Vec<char>| p@),
            groups@.map_values(|s: &str| s@) == collect_groups(pv.subrange(0, i as int)),
        decreases parts@.len() - i,
    {
        assert(pv.subrange(0, i + 1).drop_last() == pv.subrange(0, i as int));
        let t = chars_trim(&parts[i]);
        match group_name(&t) {
            Some(g) => {
                if !contains_name(&groups, g) {
                    let ghost gv = groups@;
                    groups.push(g);
                    assert(groups@.map_values(|s: &str| s@) =~= gv.map_values(|s: &str| s@).push(g@));
                }
            },
            None => {},
        }
        i += 1;
    }
    assert(pv.subrange(0, pv.len() as int) == pv);
    if groups.len() == 0 {
        every_group()
    } else {
        groups
    }
}

/// The SQL condition that selects status group `g` on column `col`.
pub open spec fn group_condition(g: Seq<char>, col: Seq<char>) -> Option<Seq<char>> {
    if g == "2xx"@ {
        Some("("@ + col + " >= 200 AND "@ + col + " < 300)"@)
    } else if g == "4xx"@ {
        Some("("@ + col + " >= 400 AND "@ + col + " < 500)"@)
    } else if g == "5xx"@ {
        Some("("@ + col + " >= 500)"@)
    } else {
        None
    }
}

/// The conditions of the known groups among `groups`, in order.
pub open spec fn group_conditions(groups: Seq<Seq<char>>, col: Seq<char>) -> Seq<Seq<char>>
    decreases groups.len(),
{
    if groups.len() == 0 {
        Seq::empty()
    } else {
        let acc = group_conditions(groups.drop_last(), col);
        match group_condition(groups.last(), col) {
            Some(c) => acc.push(c),
            None => acc,
        }
    }
}

/// The SQL condition that selects any of `groups` on `col`.
pub open spec fn status_sql_text(groups: Seq<Seq<char>>, col: Seq<char>) -> Seq<char> {
    let parts = group_conditions(groups, col);
    if parts.len() == 0 {
        "1=1"@
    } else {
        "("@ + joined(parts, " OR "@) + ")"@
    }
}

/// The SQL condition that selects responses in any of `groups` by the
/// status column `col`.
pub fn status_group_sql(groups: &[&str], col: &str) -> (r: String)
    ensures
        r@ == status_sql_text(groups@.map_values(|g: &str| g@), col@),
{
    let ghost gv = groups@.map_values(|g: &str| g@);
    let mut parts: Vec<String> = Vec::new();
    let mut i: usize = 0;
    while i < groups.len()
        invariant
            i <= groups@.len(),
            gv == groups@.map_values(|g: &str| g@),
            parts@.map_values(|p: String| p@) == group_conditions(gv.subrange(0, i as int), col@),
        decreases groups@.len() - i,
    {
        assert(gv.subrange(0, i + 1).drop_last() == gv.subrange(0, i as int));
        let g = groups[i];
        let ghost before = parts@;
        let mut c = String::new();
        let known = if str_eq(g, "2xx") {
            push_str(&mut c, "(");
            push_str(&mut c, col);
            push_str(&mut c, " >= 200 AND ");
            push_str(&mut c, col);
            push_str(&mut c, " < 300)");
            true
        } else if str_eq(g, "4xx") {
            push_str(&mut c, "(");
            push_str(&mut c, col);
            push_str(&mut c, " >= 400 AND ");
            push_str(&mut c, col);
            push_str(&mut c, " < 500)");
            true
        } else if str_eq(g, "5xx") {
            push_str(&mut c, "(");
            push_str(&mut c, col);
            push_str(&mut c, " >= 500)");
            true
        } else {
            false
        };
        if known {
            parts.push(c);
            assert(parts@.map_values(|p: String| p@) =~= before.map_values(|p: String| p@).push(c@));
        }
        i += 1;
    }
    assert(gv.subrange(0, gv.len() as int) == gv);
    if parts.len() == 0 {
        String::from_str("1=1")
    } else {
        let mut r = String::new();
        push_str(&mut r, "(");
        push_joined(&mut r, &parts, " OR ");
        push_str(&mut r, ")");
        r
    }
}

/// The column that scopes queries for the requested lens.
pub open spec fn lens_column(lens: Seq<char>) -> Option<Seq<char>> {
    if lens == "stage"@ {
        Some("q.stage_id"@)
    } else if lens == "release"@ {
        Some("q.release_id"@)
    } else {
        None
    }
}

/// The column that scopes analytics queries for `lens`; a bad request for a
/// lens other than `stage` and `release`.
pub fn analytics_scope_column(lens: &str) -> (r: Result<&'static str, ApiError>)
    ensures
        match lens_column(lens@) {
            Some(c) => r matches Ok(x) && x@ == c,
            None => r matches Err(e) && is_api_error(e, 400, "Bad Request"@, "lens must be stage or release"@),
        },
{
    if str_eq(lens, "stage") {
        Ok("q.stage_id")
    } else if str_eq(lens, "release") {
        Ok("q.release_id")
    } else {
        Err(ApiError::bad_request(String::from_str("lens must be stage or release")))
    }
}

/// The analytics window in days: the requested number, within 1 to 365.
pub open spec fn clamp_days(days: u32) -> u32 {
    if days < 1 {
        1
    } else if days > 365 {
        365
    } else {
        days
    }
}

/// The date condition and its parameters (numbered after the scope
/// parameter): an explicit range when a start or an end is given, else the
/// last `days` days.
pub open spec fn date_condition(days: u32, start: Option<Seq<char>>, end: Option<Seq<char>>) -> (Seq<char>, Seq<Seq<char>>) {
    if start is Some || end is Some {
        let s = match start {
            Some(x) => x,
            None => "1970-01-01"@,
        };
        let e = match end {
            Some(x) => x,
            None => "9999-12-31"@,
        };
        ("q.created_at >= ?2 AND q.created_at < date(?3, '+1 day')"@, seq![s, e])
    } else {
        ("q.created_at >= datetime('now', ?2)"@, seq!["-"@ + decimal(clamp_days(days) as nat) + " days"@])
    }
}

/// Without an explicit range, the window is the last `days` days exactly
/// as requested when `days` is 1 to 365, and only values outside that range
/// are brought to the nearest bound: the bound date parameter is `-<n> days`
/// with `n` the requested days, 1 for 0, and 365 above it.
pub proof fn lemma_window_days(days: u32)
    ensures
        1 <= days <= 365 ==> date_condition(days, None, None).1 == seq!["-"@ + decimal(days as nat) + " days"@],
        days == 0 ==> date_condition(days, None, None).1 == seq!["-"@ + decimal(1) + " days"@],
        days > 365 ==> date_condition(days, None, None).1 == seq!["-"@ + decimal(365) + " days"@],
        date_condition(days, None, None).0 == "q.created_at >= datetime('now', ?2)"@,
{
}

/// An explicit start or end replaces the window of days: the range from
/// the start (or 1970-01-01) to the end (or 9999-12-31), whatever `days` is.
pub proof fn lemma_explicit_range(days: u32, start: Option<Seq<char>>, end: Option<Seq<char>>)
    requires
        start is Some || end is Some,
    ensures
        date_condition(days, start, end).1 == seq![
            match start {
                Some(x) => x,
                None => "1970-01-01"@,
            },
            match end {
                Some(x) => x,
                None => "9999-12-31"@,
            },
        ],
        date_condition(days, start, end) == date_condition(0, start, end),
{
}

/// The view of an optional text parameter.
pub open spec fn opt_text(o: Option<String>) -> Option<Seq<char>> {
    match o {
        Some(x) => Some(x@),
        None => None,
    }
}

/// Builds the filter the analytics queries share: the scope column bound
/// to `scope_id`, no playground queries, the date window and the status
/// groups.
pub fn build_query_filter(scope_col: &str, scope_id: String, params: &AnalyticsParams) -> (r: QueryFilter)
    ensures
        ({
            let (date_sql, date_bind) = date_condition(params.days, opt_text(params.start), opt_text(params.end));
            let groups = status_groups(opt_text(params.status));
            &&& r.sql@ == scope_col@ + " = ?1 AND COALESCE(q.playground,0)=0 AND "@ + date_sql + " AND "@
                + status_sql_text(groups, "q.response_status"@)
            &&& r.bind@.map_values(|b: String| b@) == seq![scope_id@] + date_bind
        }),
{
    let days: u32 = if params.days < 1 {
        1
    } else if params.days > 365 {
        365
    } else {
        params.days
    };
    let status_raw: Option<&str> = match &params.status {
        Some(x) => Some(x.as_str()),
        None => None,
    };
    let groups = parse_status_groups(status_raw);
    let status_sql = status_group_sql(groups.as_slice(), "q.response_status");
    let ghost sid = scope_id@;
    let mut bind: Vec<String> = Vec::new();
    bind.push(scope_id);
    let mut date_sql = String::new();
    if params.start.is_some() || params.end.is_some() {
        let start = match &params.start {
            Some(x) => x.clone(),
            None => String::from_str("1970-01-01"),
        };
        let end = match &params.end {
            Some(x) => x.clone(),
            None => String::from_str("9999-12-31"),
        };
        bind.push(start);
        bind.push(end);
        push_str(&mut date_sql, "q.created_at >= ?");
        push_decimal(&mut date_sql, (bind.len() - 1) as u64);
        push_str(&mut date_sql, " AND q.created_at < date(?");
        push_decimal(&mut date_sql, bind.len() as u64);
        push_str(&mut date_sql, ", '+1 day')");
        proof {
            reveal_strlit("q.created_at >= ?2 AND q.created_at < date(?3, '+1 day')");
            reveal_strlit("q.created_at >= ?");
            reveal_strlit(" AND q.created_at < date(?");
            reveal_strlit(", '+1 day')");
            assert(decimal(2) == seq!['2']);
            assert(decimal(3) == seq!['3']);
        }
        assert(bind@.map_values(|b: String| b@) =~= seq![sid, start@, end@]);
    } else {
        let mut d = String::new();
        push_str(&mut d, "-");
        push_decimal(&mut d, days as u64);
        push_str(&mut d, " days");
        bind.push(d);
        push_str(&mut date_sql, "q.created_at >= datetime('now', ?");
        push_decimal(&mut date_sql, bind.len() as u64);
        push_str(&mut date_sql, ")");
        proof {
            reveal_strlit("q.created_at >= datetime('now', ?2)");
            reveal_strlit("q.created_at >= datetime('now', ?");
            reveal_strlit(")");
            assert(decimal(2) == seq!['2']);
        }
        assert(bind@.map_values(|b: String| b@) =~= seq![sid, d@]);
    }
    let mut sql = String::new();
    push_str(&mut sql, scope_col);
    push_str(&mut sql, " = ?1 AND COALESCE(q.playground,0)=0 AND ");
    push_string(&mut sql, &date_sql);
    push_str(&mut sql, " AND ");
    push_string(&mut sql, &status_sql);
    QueryFilter { sql, bind }
}

/// `prefix`, the filter, then `suffix`.
fn around(prefix: &str, filter_sql: &str, suffix: &str) -> (r: String)
    ensures
        r@ == prefix@ + filter_sql@ + suffix@,
{
    let mut s = String::new();
    push_str(&mut s, prefix);
    push_str(&mut s, filter_sql);
    push_str(&mut s, suffix);
    s
}

/// The query counting the requests the filter selects.
pub fn count_sql(filter_sql: &str) -> (r: String)
    ensures
        r@ == "SELECT COUNT(*) FROM queries q WHERE "@ + filter_sql@,
{
    proof {
        reveal_strlit("");
    }
    around("SELECT COUNT(*) FROM queries q WHERE ", filter_sql, "")
}

/// The query counting the selected requests per day and status group.
pub fn daily_sql(filter_sql: &str) -> (r: String)
    ensures
        r@ == "SELECT date(q.created_at) d,\n                SUM(CASE WHEN q.response_status >= 200 AND q.response_status < 300 THEN 1 ELSE 0 END),\n                SUM(CASE WHEN q.response_status >= 400 AND q.response_status < 500 THEN 1 ELSE 0 END),\n                SUM(CASE WHEN q.response_status >= 500 THEN 1 ELSE 0 END)\n         FROM queries q WHERE "@
            + filter_sql@ + " GROUP BY d ORDER BY d"@,
{
    around(
        "SELECT date(q.created_at) d,\n                SUM(CASE WHEN q.response_status >= 200 AND q.response_status < 300 THEN 1 ELSE 0 END),\n                SUM(CASE WHEN q.response_status >= 400 AND q.response_status < 500 THEN 1 ELSE 0 END),\n                SUM(CASE WHEN q.response_status >= 500 THEN 1 ELSE 0 END)\n         FROM queries q WHERE ",
        filter_sql,
        " GROUP BY d ORDER BY d",
    )
}

/// The filter of the latency statistics: successful requests only.
pub fn latency_filter(filter_sql: &str) -> (r: String)
    ensures
        r@ == filter_sql@ + " AND q.response_status >= 200 AND q.response_status < 300"@,
{
    proof {
        reveal_strlit("");
    }
    around("", filter_sql, " AND q.response_status >= 200 AND q.response_status < 300")
}

/// The query listing one latency column of the selected requests, sorted.
pub fn latency_sql(column: &str, filter_sql: &str) -> (r: String)
    ensures
        r@ == "SELECT "@ + column@ + " FROM queries q WHERE "@ + filter_sql@ + " AND q."@ + column@ + " IS NOT NULL ORDER BY q."@
            + column@,
{
    let mut s = String::new();
    push_str(&mut s, "SELECT ");
    push_str(&mut s, column);
    push_str(&mut s, " FROM queries q WHERE ");
    push_str(&mut s, filter_sql);
    push_str(&mut s, " AND q.");
    push_str(&mut s, column);
    push_str(&mut s, " IS NOT NULL ORDER BY q.");
    push_str(&mut s, column);
    s
}

/// The query counting, per chunk, the selected requests that retrieved it.
pub fn chunk_hits_sql(filter_sql: &str) -> (r: String)
    ensures
        r@ == "SELECT qc.chunk_id, qc.source_id, COALESCE(s.name, qc.source_id),\n                COUNT(DISTINCT qc.query_id)\n         FROM query_chunks qc\n         INNER JOIN queries q ON q.id = qc.query_id\n         LEFT JOIN sources s ON s.id = qc.source_id AND s.release_id = qc.release_id\n         WHERE "@
            + filter_sql@ + "\n         GROUP BY qc.chunk_id, qc.source_id, s.name\n         ORDER BY 4 DESC"@,
{
    around(
        "SELECT qc.chunk_id, qc.source_id, COALESCE(s.name, qc.source_id),\n                COUNT(DISTINCT qc.query_id)\n         FROM query_chunks qc\n         INNER JOIN queries q ON q.id = qc.query_id\n         LEFT JOIN sources s ON s.id = qc.source_id AND s.release_id = qc.release_id\n         WHERE ",
        filter_sql,
        "\n         GROUP BY qc.chunk_id, qc.source_id, s.name\n         ORDER BY 4 DESC",
    )
}

/// The query listing the metadata of the chunks the selected requests retrieved.
pub fn chunk_metadata_sql(filter_sql: &str) -> (r: String)
    ensures
        r@ == "SELECT qc.metadata\n         FROM query_chunks qc\n         INNER JOIN queries q ON q.id = qc.query_id\n         WHERE "@ + filter_sql@,
{
    proof {
        reveal_strlit("");
    }
    around(
        "SELECT qc.metadata\n         FROM query_chunks qc\n         INNER JOIN queries q ON q.id = qc.query_id\n         WHERE ",
        filter_sql,
        "",
    )
}

/// The member names of each metadata text that is a JSON object, in order
/// (texts that are not JSON objects are passed over).
pub open spec fn key_lists(raws: Seq<String>) -> Seq<Seq<Seq<char>>>
    decreases raws.len(),
{
    if raws.len() == 0 {
        Seq::empty()
    } else {
        match json_object_key_list(raws.last()@) {
            Some(keys) => key_lists(raws.drop_last()).push(keys),
            None => key_lists(raws.drop_last()),
        }
    }
}

/// Reads the member names of each metadata text.
pub fn metadata_key_lists(raws: &Vec<String>) -> (r: Vec<Vec<String>>)
    ensures
        list_views(r@) == key_lists(raws@),
{
    let mut r: Vec<Vec<String>> = Vec::new();
    let mut i: usize = 0;
    while i < raws.len()
        invariant
            i <= raws@.len(),
            list_views(r@) == key_lists(raws@.subrange(0, i as int)),
        decreases raws@.len() - i,
    {
        assert(raws@.subrange(0, i + 1).drop_last() == raws@.subrange(0, i as int));
        match read_json_object_keys(raws[i].as_str()) {
            Some(keys) => {
                let ghost before = r@;
                r.push(keys);
                assert(list_views(r@) =~= list_views(before).push(
                    string_views(keys@),
                ));
            },
            None => {},
        }
        i += 1;
    }
    assert(raws@.subrange(0, raws@.len() as int) == raws@);
    r
}

/// The views of lists of strings.
pub open spec fn list_views(lists: Seq<Vec<String>>) -> Seq<Seq<Seq<char>>> {
    lists.map_values(|l: Vec<String>| string_views(l@))
}

/// The lists one after another.
pub open spec fn flatten(lists: Seq<Seq<Seq<char>>>) -> Seq<Seq<char>>
    decreases lists.len(),
{
    if lists.len() == 0 {
        Seq::empty()
    } else {
        flatten(lists.drop_last()) + lists.last()
    }
}

/// How often `k` occurs in `s`.
pub open spec fn count_in(s: Seq<Seq<char>>, k: Seq<char>) -> nat
    decreases s.len(),
{
    if s.len() == 0 {
        0
    } else {
        count_in(s.drop_last(), k) + if s.last() == k { 1nat } else { 0nat }
    }
}

proof fn lemma_count_in_positive(s: Seq<Seq<char>>, k: Seq<char>)
    requires
        count_in(s, k) > 0,
    ensures
        exists|u: int| 0 <= u < s.len() && s[u] == k,
    decreases s.len(),
{
    if s.last() != k {
        lemma_count_in_positive(s.drop_last(), k);
        let u = choose|u: int| 0 <= u < s.drop_last().len() && s.drop_last()[u] == k;
        assert(s[u] == k);
    } else {
        assert(s[s.len() - 1] == k);
    }
}

fn flatten_lists(lists: &Vec<Vec<String>>) -> (r: Vec<String>)
    ensures
        string_views(r@) == flatten(list_views(lists@)),
{
    let ghost views = list_views(lists@);
    let mut r: Vec<String> = Vec::new();
    let mut i: usize = 0;
    while i < lists.len()
        invariant
            i <= lists@.len(),
            views == list_views(lists@),
            string_views(r@) == flatten(views.subrange(0, i as int)),
        decreases lists@.len() - i,
    {
        assert(views.subrange(0, i + 1).drop_last() == views.subrange(0, i as int));
        let ghost start = string_views(r@);
        let mut j: usize = 0;
        while j < lists[i].len()
            invariant
                i < lists@.len(),
                j <= lists@[i as int]@.len(),
                string_views(r@) == start + string_views(lists@[i as int]@).subrange(0, j as int),
            decreases lists@[i as int]@.len() - j,
        {
            let ghost before = r@;
            let item = lists[i][j].clone();
            r.push(item);
            assert(string_views(r@) =~= string_views(before).push(item@));
            assert(string_views(lists@[i as int]@).subrange(0, j + 1) =~= string_views(lists@[i as int]@).subrange(0, j as int).push(
                item@,
            ));
            j += 1;
        }
        assert(string_views(lists@[i as int]@).subrange(0, lists@[i as int]@.len() as int) == string_views(lists@[i as int]@));
        assert(views[i as int] == string_views(lists@[i as int]@));
        i += 1;
    }
    assert(views.subrange(0, views.len() as int) == views);
    r
}

/// How many keys the lists hold in all.
pub open spec fn total_keys(lists: Seq<Seq<Seq<char>>>) -> nat {
    flatten(lists).len()
}

/// `k` has an entry in the counts `r`.
pub open spec fn counted(r: Seq<(String, i64)>, k: Seq<char>) -> bool {
    exists|i: int| 0 <= i < r.len() && #[trigger] r[i].0@ == k
}

/// Counts the metadata keys: each key found, once, in increasing order
/// (as a `BTreeMap` of strings orders them), with how often it occurs in
/// the lists.
pub fn count_metadata_keys(lists: &Vec<Vec<String>>) -> (r: Vec<(String, i64)>)
    requires
        total_keys(list_views(lists@)) <= i64::MAX,
    ensures
        ({
            let all = flatten(list_views(lists@));
            &&& forall|i: int| 0 <= i < r@.len() ==> #[trigger] r@[i].1 as nat == count_in(all, r@[i].0@) && r@[i].1 > 0
            &&& forall|i: int, j: int| 0 <= i < r@.len() && 0 <= j < r@.len() && i != j ==> #[trigger] r@[i].0@ != #[trigger] r@[j].0@
            &&& forall|i: int| 0 <= i < r@.len() - 1 ==> text_lt(#[trigger] r@[i].0@, r@[i + 1].0@)
            &&& forall|u: int| 0 <= u < all.len() ==> counted(r@, #[trigger] all[u])
        }),
{
    let flat = flatten_lists(lists);
    let ghost f = string_views(flat@);
    let mut keys: Vec<String> = Vec::new();
    let mut counts: Vec<i64> = Vec::new();
    let mut t: usize = 0;
    while t < flat.len()
        invariant
            t <= flat@.len(),
            f == string_views(flat@),
            flat@.len() <= i64::MAX,
            keys@.len() == counts@.len(),
            forall|i: int| 0 <= i < keys@.len() ==> #[trigger] counts@[i] as nat == count_in(f.subrange(0, t as int), keys@[i]@)
                && counts@[i] > 0 && counts@[i] <= t,
            forall|i: int, j: int| 0 <= i < keys@.len() && 0 <= j < keys@.len() && i != j ==> #[trigger] keys@[i]@ != #[trigger] keys@[j]@,
            forall|i: int| 0 <= i < keys@.len() - 1 ==> text_lt(#[trigger] keys@[i]@, keys@[i + 1]@),
            forall|u: int| #![trigger f[u]] 0 <= u < t ==> exists|i: int| 0 <= i < keys@.len() && #[trigger] keys@[i]@ == f[u],
        decreases flat@.len() - t,
    {
        let k = flat[t].as_str();
        let ghost pre = f.subrange(0, t as int);
        let ghost next = f.subrange(0, t + 1);
        assert(next.drop_last() == pre);
        assert(next.last() == k@);
        let mut q: usize = 0;
        while q < keys.len() && !crate::text::str_eq(keys[q].as_str(), k)
            invariant
                q <= keys@.len(),
                forall|i: int| 0 <= i < q ==> keys@[i]@ != k@,
            decreases keys@.len() - q,
        {
            q += 1;
        }
        if q < keys.len() {
            let c = counts[q];
            counts.set(q, c + 1);
            assert forall|i: int| 0 <= i < keys@.len() implies #[trigger] counts@[i] as nat == count_in(next, keys@[i]@)
                && counts@[i] > 0 && counts@[i] <= t + 1 by {
                if i != q {
                    assert(keys@[i]@ != keys@[q as int]@);
                }
            }
            assert forall|u: int| #![trigger f[u]] 0 <= u < t + 1 implies exists|i: int| 0 <= i < keys@.len() && #[trigger] keys@[i]@ == f[u] by {
                if u == t {
                    assert(keys@[q as int]@ == f[u]);
                }
            }
        } else {
            assert(count_in(pre, k@) == 0) by {
                if count_in(pre, k@) > 0 {
                    lemma_count_in_positive(pre, k@);
                    let u = choose|u: int| 0 <= u < pre.len() && pre[u] == k@;
                    assert(f[u] == k@);
                    let i = choose|i: int| 0 <= i < keys@.len() && #[trigger] keys@[i]@ == f[u];
                    assert(keys@[i]@ != k@);
                }
            }
            let mut p: usize = 0;
            while p < keys.len() && text_less(keys[p].as_str(), k)
                invariant
                    p <= keys@.len(),
                    forall|i: int| 0 <= i < p ==> text_lt(#[trigger] keys@[i]@, k@),
                decreases keys@.len() - p,
            {
                p += 1;
            }
            proof {
                if p < keys@.len() {
                    lemma_text_lt_strict_total(keys@[p as int]@, k@);
                }
            }
            let ghost old_keys = keys@;
            let ghost old_counts = counts@;
            let key = String::from_str(k);
            keys.insert(p, key);
            counts.insert(p, 1);
            assert(keys@ == old_keys.insert(p as int, key));
            assert forall|i: int| 0 <= i < keys@.len() implies #[trigger] counts@[i] as nat == count_in(next, keys@[i]@)
                && counts@[i] > 0 && counts@[i] <= t + 1 by {
                if i < p {
                    assert(keys@[i] == old_keys[i]);
                    assert(old_keys[i]@ != k@);
                } else if i > p {
                    assert(keys@[i] == old_keys[i - 1]);
                    assert(old_keys[i - 1]@ != k@);
                }
            }
            assert forall|i: int, j: int| 0 <= i < keys@.len() && 0 <= j < keys@.len() && i != j implies #[trigger] keys@[i]@
                != #[trigger] keys@[j]@ by {
                let oi = if i < p { i } else { i - 1 };
                let oj = if j < p { j } else { j - 1 };
                if i != p as int && j != p as int {
                    assert(keys@[i] == old_keys[oi]);
                    assert(keys@[j] == old_keys[oj]);
                } else if i == p as int {
                    assert(keys@[j] == old_keys[oj]);
                    assert(old_keys[oj]@ != k@);
                } else {
                    assert(keys@[i] == old_keys[oi]);
                    assert(old_keys[oi]@ != k@);
                }
            }
            assert forall|i: int| 0 <= i < keys@.len() - 1 implies text_lt(#[trigger] keys@[i]@, keys@[i + 1]@) by {
                if i + 1 < p {
                    assert(keys@[i] == old_keys[i] && keys@[i + 1] == old_keys[i + 1]);
                } else if i + 1 == p {
                    assert(keys@[i] == old_keys[i]);
                } else if i == p {
                    assert(keys@[i + 1] == old_keys[i]);
                    assert(old_keys[i]@ != k@);
                } else {
                    assert(keys@[i] == old_keys[i - 1] && keys@[i + 1] == old_keys[i]);
                }
            }
            assert forall|u: int| #![trigger f[u]] 0 <= u < t + 1 implies exists|i: int| 0 <= i < keys@.len() && #[trigger] keys@[i]@ == f[u] by {
                if u == t {
                    assert(keys@[p as int]@ == f[u]);
                } else {
                    let i = choose|i: int| 0 <= i < old_keys.len() && #[trigger] old_keys[i]@ == f[u];
                    if i < p {
                        assert(keys@[i] == old_keys[i]);
                    } else {
                        assert(keys@[i + 1] == old_keys[i]);
                    }
                }
            }
        }
        t += 1;
    }
    assert(f.subrange(0, f.len() as int) == f);
    let mut r: Vec<(String, i64)> = Vec::new();
    let mut i: usize = 0;
    while i < keys.len()
        invariant
            i <= keys@.len(),
            keys@.len() == counts@.len(),
            r@.len() == i,
            forall|j: int| 0 <= j < i ==> (#[trigger] r@[j]).0@ == keys@[j]@ && r@[j].1 == counts@[j],
        decreases keys@.len() - i,
    {
        r.push((keys[i].clone(), counts[i]));
        i += 1;
    }
    proof {
        let all = flatten(list_views(lists@));
        assert(all == f);
        assert forall|i: int| 0 <= i < r@.len() implies #[trigger] r@[i].1 as nat == count_in(all, r@[i].0@) && r@[i].1 > 0 by {
            assert(counts@[i] as nat == count_in(f.subrange(0, f.len() as int), keys@[i]@));
        }
        assert forall|i: int, j: int| 0 <= i < r@.len() && 0 <= j < r@.len() && i != j implies #[trigger] r@[i].0@
            != #[trigger] r@[j].0@ by {
            assert(keys@[i]@ != keys@[j]@);
        }
        assert forall|i: int| 0 <= i < r@.len() - 1 implies text_lt(#[trigger] r@[i].0@, r@[i + 1].0@) by {
            assert(text_lt(keys@[i]@, keys@[i + 1]@));
            assert(r@[i + 1].0@ == keys@[i + 1]@);
        }
        assert forall|u: int| 0 <= u < all.len() implies counted(r@, #[trigger] all[u]) by {
            assert(f[u] == all[u]);
            let i = choose|i: int| 0 <= i < keys@.len() && #[trigger] keys@[i]@ == f[u];
            assert(r@[i].0@ == keys@[i]@);
        }
    }
    r
}

} // verus!
