//! The filter language: expressions over source and chunk fields, and their
//! validation (known fields, well-formed operands, bounded depth and size).
use vstd::prelude::*;

use vstd::string::StringSliceAdditionalSpecFns;

use base64::Engine;

use crate::text::{chars_eq, chars_of, chars_slice, chars_starts_with, chars_trim_start, has_prefix, push_char, push_str, trim_start};

verus! {

/// Filters nest at most this deep.
pub const MAX_DEPTH: usize = 8;
/// Filters hold at most this many conditions.
pub const MAX_CONDITIONS: usize = 64;

/// A JSON operand of a condition. Arrays and objects keep the JSON text they
/// print as.
#[derive(Debug)]
pub enum FilterValue {
    Null,
    Bool(bool),
    /// A JSON number, by its JSON text.
    Number(String),
    String(String),
    Array { items: Vec<FilterValue>, json: String },
    Object { json: String },
}

/// A filter expression.
#[derive(Debug)]
pub enum FilterExpr {
    And { and: Vec<FilterExpr> },
    Or { or: Vec<FilterExpr> },
    Not { not: Box<FilterExpr> },
    Condition(Condition),
}

/// A comparison of a field with a value.
#[derive(Debug)]
pub struct Condition {
    pub field: String,
    pub op: FilterOp,
    pub value: FilterValue,
}

#[derive(Clone, Copy, Debug, PartialEq, Eq, Structural)]
pub enum FilterOp {
    Eq,
    Ne,
    Gt,
    Gte,
    Lt,
    Lte,
    In,
    Nin,
    Contains,
    Exists,
}

/// Why a filter was refused.
#[derive(Debug)]
pub enum FilterError {
    Json(String),
    Base64(String),
    Validation(String),
    UnsupportedField(String),
    UnsupportedOperator { field: String, op: FilterOp },
}

/// `FilterError` with its strings taken by their views.
pub enum FilterErrorView {
    Json(Seq<char>),
    Base64(Seq<char>),
    Validation(Seq<char>),
    UnsupportedField(Seq<char>),
    UnsupportedOperator { field: Seq<char>, op: FilterOp },
}

/// A validation error with message `m`.
pub open spec fn validation(m: Seq<char>) -> FilterErrorView {
    FilterErrorView::Validation(m)
}

impl View for FilterError {
    type V = FilterErrorView;

    open spec fn view(&self) -> FilterErrorView {
        match self {
            FilterError::Json(m) => FilterErrorView::Json(m@),
            FilterError::Base64(m) => FilterErrorView::Base64(m@),
            FilterError::Validation(m) => FilterErrorView::Validation(m@),
            FilterError::UnsupportedField(f) => FilterErrorView::UnsupportedField(f@),
            FilterError::UnsupportedOperator { field, op } => FilterErrorView::UnsupportedOperator { field: field@, op: *op },
        }
    }
}

/// The operator's name as `Debug` prints it.
pub open spec fn op_name(op: FilterOp) -> Seq<char> {
    match op {
        FilterOp::Eq => "Eq"@,
        FilterOp::Ne => "Ne"@,
        FilterOp::Gt => "Gt"@,
        FilterOp::Gte => "Gte"@,
        FilterOp::Lt => "Lt"@,
        FilterOp::Lte => "Lte"@,
        FilterOp::In => "In"@,
        FilterOp::Nin => "Nin"@,
        FilterOp::Contains => "Contains"@,
        FilterOp::Exists => "Exists"@,
    }
}

impl FilterOp {
    pub fn name(self) -> (r: &'static str)
        ensures
            r@ == op_name(self),
    {
        match self {
            FilterOp::Eq => "Eq",
            FilterOp::Ne => "Ne",
            FilterOp::Gt => "Gt",
            FilterOp::Gte => "Gte",
            FilterOp::Lt => "Lt",
            FilterOp::Lte => "Lte",
            FilterOp::In => "In",
            FilterOp::Nin => "Nin",
            FilterOp::Contains => "Contains",
            FilterOp::Exists => "Exists",
        }
    }
}

/// A field resolved to a column of the table or a JSON path into its metadata.
#[derive(Debug)]
pub enum ResolvedField {
    Column(&'static str),
    Metadata(String),
}

impl View for ResolvedField {
    /// Whether it is a column, and the column name or metadata path.
    type V = (bool, Seq<char>);

    open spec fn view(&self) -> (bool, Seq<char>) {
        match self {
            ResolvedField::Column(c) => (true, c@),
            ResolvedField::Metadata(p) => (false, p@),
        }
    }
}

/// Fields that are columns of the filtered table.
pub open spec fn column_field(f: Seq<char>) -> bool {
    ||| f == "id"@
    ||| f == "source_id"@
    ||| f == "created_at"@
    ||| f == "updated_at"@
    ||| f == "name"@
    ||| f == "status"@
    ||| f == "type"@
}

/// Characters allowed in a metadata path.
pub open spec fn metadata_path_char(c: char) -> bool {
    ('A' <= c <= 'Z') || ('a' <= c <= 'z') || ('0' <= c <= '9') || c == '_' || c == '.'
}

/// What a field resolves to: a column, a `meta.<path>` metadata path (as
/// the JSON path `$.<path>`), or an error.
pub open spec fn resolved_field(f: Seq<char>) -> Result<(bool, Seq<char>), FilterErrorView> {
    if column_field(f) {
        Ok((true, f))
    } else if has_prefix(f, "meta."@) {
        let path = f.subrange(5, f.len() as int);
        if path.len() > 0 && forall|i: int| 0 <= i < path.len() ==> metadata_path_char(#[trigger] path[i]) {
            Ok((false, "$."@ + path))
        } else {
            Err(validation("invalid metadata path: "@ + f))
        }
    } else {
        Err(FilterErrorView::UnsupportedField(f))
    }
}

/// The view of a resolution result.
pub open spec fn resolution_view(r: Result<ResolvedField, FilterError>) -> Result<(bool, Seq<char>), FilterErrorView> {
    match r {
        Ok(f) => Ok(f@),
        Err(e) => Err(e@),
    }
}

fn column_named(f: &Vec<char>, name: &'static str) -> (r: Option<ResolvedField>)
    ensures
        match r {
            Some(c) => f@ == name@ && c@ == (true, name@),
            None => f@ != name@,
        },
{
    if chars_eq(f, &chars_of(name)) {
        Some(ResolvedField::Column(name))
    } else {
        None
    }
}

pub fn resolve_field(field: &str) -> (r: Result<ResolvedField, FilterError>)
    ensures
        resolution_view(r) == resolved_field(field@),
{
    let f = chars_of(field);
    if let Some(c) = column_named(&f, "id") {
        return Ok(c);
    }
    if let Some(c) = column_named(&f, "source_id") {
        return Ok(c);
    }
    if let Some(c) = column_named(&f, "created_at") {
        return Ok(c);
    }
    if let Some(c) = column_named(&f, "updated_at") {
        return Ok(c);
    }
    if let Some(c) = column_named(&f, "name") {
        return Ok(c);
    }
    if let Some(c) = column_named(&f, "status") {
        return Ok(c);
    }
    if let Some(c) = column_named(&f, "type") {
        return Ok(c);
    }
    let prefix = chars_of("meta.");
    if !chars_starts_with(&f, &prefix) {
        let mut s = String::new();
        push_str(&mut s, field);
        return Err(FilterError::UnsupportedField(s));
    }
    proof {
        reveal_strlit("meta.");
    }
    let path = chars_slice(&f, 5, f.len());
    let mut ok = path.len() > 0;
    for i in 0..path.len()
        invariant
            ok == (path@.len() > 0 && forall|j: int| 0 <= j < i ==> metadata_path_char(#[trigger] path@[j])),
    {
        let c = path[i];
        if !(('A' <= c && c <= 'Z') || ('a' <= c && c <= 'z') || ('0' <= c && c <= '9') || c == '_' || c == '.') {
            ok = false;
        }
    }
    if !ok {
        let mut s = String::new();
        push_str(&mut s, "invalid metadata path: ");
        push_str(&mut s, field);
        return Err(FilterError::Validation(s));
    }
    let mut s = String::new();
    push_str(&mut s, "$.");
    for i in 0..path.len()
        invariant
            s@ == "$."@ + path@.subrange(0, i as int),
    {
        push_char(&mut s, path[i]);
        assert(path@.subrange(0, i + 1) == path@.subrange(0, i as int).push(path@[i as int]));
    }
    assert(path@.subrange(0, path@.len() as int) == path@);
    Ok(ResolvedField::Metadata(s))
}

/// Why a condition is malformed, if it is: its field does not resolve, a
/// set operator lacks an array, or another operator lacks a value.
pub open spec fn condition_fault(c: Condition) -> Option<FilterErrorView> {
    match resolved_field(c.field@) {
        Err(e) => Some(e),
        Ok(_) => match c.op {
            FilterOp::Exists => None,
            FilterOp::In | FilterOp::Nin => if c.value is Array {
                None
            } else {
                Some(validation("operator "@ + op_name(c.op) + " requires array value"@))
            },
            _ => if c.value is Null {
                Some(validation("operator "@ + op_name(c.op) + " requires value"@))
            } else {
                None
            },
        },
    }
}

/// Validation of `e` at nesting `depth` after `count` conditions were seen:
/// the first fault met in a depth-first, left-to-right walk, and the
/// number of conditions counted when the walk stopped.
pub open spec fn check_expr(e: FilterExpr, depth: int, count: int) -> (Option<FilterErrorView>, int)
    decreases e, 0int,
{
    if depth > MAX_DEPTH {
        (Some(validation("filter depth exceeds 8"@)), count)
    } else {
        match e {
            FilterExpr::And { and } => check_list(and@, depth + 1, count),
            FilterExpr::Or { or } => check_list(or@, depth + 1, count),
            FilterExpr::Not { not } => check_expr(*not, depth + 1, count),
            FilterExpr::Condition(c) => if count + 1 > MAX_CONDITIONS {
                (Some(validation("filter exceeds 64 conditions"@)), count + 1)
            } else {
                (condition_fault(c), count + 1)
            },
        }
    }
}

/// Validation of the expressions `items`, in order, each at `depth`.
pub open spec fn check_list(items: Seq<FilterExpr>, depth: int, count: int) -> (Option<FilterErrorView>, int)
    decreases items, 1int,
{
    if items.len() == 0 {
        (None, count)
    } else {
        let (f, c1) = check_expr(items[0], depth, count);
        if f is Some {
            (f, c1)
        } else {
            check_list(items.subrange(1, items.len() as int), depth, c1)
        }
    }
}

/// A walk that finds no fault ends with the count it started with or with
/// at most `MAX_CONDITIONS` conditions.
proof fn lemma_check_expr_count(e: FilterExpr, depth: int, count: int)
    ensures
        check_expr(e, depth, count).0 is None ==> (check_expr(e, depth, count).1 == count
            || check_expr(e, depth, count).1 <= MAX_CONDITIONS),
    decreases e, 0int,
{
    if depth <= MAX_DEPTH {
        match e {
            FilterExpr::And { and } => lemma_check_list_count(and@, depth + 1, count),
            FilterExpr::Or { or } => lemma_check_list_count(or@, depth + 1, count),
            FilterExpr::Not { not } => lemma_check_expr_count(*not, depth + 1, count),
            FilterExpr::Condition(_) => {},
        }
    }
}

proof fn lemma_check_list_count(items: Seq<FilterExpr>, depth: int, count: int)
    ensures
        check_list(items, depth, count).0 is None ==> (check_list(items, depth, count).1 == count
            || check_list(items, depth, count).1 <= MAX_CONDITIONS),
    decreases items, 1int,
{
    if items.len() > 0 {
        let (f, c1) = check_expr(items[0], depth, count);
        lemma_check_expr_count(items[0], depth, count);
        if f is None {
            lemma_check_list_count(items.subrange(1, items.len() as int), depth, c1);
        }
    }
}

fn validate_condition(cond: &Condition) -> (r: Result<(), FilterError>)
    ensures
        match r {
            Ok(()) => condition_fault(*cond) is None,
            Err(e) => condition_fault(*cond) == Some(e@),
        },
{
    match resolve_field(cond.field.as_str()) {
        Err(e) => return Err(e),
        Ok(_) => {},
    }
    match cond.op {
        FilterOp::Exists => Ok(()),
        FilterOp::In | FilterOp::Nin => {
            if let FilterValue::Array { .. } = &cond.value {
                Ok(())
            } else {
                let mut s = String::new();
                push_str(&mut s, "operator ");
                push_str(&mut s, cond.op.name());
                push_str(&mut s, " requires array value");
                Err(FilterError::Validation(s))
            }
        },
        _ => {
            if let FilterValue::Null = &cond.value {
                let mut s = String::new();
                push_str(&mut s, "operator ");
                push_str(&mut s, cond.op.name());
                push_str(&mut s, " requires value");
                Err(FilterError::Validation(s))
            } else {
                Ok(())
            }
        },
    }
}

fn validation_error(msg: &str) -> (r: FilterError)
    ensures
        r@ == validation(msg@),
{
    let mut s = String::new();
    push_str(&mut s, msg);
    FilterError::Validation(s)
}

/// Validates `expr` at nesting `depth`, counting its conditions into `count`.
pub fn validate_filter(expr: &FilterExpr, depth: usize, count: &mut usize) -> (r: Result<(), FilterError>)
    requires
        *old(count) < usize::MAX,
    ensures
        ({
            let (fault, n) = check_expr(*expr, depth as int, *old(count) as int);
            &&& *final(count) == n
            &&& match r {
                Ok(()) => fault is None,
                Err(e) => fault == Some(e@),
            }
        }),
    decreases expr,
{
    if depth > MAX_DEPTH {
        return Err(validation_error("filter depth exceeds 8"));
    }
    match expr {
        FilterExpr::And { and: items } => validate_list(items, depth + 1, count),
        FilterExpr::Or { or: items } => validate_list(items, depth + 1, count),
        FilterExpr::Not { not: inner } => validate_filter(inner, depth + 1, count),
        FilterExpr::Condition(cond) => {
            *count += 1;
            if *count > MAX_CONDITIONS {
                return Err(validation_error("filter exceeds 64 conditions"));
            }
            validate_condition(cond)
        },
    }
}

fn validate_list(items: &Vec<FilterExpr>, depth: usize, count: &mut usize) -> (r: Result<(), FilterError>)
    requires
        *old(count) < usize::MAX,
    ensures
        ({
            let (fault, n) = check_list(items@, depth as int, *old(count) as int);
            &&& *final(count) == n
            &&& match r {
                Ok(()) => fault is None,
                Err(e) => fault == Some(e@),
            }
        }),
    decreases items,
{
    let ghost c0 = *count;
    assert(items@.subrange(0, items@.len() as int) == items@);
    for i in 0..items.len()
        invariant
            c0 == *old(count),
            c0 < usize::MAX,
            *count < usize::MAX,
            *count == c0 || *count <= MAX_CONDITIONS,
            check_list(items@, depth as int, c0 as int) == check_list(
                items@.subrange(i as int, items@.len() as int),
                depth as int,
                *count as int,
            ),
    {
        let ghost before = *count;
        let ghost rest = items@.subrange(i as int, items@.len() as int);
        assert(rest[0] == items@[i as int]);
        assert(rest.subrange(1, rest.len() as int) == items@.subrange(i + 1, items@.len() as int));
        proof {
            lemma_check_expr_count(items@[i as int], depth as int, before as int);
        }
        match validate_filter(&items[i], depth, count) {
            Ok(()) => {
                assert(check_list(rest, depth as int, before as int) == check_list(
                    rest.subrange(1, rest.len() as int),
                    depth as int,
                    *count as int,
                ));
            },
            Err(e) => {
                assert(check_list(rest, depth as int, before as int) == check_expr(rest[0], depth as int, before as int));
                return Err(e);
            },
        }
    }
    assert(items@.subrange(items@.len() as int, items@.len() as int).len() == 0);
    Ok(())
}

/// The number of conditions in `e`.
pub open spec fn condition_count(e: FilterExpr) -> nat
    decreases e, 0int,
{
    match e {
        FilterExpr::And { and } => list_condition_count(and@),
        FilterExpr::Or { or } => list_condition_count(or@),
        FilterExpr::Not { not } => condition_count(*not),
        FilterExpr::Condition(_) => 1,
    }
}

pub open spec fn list_condition_count(items: Seq<FilterExpr>) -> nat
    decreases items, 1int,
{
    if items.len() == 0 {
        0
    } else {
        condition_count(items[0]) + list_condition_count(items.subrange(1, items.len() as int))
    }
}

/// How deep `e` nests: one for a condition, one more than its deepest part
/// for a compound expression.
pub open spec fn nesting(e: FilterExpr) -> nat
    decreases e, 0int,
{
    match e {
        FilterExpr::And { and } => 1 + list_nesting(and@),
        FilterExpr::Or { or } => 1 + list_nesting(or@),
        FilterExpr::Not { not } => 1 + nesting(*not),
        FilterExpr::Condition(_) => 1,
    }
}

pub open spec fn list_nesting(items: Seq<FilterExpr>) -> nat
    decreases items, 1int,
{
    if items.len() == 0 {
        0
    } else {
        let first = nesting(items[0]);
        let rest = list_nesting(items.subrange(1, items.len() as int));
        if first >= rest { first } else { rest }
    }
}

proof fn lemma_check_expr_bounds(e: FilterExpr, depth: int, count: int)
    requires
        count >= 0,
    ensures
        check_expr(e, depth, count).0 is None ==> {
            &&& check_expr(e, depth, count).1 == count + condition_count(e)
            &&& depth + nesting(e) - 1 <= MAX_DEPTH
            &&& condition_count(e) > 0 ==> count + condition_count(e) <= MAX_CONDITIONS
        },
    decreases e, 0int,
{
    if depth <= MAX_DEPTH {
        match e {
            FilterExpr::And { and } => lemma_check_list_bounds(and@, depth + 1, count),
            FilterExpr::Or { or } => lemma_check_list_bounds(or@, depth + 1, count),
            FilterExpr::Not { not } => lemma_check_expr_bounds(*not, depth + 1, count),
            FilterExpr::Condition(_) => {},
        }
    }
}

proof fn lemma_check_list_bounds(items: Seq<FilterExpr>, depth: int, count: int)
    requires
        count >= 0,
    ensures
        check_list(items, depth, count).0 is None ==> {
            &&& check_list(items, depth, count).1 == count + list_condition_count(items)
            &&& depth + list_nesting(items) - 1 <= MAX_DEPTH || items.len() == 0
            &&& list_condition_count(items) > 0 ==> count + list_condition_count(items) <= MAX_CONDITIONS
        },
    decreases items, 1int,
{
    if items.len() > 0 {
        let (f, c1) = check_expr(items[0], depth, count);
        lemma_check_expr_bounds(items[0], depth, count);
        if f is None {
            let rest = items.subrange(1, items.len() as int);
            lemma_check_list_bounds(rest, depth, c1);
            if rest.len() == 0 {
                assert(list_nesting(rest) == 0);
                assert(list_condition_count(rest) == 0);
            }
        }
    }
}

/// A filter that passes validation holds at most `MAX_CONDITIONS`
/// conditions and nests at most `MAX_DEPTH` deep, and validation counts
/// exactly its conditions.
pub proof fn lemma_valid_filter_bounds(e: FilterExpr)
    ensures
        check_expr(e, 1, 0).0 is None ==> {
            &&& condition_count(e) <= MAX_CONDITIONS
            &&& nesting(e) <= MAX_DEPTH
            &&& check_expr(e, 1, 0).1 == condition_count(e)
        },
{
    lemma_check_expr_bounds(e, 1, 0);
}

/// What decoding `input` as unpadded URL-safe base64 gives: the bytes, or
/// the text of the decoding error.
pub uninterp spec fn base64_url_decoding(input: Seq<u8>) -> Result<Seq<u8>, Seq<char>>;

/// `base64::engine::general_purpose::URL_SAFE_NO_PAD.decode`, with the error
/// by its `Display` text. Trusted: the outcome is `base64_url_decoding` of
/// the input bytes.
#[verifier::external_body]
fn decode_base64_url(input: &str) -> (r: Result<Vec<u8>, String>)
    ensures
        match r {
            Ok(v) => base64_url_decoding(input.spec_bytes()) == Ok::<Seq<u8>, Seq<char>>(v@),
            Err(m) => base64_url_decoding(input.spec_bytes()) == Err::<Seq<u8>, Seq<char>>(m@),
        },
{
    base64::engine::general_purpose::URL_SAFE_NO_PAD.decode(input).map_err(|e| e.to_string())
}

/// The JSON text of a filter parameter: the parameter itself when it is a
/// JSON object (starts with `{` after white space), else the base64 it holds.
pub open spec fn filter_payload(raw: &str) -> Result<Seq<u8>, FilterErrorView> {
    let t = trim_start(raw@);
    if t.len() > 0 && t[0] == '{' {
        Ok(raw.spec_bytes())
    } else {
        match base64_url_decoding(raw.spec_bytes()) {
            Ok(bytes) => Ok(bytes),
            Err(m) => Err(FilterErrorView::Base64(m)),
        }
    }
}

/// Extracts the JSON text of a filter query parameter (JSON or unpadded
/// URL-safe base64 of it); the JSON itself is read by the caller.
pub fn filter_json_payload(raw: &str) -> (r: Result<Vec<u8>, FilterError>)
    ensures
        match r {
            Ok(v) => filter_payload(raw) == Ok::<Seq<u8>, FilterErrorView>(v@),
            Err(e) => filter_payload(raw) == Err::<Seq<u8>, FilterErrorView>(e@),
        },
{
    let t = chars_trim_start(&chars_of(raw));
    if t.len() > 0 && t[0] == '{' {
        let bytes = raw.as_bytes();
        let mut v: Vec<u8> = Vec::new();
        for i in 0..bytes.len()
            invariant
                bytes@ == raw.spec_bytes(),
                v@ == bytes@.subrange(0, i as int),
        {
            v.push(bytes[i]);
            assert(bytes@.subrange(0, i + 1) == bytes@.subrange(0, i as int).push(bytes@[i as int]));
        }
        assert(bytes@.subrange(0, bytes@.len() as int) == bytes@);
        return Ok(v);
    }
    match decode_base64_url(raw) {
        Ok(v) => Ok(v),
        Err(m) => Err(FilterError::Base64(m)),
    }
}

/// Accepts a decoded filter when it validates from the top (depth 1, no
/// conditions counted yet).
pub fn accept_filter(expr: FilterExpr) -> (r: Result<FilterExpr, FilterError>)
    ensures
        match r {
            Ok(e) => e == expr && check_expr(expr, 1, 0).0 is None,
            Err(err) => check_expr(expr, 1, 0).0 == Some(err@),
        },
{
    let mut count: usize = 0;
    match validate_filter(&expr, 1, &mut count) {
        Ok(()) => Ok(expr),
        Err(e) => Err(e),
    }
}

} // verus!
