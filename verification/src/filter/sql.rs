//! Compilation of filter expressions to a parameterised SQL condition.
use vstd::prelude::*;

use crate::filter::dsl::{resolve_field, resolved_field, validation, Condition, FilterError, FilterErrorView, FilterExpr, FilterOp, FilterValue, ResolvedField};
use crate::json::string_views;
use crate::text::{decimal, joined, push_decimal, push_joined, push_str, push_string};

verus! {

/// A SQL condition with `?N` placeholders and the texts bound to them, in order.
#[derive(Debug)]
pub struct SqlFilter {
    pub sql: String,
    pub params: Vec<String>,
}

/// A fault of compilation: kind and message, as in `FilterError`'s view.
pub type Fault = FilterErrorView;

/// The text bound for a scalar operand; arrays, objects and null are refused.
pub open spec fn scalar_text(v: FilterValue) -> Result<Seq<char>, Fault> {
    match v {
        FilterValue::String(s) => Ok(s@),
        FilterValue::Number(n) => Ok(n@),
        FilterValue::Bool(b) => Ok(if b { "true"@ } else { "false"@ }),
        FilterValue::Null => Err(validation("unsupported scalar value: null"@)),
        FilterValue::Array { json, .. } => Err(validation("unsupported scalar value: "@ + json@)),
        FilterValue::Object { json } => Err(validation("unsupported scalar value: "@ + json@)),
    }
}

/// The placeholder for parameter number `n`.
pub open spec fn placeholder(n: nat) -> Seq<char> {
    "?"@ + decimal(n)
}

/// Prefixes the parts produced by a compilation step with `acc`.
pub open spec fn prepend(acc: Seq<Seq<char>>, step: (Result<Seq<Seq<char>>, Fault>, Seq<Seq<char>>)) -> (Result<Seq<Seq<char>>, Fault>, Seq<Seq<char>>) {
    (
        match step.0 {
            Ok(rest) => Ok(acc + rest),
            Err(f) => Err(f),
        },
        step.1,
    )
}

/// Binds each value of a set operand in order: the placeholders made and the
/// parameters after binding (up to the first value that is no scalar).
pub open spec fn bind_values(values: Seq<FilterValue>, params: Seq<Seq<char>>) -> (Result<Seq<Seq<char>>, Fault>, Seq<Seq<char>>)
    decreases values.len(),
{
    if values.len() == 0 {
        (Ok(Seq::empty()), params)
    } else {
        match scalar_text(values[0]) {
            Err(f) => (Err(f), params),
            Ok(t) => {
                let p1 = params.push(t);
                prepend(seq![placeholder(p1.len())], bind_values(values.subrange(1, values.len() as int), p1))
            },
        }
    }
}

/// The SQL for a comparison operator.
pub open spec fn comparison_sql(op: FilterOp) -> Seq<char> {
    match op {
        FilterOp::Eq => " = "@,
        FilterOp::Ne => " != "@,
        FilterOp::Gt => " > "@,
        FilterOp::Gte => " >= "@,
        FilterOp::Lt => " < "@,
        _ => " <= "@,
    }
}

/// The SQL of a metadata lookup through parameter number `n`.
pub open spec fn metadata_sql(alias: Seq<char>, n: nat) -> Seq<char> {
    "json_extract("@ + alias + ".metadata, "@ + placeholder(n) + ")"@
}

/// Compiles a condition: the SQL (or the fault) and the parameters after it.
pub open spec fn compile_condition_spec(c: Condition, alias: Seq<char>, params: Seq<Seq<char>>) -> (Result<Seq<char>, Fault>, Seq<Seq<char>>) {
    match resolved_field(c.field@) {
        Err(f) => (Err(f), params),
        Ok((is_column, name)) => {
            let p1 = if is_column { params } else { params.push(name) };
            let field_sql = if is_column { alias + "."@ + name } else { metadata_sql(alias, p1.len()) };
            match c.op {
                FilterOp::Exists => if is_column {
                    (Ok(field_sql + " IS NOT NULL"@), p1)
                } else {
                    let p2 = p1.push(name);
                    (Ok(metadata_sql(alias, p2.len()) + " IS NOT NULL"@), p2)
                },
                FilterOp::Contains => match scalar_text(c.value) {
                    Err(f) => (Err(f), p1),
                    Ok(v) => {
                        let p2 = p1.push("%"@ + v + "%"@);
                        (Ok(field_sql + " LIKE "@ + placeholder(p2.len())), p2)
                    },
                },
                FilterOp::In | FilterOp::Nin => match c.value {
                    FilterValue::Array { items, .. } => if items@.len() == 0 {
                        (Err(validation("in/nin requires non-empty array"@)), p1)
                    } else {
                        let (bound, p2) = bind_values(items@, p1);
                        match bound {
                            Err(f) => (Err(f), p2),
                            Ok(phs) => (
                                Ok(field_sql + (if c.op == FilterOp::In { " IN ("@ } else { " NOT IN ("@ }) + joined(phs, ", "@) + ")"@),
                                p2,
                            ),
                        }
                    },
                    _ => (Err(validation("in/nin requires array"@)), p1),
                },
                _ => match scalar_text(c.value) {
                    Err(f) => (Err(f), p1),
                    Ok(v) => {
                        let p2 = p1.push(v);
                        (Ok(field_sql + comparison_sql(c.op) + placeholder(p2.len())), p2)
                    },
                },
            }
        },
    }
}

/// A comparison on a column of the filtered table compiles to the aliased
/// column, the SQL comparison the operator names (`eq` to `=`, `ne` to
/// `!=`, `gt` to `>`, `gte` to `>=`, `lt` to `<`, `lte` to `<=`) and the next
/// placeholder, whose parameter is the value's text.
pub proof fn lemma_column_comparison(c: Condition, alias: Seq<char>, params: Seq<Seq<char>>)
    requires
        crate::filter::dsl::column_field(c.field@),
        scalar_text(c.value) is Ok,
    ensures
        c.op == FilterOp::Eq ==> compile_spec(FilterExpr::Condition(c), alias, params) == (
            Ok::<Seq<char>, Fault>(alias + "."@ + c.field@ + " = "@ + "?"@ + decimal(params.len() + 1)),
            params.push(scalar_text(c.value)->Ok_0),
        ),
        c.op == FilterOp::Ne ==> compile_spec(FilterExpr::Condition(c), alias, params) == (
            Ok::<Seq<char>, Fault>(alias + "."@ + c.field@ + " != "@ + "?"@ + decimal(params.len() + 1)),
            params.push(scalar_text(c.value)->Ok_0),
        ),
        c.op == FilterOp::Gt ==> compile_spec(FilterExpr::Condition(c), alias, params) == (
            Ok::<Seq<char>, Fault>(alias + "."@ + c.field@ + " > "@ + "?"@ + decimal(params.len() + 1)),
            params.push(scalar_text(c.value)->Ok_0),
        ),
        c.op == FilterOp::Gte ==> compile_spec(FilterExpr::Condition(c), alias, params) == (
            Ok::<Seq<char>, Fault>(alias + "."@ + c.field@ + " >= "@ + "?"@ + decimal(params.len() + 1)),
            params.push(scalar_text(c.value)->Ok_0),
        ),
        c.op == FilterOp::Lt ==> compile_spec(FilterExpr::Condition(c), alias, params) == (
            Ok::<Seq<char>, Fault>(alias + "."@ + c.field@ + " < "@ + "?"@ + decimal(params.len() + 1)),
            params.push(scalar_text(c.value)->Ok_0),
        ),
        c.op == FilterOp::Lte ==> compile_spec(FilterExpr::Condition(c), alias, params) == (
            Ok::<Seq<char>, Fault>(alias + "."@ + c.field@ + " <= "@ + "?"@ + decimal(params.len() + 1)),
            params.push(scalar_text(c.value)->Ok_0),
        ),
{
    let n = params.len() + 1;
    let field = alias + "."@ + c.field@;
    if c.op == FilterOp::Eq {
        assert(compile_spec(FilterExpr::Condition(c), alias, params).0 == Ok::<Seq<char>, Fault>(field + " = "@ + ("?"@ + decimal(n))));
        assert(field + " = "@ + ("?"@ + decimal(n)) =~= field + " = "@ + "?"@ + decimal(n));
    }
    if c.op == FilterOp::Ne {
        assert(compile_spec(FilterExpr::Condition(c), alias, params).0 == Ok::<Seq<char>, Fault>(field + " != "@ + ("?"@ + decimal(n))));
        assert(field + " != "@ + ("?"@ + decimal(n)) =~= field + " != "@ + "?"@ + decimal(n));
    }
    if c.op == FilterOp::Gt {
        assert(compile_spec(FilterExpr::Condition(c), alias, params).0 == Ok::<Seq<char>, Fault>(field + " > "@ + ("?"@ + decimal(n))));
        assert(field + " > "@ + ("?"@ + decimal(n)) =~= field + " > "@ + "?"@ + decimal(n));
    }
    if c.op == FilterOp::Gte {
        assert(compile_spec(FilterExpr::Condition(c), alias, params).0 == Ok::<Seq<char>, Fault>(field + " >= "@ + ("?"@ + decimal(n))));
        assert(field + " >= "@ + ("?"@ + decimal(n)) =~= field + " >= "@ + "?"@ + decimal(n));
    }
    if c.op == FilterOp::Lt {
        assert(compile_spec(FilterExpr::Condition(c), alias, params).0 == Ok::<Seq<char>, Fault>(field + " < "@ + ("?"@ + decimal(n))));
        assert(field + " < "@ + ("?"@ + decimal(n)) =~= field + " < "@ + "?"@ + decimal(n));
    }
    if c.op == FilterOp::Lte {
        assert(compile_spec(FilterExpr::Condition(c), alias, params).0 == Ok::<Seq<char>, Fault>(field + " <= "@ + ("?"@ + decimal(n))));
        assert(field + " <= "@ + ("?"@ + decimal(n)) =~= field + " <= "@ + "?"@ + decimal(n));
    }
}

/// A comparison on a metadata path compiles to the JSON lookup of the path
/// (bound as the next parameter), the SQL comparison the operator names and
/// the placeholder after it, whose parameter is the value's text.
pub proof fn lemma_metadata_comparison(c: Condition, alias: Seq<char>, params: Seq<Seq<char>>)
    requires
        resolved_field(c.field@) matches Ok((is_column, _)) && !is_column,
        scalar_text(c.value) is Ok,
    ensures
        c.op == FilterOp::Eq ==> compile_spec(FilterExpr::Condition(c), alias, params) == (
            Ok::<Seq<char>, Fault>(
                "json_extract("@ + alias + ".metadata, ?"@ + decimal(params.len() + 1) + ")"@ + " = "@ + "?"@ + decimal(
                    params.len() + 2,
                ),
            ),
            params.push(resolved_field(c.field@)->Ok_0.1).push(scalar_text(c.value)->Ok_0),
        ),
        c.op == FilterOp::Ne ==> compile_spec(FilterExpr::Condition(c), alias, params) == (
            Ok::<Seq<char>, Fault>(
                "json_extract("@ + alias + ".metadata, ?"@ + decimal(params.len() + 1) + ")"@ + " != "@ + "?"@ + decimal(
                    params.len() + 2,
                ),
            ),
            params.push(resolved_field(c.field@)->Ok_0.1).push(scalar_text(c.value)->Ok_0),
        ),
        c.op == FilterOp::Gt ==> compile_spec(FilterExpr::Condition(c), alias, params) == (
            Ok::<Seq<char>, Fault>(
                "json_extract("@ + alias + ".metadata, ?"@ + decimal(params.len() + 1) + ")"@ + " > "@ + "?"@ + decimal(
                    params.len() + 2,
                ),
            ),
            params.push(resolved_field(c.field@)->Ok_0.1).push(scalar_text(c.value)->Ok_0),
        ),
        c.op == FilterOp::Gte ==> compile_spec(FilterExpr::Condition(c), alias, params) == (
            Ok::<Seq<char>, Fault>(
                "json_extract("@ + alias + ".metadata, ?"@ + decimal(params.len() + 1) + ")"@ + " >= "@ + "?"@ + decimal(
                    params.len() + 2,
                ),
            ),
            params.push(resolved_field(c.field@)->Ok_0.1).push(scalar_text(c.value)->Ok_0),
        ),
        c.op == FilterOp::Lt ==> compile_spec(FilterExpr::Condition(c), alias, params) == (
            Ok::<Seq<char>, Fault>(
                "json_extract("@ + alias + ".metadata, ?"@ + decimal(params.len() + 1) + ")"@ + " < "@ + "?"@ + decimal(
                    params.len() + 2,
                ),
            ),
            params.push(resolved_field(c.field@)->Ok_0.1).push(scalar_text(c.value)->Ok_0),
        ),
        c.op == FilterOp::Lte ==> compile_spec(FilterExpr::Condition(c), alias, params) == (
            Ok::<Seq<char>, Fault>(
                "json_extract("@ + alias + ".metadata, ?"@ + decimal(params.len() + 1) + ")"@ + " <= "@ + "?"@ + decimal(
                    params.len() + 2,
                ),
            ),
            params.push(resolved_field(c.field@)->Ok_0.1).push(scalar_text(c.value)->Ok_0),
        ),
{
    let n = params.len() + 2;
    let lookup = "json_extract("@ + alias + ".metadata, "@ + ("?"@ + decimal(params.len() + 1)) + ")"@;
    assert(lookup =~= "json_extract("@ + alias + ".metadata, ?"@ + decimal(params.len() + 1) + ")"@) by {
        reveal_strlit(".metadata, ?");
        reveal_strlit(".metadata, ");
        reveal_strlit("?");
    }
    if c.op == FilterOp::Eq {
        assert(compile_spec(FilterExpr::Condition(c), alias, params).0 == Ok::<Seq<char>, Fault>(lookup + " = "@ + ("?"@ + decimal(n))));
        assert(lookup + " = "@ + ("?"@ + decimal(n)) =~= lookup + " = "@ + "?"@ + decimal(n));
    }
    if c.op == FilterOp::Ne {
        assert(compile_spec(FilterExpr::Condition(c), alias, params).0 == Ok::<Seq<char>, Fault>(lookup + " != "@ + ("?"@ + decimal(n))));
        assert(lookup + " != "@ + ("?"@ + decimal(n)) =~= lookup + " != "@ + "?"@ + decimal(n));
    }
    if c.op == FilterOp::Gt {
        assert(compile_spec(FilterExpr::Condition(c), alias, params).0 == Ok::<Seq<char>, Fault>(lookup + " > "@ + ("?"@ + decimal(n))));
        assert(lookup + " > "@ + ("?"@ + decimal(n)) =~= lookup + " > "@ + "?"@ + decimal(n));
    }
    if c.op == FilterOp::Gte {
        assert(compile_spec(FilterExpr::Condition(c), alias, params).0 == Ok::<Seq<char>, Fault>(lookup + " >= "@ + ("?"@ + decimal(n))));
        assert(lookup + " >= "@ + ("?"@ + decimal(n)) =~= lookup + " >= "@ + "?"@ + decimal(n));
    }
    if c.op == FilterOp::Lt {
        assert(compile_spec(FilterExpr::Condition(c), alias, params).0 == Ok::<Seq<char>, Fault>(lookup + " < "@ + ("?"@ + decimal(n))));
        assert(lookup + " < "@ + ("?"@ + decimal(n)) =~= lookup + " < "@ + "?"@ + decimal(n));
    }
    if c.op == FilterOp::Lte {
        assert(compile_spec(FilterExpr::Condition(c), alias, params).0 == Ok::<Seq<char>, Fault>(lookup + " <= "@ + ("?"@ + decimal(n))));
        assert(lookup + " <= "@ + ("?"@ + decimal(n)) =~= lookup + " <= "@ + "?"@ + decimal(n));
    }
}

/// The texts of scalar values, in order.
pub open spec fn scalar_texts(values: Seq<FilterValue>) -> Seq<Seq<char>> {
    values.map_values(|v: FilterValue| scalar_text(v)->Ok_0)
}

/// Binding scalar values makes one placeholder per value, numbered on from
/// the parameters already bound, and appends the values' texts in order.
pub proof fn lemma_bind_values(values: Seq<FilterValue>, params: Seq<Seq<char>>)
    requires
        forall|i: int| 0 <= i < values.len() ==> scalar_text(#[trigger] values[i]) is Ok,
    ensures
        bind_values(values, params) == (
            Ok::<Seq<Seq<char>>, Fault>(Seq::new(values.len(), |i: int| "?"@ + decimal((params.len() + 1 + i) as nat))),
            params + scalar_texts(values),
        ),
    decreases values.len(),
{
    if values.len() > 0 {
        let t = scalar_text(values[0])->Ok_0;
        let rest = values.subrange(1, values.len() as int);
        assert forall|i: int| 0 <= i < rest.len() implies scalar_text(#[trigger] rest[i]) is Ok by {
            assert(rest[i] == values[i + 1]);
        }
        lemma_bind_values(rest, params.push(t));
        assert(seq![placeholder(params.len() + 1)] + Seq::new(rest.len(), |i: int| "?"@ + decimal((params.push(t).len() + 1 + i) as nat))
            =~= Seq::new(values.len(), |i: int| "?"@ + decimal((params.len() + 1 + i) as nat)));
        assert(params.push(t) + scalar_texts(rest) =~= params + scalar_texts(values));
    } else {
        assert(Seq::new(values.len(), |i: int| "?"@ + decimal((params.len() + 1 + i) as nat)) =~= Seq::<Seq<char>>::empty());
        assert(params + scalar_texts(values) =~= params);
    }
}

/// On a column of the filtered table: `contains` is a `LIKE` against the
/// value's text between `%` signs, `exists` is `IS NOT NULL` and binds
/// nothing, and `in` / `nin` are `IN (...)` / `NOT IN (...)` over one
/// placeholder per value, numbered on, bound to the values' texts in order.
pub proof fn lemma_column_set_conditions(c: Condition, alias: Seq<char>, params: Seq<Seq<char>>)
    requires
        crate::filter::dsl::column_field(c.field@),
    ensures
        c.op == FilterOp::Exists ==> compile_spec(FilterExpr::Condition(c), alias, params) == (
            Ok::<Seq<char>, Fault>(alias + "."@ + c.field@ + " IS NOT NULL"@),
            params,
        ),
        c.op == FilterOp::Contains && scalar_text(c.value) is Ok ==> compile_spec(FilterExpr::Condition(c), alias, params) == (
            Ok::<Seq<char>, Fault>(alias + "."@ + c.field@ + " LIKE ?"@ + decimal(params.len() + 1)),
            params.push("%"@ + scalar_text(c.value)->Ok_0 + "%"@),
        ),
        (c.op == FilterOp::In || c.op == FilterOp::Nin) ==> match c.value {
            FilterValue::Array { items, .. } => (items@.len() > 0 && forall|i: int|
                0 <= i < items@.len() ==> scalar_text(#[trigger] items@[i]) is Ok) ==> compile_spec(
                FilterExpr::Condition(c),
                alias,
                params,
            ) == (
                Ok::<Seq<char>, Fault>(
                    alias + "."@ + c.field@ + (if c.op == FilterOp::In {
                        " IN ("@
                    } else {
                        " NOT IN ("@
                    }) + joined(
                        Seq::new(items@.len(), |i: int| "?"@ + decimal((params.len() + 1 + i) as nat)),
                        ", "@,
                    ) + ")"@,
                ),
                params + scalar_texts(items@),
            ),
            _ => compile_spec(FilterExpr::Condition(c), alias, params).0 is Err,
        },
{
    let field = alias + "."@ + c.field@;
    if c.op == FilterOp::Contains && scalar_text(c.value) is Ok {
        assert(field + " LIKE "@ + ("?"@ + decimal(params.len() + 1)) =~= field + " LIKE ?"@ + decimal(params.len() + 1)) by {
            reveal_strlit(" LIKE ");
            reveal_strlit(" LIKE ?");
            reveal_strlit("?");
        }
    }
    if c.op == FilterOp::In || c.op == FilterOp::Nin {
        match c.value {
            FilterValue::Array { items, .. } => {
                if items@.len() > 0 && forall|i: int| 0 <= i < items@.len() ==> scalar_text(#[trigger] items@[i]) is Ok {
                    lemma_bind_values(items@, params);
                }
            },
            _ => {},
        }
    }
}

/// Compiles an expression: the SQL (or the first fault met, left to right)
/// and the parameters bound so far.
pub open spec fn compile_spec(e: FilterExpr, alias: Seq<char>, params: Seq<Seq<char>>) -> (Result<Seq<char>, Fault>, Seq<Seq<char>>)
    decreases e, 0int,
{
    match e {
        FilterExpr::And { and } => {
            let (r, p) = compile_list_spec(and@, alias, params);
            (
                match r {
                    Ok(parts) => Ok("("@ + joined(parts, " AND "@) + ")"@),
                    Err(f) => Err(f),
                },
                p,
            )
        },
        FilterExpr::Or { or } => {
            let (r, p) = compile_list_spec(or@, alias, params);
            (
                match r {
                    Ok(parts) => Ok("("@ + joined(parts, " OR "@) + ")"@),
                    Err(f) => Err(f),
                },
                p,
            )
        },
        FilterExpr::Not { not } => {
            let (r, p) = compile_spec(*not, alias, params);
            (
                match r {
                    Ok(inner) => Ok("NOT ("@ + inner + ")"@),
                    Err(f) => Err(f),
                },
                p,
            )
        },
        FilterExpr::Condition(c) => compile_condition_spec(c, alias, params),
    }
}

/// Compiles the expressions `items` in order.
pub open spec fn compile_list_spec(items: Seq<FilterExpr>, alias: Seq<char>, params: Seq<Seq<char>>) -> (Result<Seq<Seq<char>>, Fault>, Seq<Seq<char>>)
    decreases items, 1int,
{
    if items.len() == 0 {
        (Ok(Seq::empty()), params)
    } else {
        let (r0, p1) = compile_spec(items[0], alias, params);
        match r0 {
            Err(f) => (Err(f), p1),
            Ok(s0) => prepend(seq![s0], compile_list_spec(items.subrange(1, items.len() as int), alias, p1)),
        }
    }
}

proof fn lemma_prepend_push(acc: Seq<Seq<char>>, x: Seq<char>, step: (Result<Seq<Seq<char>>, Fault>, Seq<Seq<char>>))
    ensures
        prepend(acc, prepend(seq![x], step)) == prepend(acc.push(x), step),
{
    match step.0 {
        Ok(rest) => {
            assert(acc + (seq![x] + rest) =~= acc.push(x) + rest);
        },
        Err(_) => {},
    }
}

proof fn lemma_prepend_empty(step: (Result<Seq<Seq<char>>, Fault>, Seq<Seq<char>>))
    ensures
        prepend(Seq::empty(), step) == step,
{
    match step.0 {
        Ok(rest) => {
            assert(Seq::<Seq<char>>::empty() + rest =~= rest);
        },
        Err(_) => {},
    }
}

fn validation_error(msg: String) -> (r: FilterError)
    ensures
        r@ == validation(msg@),
{
    FilterError::Validation(msg)
}

fn scalar_to_string(value: &FilterValue) -> (r: Result<String, FilterError>)
    ensures
        match r {
            Ok(t) => scalar_text(*value) == Ok::<Seq<char>, Fault>(t@),
            Err(e) => scalar_text(*value) == Err::<Seq<char>, Fault>(e@),
        },
{
    match value {
        FilterValue::String(s) => Ok(s.clone()),
        FilterValue::Number(n) => Ok(n.clone()),
        FilterValue::Bool(b) => Ok(String::from_str(if *b { "true" } else { "false" })),
        FilterValue::Null => Err(validation_error(String::from_str("unsupported scalar value: null"))),
        FilterValue::Array { json, .. } => {
            let mut m = String::new();
            push_str(&mut m, "unsupported scalar value: ");
            push_string(&mut m, json);
            Err(validation_error(m))
        },
        FilterValue::Object { json } => {
            let mut m = String::new();
            push_str(&mut m, "unsupported scalar value: ");
            push_string(&mut m, json);
            Err(validation_error(m))
        },
    }
}

fn placeholder_text(n: usize) -> (r: String)
    ensures
        r@ == placeholder(n as nat),
{
    let mut s = String::new();
    push_str(&mut s, "?");
    push_decimal(&mut s, n as u64);
    s
}

fn bind_value_list(values: &Vec<FilterValue>, params: &mut Vec<String>) -> (r: Result<Vec<String>, FilterError>)
    ensures
        ({
            let (bound, ps) = bind_values(values@, string_views(old(params)@));
            &&& string_views(final(params)@) == ps
            &&& match r {
                Ok(phs) => bound == Ok::<Seq<Seq<char>>, Fault>(string_views(phs@)),
                Err(e) => bound == Err::<Seq<Seq<char>>, Fault>(e@),
            }
        }),
{
    let ghost p0 = string_views(params@);
    let mut phs: Vec<String> = Vec::new();
    proof {
        assert(values@.subrange(0, values@.len() as int) == values@);
        lemma_prepend_empty(bind_values(values@, p0));
        assert(string_views(phs@) =~= Seq::<Seq<char>>::empty());
    }
    for i in 0..values.len()
        invariant
            p0 == string_views(old(params)@),
            bind_values(values@, p0) == prepend(
                string_views(phs@),
                bind_values(values@.subrange(i as int, values@.len() as int), string_views(params@)),
            ),
    {
        let ghost rest = values@.subrange(i as int, values@.len() as int);
        let ghost pv = string_views(params@);
        assert(rest[0] == values@[i as int]);
        assert(rest.subrange(1, rest.len() as int) == values@.subrange(i + 1, values@.len() as int));
        match scalar_to_string(&values[i]) {
            Err(e) => {
                return Err(e);
            },
            Ok(t) => {
                let ghost tv = t@;
                params.push(t);
                assert(string_views(params@) =~= pv.push(tv));
                let ph = placeholder_text(params.len());
                let ghost acc = string_views(phs@);
                phs.push(ph);
                proof {
                    assert(string_views(phs@) =~= acc.push(ph@));
                    lemma_prepend_push(acc, ph@, bind_values(values@.subrange(i + 1, values@.len() as int), string_views(params@)));
                }
            },
        }
    }
    proof {
        let e = values@.subrange(values@.len() as int, values@.len() as int);
        assert(e.len() == 0);
        assert(string_views(phs@) + Seq::<Seq<char>>::empty() =~= string_views(phs@));
    }
    Ok(phs)
}

/// The view of a compilation outcome.
pub open spec fn sql_outcome(r: Result<String, FilterError>) -> Result<Seq<char>, Fault> {
    match r {
        Ok(s) => Ok(s@),
        Err(e) => Err(e@),
    }
}

fn metadata_text(alias: &str, n: usize) -> (r: String)
    ensures
        r@ == metadata_sql(alias@, n as nat),
{
    let mut s = String::new();
    push_str(&mut s, "json_extract(");
    push_str(&mut s, alias);
    push_str(&mut s, ".metadata, ");
    let ph = placeholder_text(n);
    push_string(&mut s, &ph);
    push_str(&mut s, ")");
    s
}

fn compile_condition(cond: &Condition, alias: &str, params: &mut Vec<String>) -> (r: Result<String, FilterError>)
    ensures
        (sql_outcome(r), string_views(final(params)@)) == compile_condition_spec(*cond, alias@, string_views(old(params)@)),
{
    let ghost p0 = string_views(params@);
    let field = match resolve_field(cond.field.as_str()) {
        Ok(f) => f,
        Err(e) => return Err(e),
    };
    let is_column = match &field {
        ResolvedField::Column(_) => true,
        ResolvedField::Metadata(_) => false,
    };
    let sql_field = match &field {
        ResolvedField::Column(name) => {
            let mut s = String::new();
            push_str(&mut s, alias);
            push_str(&mut s, ".");
            push_str(&mut s, name);
            s
        },
        ResolvedField::Metadata(path) => {
            let ghost pv = string_views(params@);
            params.push(path.clone());
            assert(string_views(params@) =~= pv.push(path@));
            metadata_text(alias, params.len())
        },
    };
    let ghost p1 = string_views(params@);
    match cond.op {
        FilterOp::Exists => {
            if let ResolvedField::Metadata(path) = &field {
                params.push(path.clone());
                assert(string_views(params@) =~= p1.push(path@));
                let mut s = metadata_text(alias, params.len());
                push_str(&mut s, " IS NOT NULL");
                Ok(s)
            } else {
                let mut s = sql_field;
                push_str(&mut s, " IS NOT NULL");
                Ok(s)
            }
        },
        FilterOp::Contains => {
            let value = match scalar_to_string(&cond.value) {
                Ok(v) => v,
                Err(e) => return Err(e),
            };
            let mut bound = String::new();
            push_str(&mut bound, "%");
            push_string(&mut bound, &value);
            push_str(&mut bound, "%");
            let ghost bv = bound@;
            params.push(bound);
            assert(string_views(params@) =~= p1.push(bv));
            let mut s = sql_field;
            push_str(&mut s, " LIKE ");
            let ph = placeholder_text(params.len());
            push_string(&mut s, &ph);
            Ok(s)
        },
        FilterOp::In | FilterOp::Nin => {
            let values = match &cond.value {
                FilterValue::Array { items, .. } => items,
                _ => return Err(validation_error(String::from_str("in/nin requires array"))),
            };
            if values.len() == 0 {
                return Err(validation_error(String::from_str("in/nin requires non-empty array")));
            }
            let phs = match bind_value_list(values, params) {
                Ok(phs) => phs,
                Err(e) => return Err(e),
            };
            let mut s = sql_field;
            if cond.op == FilterOp::In {
                push_str(&mut s, " IN (");
            } else {
                push_str(&mut s, " NOT IN (");
            }
            push_joined(&mut s, &phs, ", ");
            push_str(&mut s, ")");
            Ok(s)
        },
        _ => {
            let value = match scalar_to_string(&cond.value) {
                Ok(v) => v,
                Err(e) => return Err(e),
            };
            let ghost vv = value@;
            params.push(value);
            assert(string_views(params@) =~= p1.push(vv));
            let mut s = sql_field;
            let op_sql = match cond.op {
                FilterOp::Eq => " = ",
                FilterOp::Ne => " != ",
                FilterOp::Gt => " > ",
                FilterOp::Gte => " >= ",
                FilterOp::Lt => " < ",
                _ => " <= ",
            };
            push_str(&mut s, op_sql);
            let ph = placeholder_text(params.len());
            push_string(&mut s, &ph);
            Ok(s)
        },
    }
}

fn compile_expr(expr: &FilterExpr, alias: &str, params: &mut Vec<String>) -> (r: Result<String, FilterError>)
    ensures
        (sql_outcome(r), string_views(final(params)@)) == compile_spec(*expr, alias@, string_views(old(params)@)),
    decreases expr,
{
    match expr {
        FilterExpr::And { and: items } => {
            let parts = match compile_list(items, alias, params) {
                Ok(parts) => parts,
                Err(e) => return Err(e),
            };
            let mut s = String::new();
            push_str(&mut s, "(");
            push_joined(&mut s, &parts, " AND ");
            push_str(&mut s, ")");
            Ok(s)
        },
        FilterExpr::Or { or: items } => {
            let parts = match compile_list(items, alias, params) {
                Ok(parts) => parts,
                Err(e) => return Err(e),
            };
            let mut s = String::new();
            push_str(&mut s, "(");
            push_joined(&mut s, &parts, " OR ");
            push_str(&mut s, ")");
            Ok(s)
        },
        FilterExpr::Not { not: inner } => {
            let inner_sql = match compile_expr(inner, alias, params) {
                Ok(s) => s,
                Err(e) => return Err(e),
            };
            let mut s = String::new();
            push_str(&mut s, "NOT (");
            push_string(&mut s, &inner_sql);
            push_str(&mut s, ")");
            Ok(s)
        },
        FilterExpr::Condition(cond) => compile_condition(cond, alias, params),
    }
}

fn compile_list(items: &Vec<FilterExpr>, alias: &str, params: &mut Vec<String>) -> (r: Result<Vec<String>, FilterError>)
    ensures
        ({
            let (parts, ps) = compile_list_spec(items@, alias@, string_views(old(params)@));
            &&& string_views(final(params)@) == ps
            &&& match r {
                Ok(v) => parts == Ok::<Seq<Seq<char>>, Fault>(string_views(v@)),
                Err(e) => parts == Err::<Seq<Seq<char>>, Fault>(e@),
            }
        }),
    decreases items,
{
    let ghost p0 = string_views(params@);
    let mut parts: Vec<String> = Vec::new();
    proof {
        assert(items@.subrange(0, items@.len() as int) == items@);
        lemma_prepend_empty(compile_list_spec(items@, alias@, p0));
        assert(string_views(parts@) =~= Seq::<Seq<char>>::empty());
    }
    for i in 0..items.len()
        invariant
            p0 == string_views(old(params)@),
            compile_list_spec(items@, alias@, p0) == prepend(
                string_views(parts@),
                compile_list_spec(items@.subrange(i as int, items@.len() as int), alias@, string_views(params@)),
            ),
    {
        let ghost rest = items@.subrange(i as int, items@.len() as int);
        assert(rest[0] == items@[i as int]);
        assert(rest.subrange(1, rest.len() as int) == items@.subrange(i + 1, items@.len() as int));
        match compile_expr(&items[i], alias, params) {
            Err(e) => {
                return Err(e);
            },
            Ok(s0) => {
                let ghost acc = string_views(parts@);
                parts.push(s0);
                proof {
                    assert(string_views(parts@) =~= acc.push(s0@));
                    lemma_prepend_push(acc, s0@, compile_list_spec(items@.subrange(i + 1, items@.len() as int), alias@, string_views(params@)));
                }
            },
        }
    }
    proof {
        assert(string_views(parts@) + Seq::<Seq<char>>::empty() =~= string_views(parts@));
    }
    Ok(parts)
}

/// Compiles `expr` for the table aliased `table_alias`.
pub fn compile_filter(expr: &FilterExpr, table_alias: &str) -> (r: Result<SqlFilter, FilterError>)
    ensures
        ({
            let (sql, ps) = compile_spec(*expr, table_alias@, Seq::empty());
            match r {
                Ok(f) => sql == Ok::<Seq<char>, Fault>(f.sql@) && string_views(f.params@) == ps,
                Err(e) => sql == Err::<Seq<char>, Fault>(e@),
            }
        }),
{
    let mut params: Vec<String> = Vec::new();
    assert(string_views(params@) =~= Seq::<Seq<char>>::empty());
    match compile_expr(expr, table_alias, &mut params) {
        Ok(sql) => Ok(SqlFilter { sql, params }),
        Err(e) => Err(e),
    }
}

} // verus!
