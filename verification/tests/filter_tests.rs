use base64::Engine;
use ragdoll::filter::dsl::{
    accept_filter, filter_json_payload, resolve_field, validate_filter, Condition, FilterError, FilterExpr, FilterOp,
    FilterValue, ResolvedField, MAX_CONDITIONS,
};
use ragdoll::filter::sql::compile_filter;
use serde_json::Value;

fn value_of(v: &Value) -> FilterValue {
    match v {
        Value::Null => FilterValue::Null,
        Value::Bool(b) => FilterValue::Bool(*b),
        Value::Number(n) => FilterValue::Number(n.to_string()),
        Value::String(s) => FilterValue::String(s.clone()),
        Value::Array(items) => FilterValue::Array { items: items.iter().map(value_of).collect(), json: v.to_string() },
        Value::Object(_) => FilterValue::Object { json: v.to_string() },
    }
}

fn op_of(s: &str) -> Option<FilterOp> {
    Some(match s {
        "eq" => FilterOp::Eq,
        "ne" => FilterOp::Ne,
        "gt" => FilterOp::Gt,
        "gte" => FilterOp::Gte,
        "lt" => FilterOp::Lt,
        "lte" => FilterOp::Lte,
        "in" => FilterOp::In,
        "nin" => FilterOp::Nin,
        "contains" => FilterOp::Contains,
        "exists" => FilterOp::Exists,
        _ => return None,
    })
}

fn expr_of(v: &Value) -> Option<FilterExpr> {
    if let Some(items) = v.get("and").and_then(|a| a.as_array()) {
        return Some(FilterExpr::And { and: items.iter().map(expr_of).collect::<Option<Vec<_>>>()? });
    }
    if let Some(items) = v.get("or").and_then(|a| a.as_array()) {
        return Some(FilterExpr::Or { or: items.iter().map(expr_of).collect::<Option<Vec<_>>>()? });
    }
    if let Some(inner) = v.get("not") {
        return Some(FilterExpr::Not { not: Box::new(expr_of(inner)?) });
    }
    Some(FilterExpr::Condition(Condition {
        field: v.get("field")?.as_str()?.to_string(),
        op: op_of(v.get("op")?.as_str()?)?,
        value: v.get("value").map(value_of).unwrap_or(FilterValue::Null),
    }))
}

fn decode_filter_param(raw: &str) -> Result<FilterExpr, FilterError> {
    let bytes = filter_json_payload(raw)?;
    let value: Value = serde_json::from_slice(&bytes).map_err(|e| FilterError::Json(e.to_string()))?;
    let expr = expr_of(&value).ok_or_else(|| FilterError::Json("not a filter".into()))?;
    accept_filter(expr)
}

fn cond(field: &str, op: FilterOp, value: FilterValue) -> FilterExpr {
    FilterExpr::Condition(Condition { field: field.to_string(), op, value })
}

fn strings(items: &[&str]) -> FilterValue {
    FilterValue::Array {
        items: items.iter().map(|s| FilterValue::String(s.to_string())).collect(),
        json: serde_json::to_string(items).unwrap(),
    }
}

#[test]
fn parses_and_condition() {
    let raw = r#"{"and":[{"field":"source_id","op":"in","value":["a"]}]}"#;
    let expr = decode_filter_param(raw).unwrap();
    assert!(matches!(expr, FilterExpr::And { .. }));
}

#[test]
fn parses_base64_filter() {
    let json = r#"{"field":"source_id","op":"eq","value":"abc"}"#;
    let encoded = base64::engine::general_purpose::URL_SAFE_NO_PAD.encode(json.as_bytes());
    let expr = decode_filter_param(&encoded).unwrap();
    assert!(matches!(expr, FilterExpr::Condition(_)));
}

#[test]
fn rejects_unsupported_field() {
    let raw = r#"{"field":"unknown","op":"eq","value":"x"}"#;
    let err = decode_filter_param(raw).unwrap_err();
    assert!(matches!(err, FilterError::UnsupportedField(_)));
}

#[test]
fn rejects_in_without_array() {
    let raw = r#"{"field":"source_id","op":"in","value":"x"}"#;
    let err = decode_filter_param(raw).unwrap_err();
    assert!(matches!(err, FilterError::Validation(_)));
}

#[test]
fn resolves_metadata_field() {
    let resolved = resolve_field("meta.department").unwrap();
    assert!(matches!(resolved, ResolvedField::Metadata(path) if path == "$.department"));
}

#[test]
fn compiles_or_expression() {
    let expr = FilterExpr::Or {
        or: vec![
            cond("status", FilterOp::Eq, FilterValue::String("completed".into())),
            cond("status", FilterOp::Eq, FilterValue::String("failed".into())),
        ],
    };
    let compiled = compile_filter(&expr, "s").ok().unwrap();
    assert!(compiled.sql.contains(" OR "));
}

#[test]
fn rejects_filter_exceeding_max_conditions() {
    let mut conditions = Vec::new();
    for idx in 0..=MAX_CONDITIONS {
        conditions.push(cond("source_id", FilterOp::Eq, FilterValue::String(format!("s{idx}"))));
    }
    let expr = FilterExpr::And { and: conditions };
    assert!(validate_filter(&expr, 1, &mut 0).is_err());
}

#[test]
fn compiles_source_id_in() {
    let expr = cond("source_id", FilterOp::In, strings(&["s1", "s2"]));
    let compiled = compile_filter(&expr, "c").ok().unwrap();
    assert!(compiled.sql.contains("c.source_id IN"));
    assert_eq!(compiled.params, vec!["s1", "s2"]);
}

#[test]
fn compiles_metadata_eq() {
    let expr = cond("meta.department", FilterOp::Eq, FilterValue::String("hr".into()));
    let compiled = compile_filter(&expr, "c").ok().unwrap();
    assert!(compiled.sql.contains("json_extract(c.metadata"));
    assert_eq!(compiled.params, vec!["$.department", "hr"]);
}

#[test]
fn compiles_exists_on_metadata() {
    let expr = cond("meta.department", FilterOp::Exists, FilterValue::Null);
    let compiled = compile_filter(&expr, "c").ok().unwrap();
    assert!(compiled.sql.contains("json_extract(c.metadata"));
    assert!(compiled.sql.contains("IS NOT NULL"));
}

#[test]
fn compiles_nin_operator() {
    let expr = cond("source_id", FilterOp::Nin, strings(&["a"]));
    let compiled = compile_filter(&expr, "c").ok().unwrap();
    assert!(compiled.sql.contains("NOT IN"));
}

#[test]
fn compiled_sql_numbers_its_parameters() {
    let expr = FilterExpr::And {
        and: vec![
            cond("name", FilterOp::Contains, FilterValue::String("x".into())),
            FilterExpr::Not { not: Box::new(cond("status", FilterOp::Gte, FilterValue::Number("2".into()))) },
        ],
    };
    let compiled = compile_filter(&expr, "s").ok().unwrap();
    assert_eq!(compiled.sql, "(s.name LIKE ?1 AND NOT (s.status >= ?2))");
    assert_eq!(compiled.params, vec!["%x%", "2"]);
}
