//! Google Vertex AI: the project and location read from the endpoint JSON,
//! the base URL they give, and the checks on a service account key.
use vstd::prelude::*;

use crate::json::{json_string_member, read_json_string_member};
use crate::text::{chars_of, chars_trim, push_str, str_eq, string_from_chars, trim};

verus! {

/// Where Vertex AI requests go.
#[derive(Clone, Debug)]
pub struct VertexConfig {
    pub project_id: String,
    pub location: String,
}

/// A string member of the endpoint JSON, trimmed, if present and not empty.
pub open spec fn trimmed_member(m: Option<Seq<char>>) -> Option<Seq<char>> {
    match m {
        Some(s) => if trim(s).len() > 0 { Some(trim(s)) } else { None },
        None => None,
    }
}

/// The Vertex configuration read from the endpoint JSON, or why it cannot
/// be read.
pub open spec fn vertex_config(endpoint: Option<Seq<char>>) -> Result<(Seq<char>, Seq<char>), Seq<char>> {
    match endpoint {
        Some(raw) => if trim(raw).len() == 0 {
            Err("vertex provider requires endpoint JSON with project_id"@)
        } else {
            match json_string_member(raw, "project_id"@) {
                None => Err("vertex endpoint must be JSON: {\"project_id\":\"\u{2026}\",\"location\":\"\u{2026}\"}"@),
                Some(p) => match trimmed_member(p) {
                    None => Err("vertex endpoint JSON requires project_id"@),
                    Some(project) => {
                        let location = match json_string_member(raw, "location"@) {
                            Some(l) => match trimmed_member(l) {
                                Some(x) => x,
                                None => "global"@,
                            },
                            None => "global"@,
                        };
                        Ok((project, location))
                    },
                },
            }
        },
        None => Err("vertex provider requires endpoint JSON with project_id"@),
    }
}

fn trimmed(s: Option<String>) -> (r: Option<String>)
    ensures
        match r {
            Some(x) => trimmed_member(
                match s {
                    Some(y) => Some(y@),
                    None => None,
                },
            ) == Some(x@),
            None => trimmed_member(
                match s {
                    Some(y) => Some(y@),
                    None => None,
                },
            ) is None,
        },
{
    match s {
        Some(y) => {
            let t = chars_trim(&chars_of(y.as_str()));
            if t.len() > 0 {
                Some(string_from_chars(&t))
            } else {
                None
            }
        },
        None => None,
    }
}

/// Reads the project and location from the Vertex endpoint JSON; the
/// location defaults to `global`.
pub fn parse_vertex_config(endpoint: Option<&str>) -> (r: Result<VertexConfig, String>)
    ensures
        match vertex_config(
            match endpoint {
                Some(e) => Some(e@),
                None => None,
            },
        ) {
            Ok((p, l)) => r matches Ok(c) && c.project_id@ == p && c.location@ == l,
            Err(d) => r matches Err(e) && e@ == d,
        },
{
    let raw = match endpoint {
        Some(raw) => raw,
        None => return Err(String::from_str("vertex provider requires endpoint JSON with project_id")),
    };
    if chars_trim(&chars_of(raw)).len() == 0 {
        return Err(String::from_str("vertex provider requires endpoint JSON with project_id"));
    }
    let project = match read_json_string_member(raw, "project_id") {
        Some(p) => p,
        None => return Err(String::from_str("vertex endpoint must be JSON: {\"project_id\":\"\u{2026}\",\"location\":\"\u{2026}\"}")),
    };
    let project_id = match trimmed(project) {
        Some(p) => p,
        None => return Err(String::from_str("vertex endpoint JSON requires project_id")),
    };
    let location = match read_json_string_member(raw, "location") {
        Some(l) => match trimmed(l) {
            Some(x) => x,
            None => String::from_str("global"),
        },
        None => String::from_str("global"),
    };
    Ok(VertexConfig { project_id, location })
}

/// The Vertex AI base URL for a project and location.
pub open spec fn vertex_base_url(project_id: Seq<char>, location: Seq<char>) -> Seq<char> {
    if location == "global"@ {
        "https://aiplatform.googleapis.com/v1/projects/"@ + project_id + "/locations/global/"@
    } else {
        "https://"@ + location + "-aiplatform.googleapis.com/v1/projects/"@ + project_id + "/locations/"@ + location + "/"@
    }
}

/// The Vertex AI base URL for a project and location.
pub fn build_vertex_base_url(project_id: &str, location: &str) -> (r: String)
    ensures
        r@ == vertex_base_url(project_id@, location@),
{
    let mut s = String::new();
    if str_eq(location, "global") {
        push_str(&mut s, "https://aiplatform.googleapis.com/v1/projects/");
        push_str(&mut s, project_id);
        push_str(&mut s, "/locations/global/");
    } else {
        push_str(&mut s, "https://");
        push_str(&mut s, location);
        push_str(&mut s, "-aiplatform.googleapis.com/v1/projects/");
        push_str(&mut s, project_id);
        push_str(&mut s, "/locations/");
        push_str(&mut s, location);
        push_str(&mut s, "/");
    }
    s
}

/// Whether the key JSON `raw` has field `key` as a non-empty string.
pub open spec fn has_field(raw: Seq<char>, key: Seq<char>) -> bool {
    json_string_member(raw, key) matches Some(Some(s)) && s.len() > 0
}

/// Why a service account key is refused, if it is.
pub open spec fn service_account_problem(raw: Seq<char>) -> Option<Seq<char>> {
    let t = trim(raw);
    if json_string_member(t, "type"@) is None {
        Some("service account JSON is not valid JSON"@)
    } else if !has_field(t, "type"@) {
        Some("service account JSON missing required field 'type'"@)
    } else if !has_field(t, "project_id"@) {
        Some("service account JSON missing required field 'project_id'"@)
    } else if !has_field(t, "private_key"@) {
        Some("service account JSON missing required field 'private_key'"@)
    } else if !has_field(t, "client_email"@) {
        Some("service account JSON missing required field 'client_email'"@)
    } else {
        None
    }
}

fn field_present(raw: &str, key: &str) -> (r: bool)
    ensures
        r == has_field(raw@, key@),
{
    match read_json_string_member(raw, key) {
        Some(Some(s)) => !s.as_str().is_empty(),
        _ => false,
    }
}

/// Checks that a service account key is JSON with the fields Google needs.
pub fn validate_service_account_json(raw: &str) -> (r: Result<(), String>)
    ensures
        match service_account_problem(raw@) {
            Some(d) => r matches Err(e) && e@ == d,
            None => r is Ok,
        },
{
    let t = string_from_chars(&chars_trim(&chars_of(raw)));
    let t = t.as_str();
    match read_json_string_member(t, "type") {
        None => return Err(String::from_str("service account JSON is not valid JSON")),
        Some(_) => {},
    }
    if !field_present(t, "type") {
        return Err(String::from_str("service account JSON missing required field 'type'"));
    }
    if !field_present(t, "project_id") {
        return Err(String::from_str("service account JSON missing required field 'project_id'"));
    }
    if !field_present(t, "private_key") {
        return Err(String::from_str("service account JSON missing required field 'private_key'"));
    }
    if !field_present(t, "client_email") {
        return Err(String::from_str("service account JSON missing required field 'client_email'"));
    }
    Ok(())
}

} // verus!
