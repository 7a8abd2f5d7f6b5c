//! The JSON texts the library reads and writes, through `serde_json`.
use vstd::prelude::*;

use crate::text::{push_signed_decimal, push_str, signed_decimal};

verus! {

/// What `serde_json` reads from `text` when it is a JSON array: for each
/// element, its string when it is a JSON string and `None` otherwise; `None`
/// when `text` is no JSON array.
pub uninterp spec fn json_array_items(text: Seq<char>) -> Option<Seq<Option<Seq<char>>>>;

/// The views of optional strings.
pub open spec fn optional_views(items: Seq<Option<String>>) -> Seq<Option<Seq<char>>> {
    items.map_values(|o: Option<String>| match o {
        Some(s) => Some(s@),
        None => None,
    })
}

/// Reads `text` with `serde_json::from_str` as a `serde_json::Value` and, when
/// it is an array, hands out each element's string (`Value::as_str`).
/// Trusted: what is read is `json_array_items` of the text, a function of the
/// text alone.
#[verifier::external_body]
pub(crate) fn read_json_array_items(text: &str) -> (r: Option<Vec<Option<String>>>)
    ensures
        match r {
            Some(v) => json_array_items(text@) == Some(optional_views(v@)),
            None => json_array_items(text@) is None,
        },
{
    let value: serde_json::Value = serde_json::from_str(text).ok()?;
    let items = value.as_array()?;
    Some(items.iter().map(|item| item.as_str().map(String::from)).collect())
}

/// What `serde_json::to_string` writes for a list of strings (`None` when it fails).
pub uninterp spec fn json_string_list(items: Seq<Seq<char>>) -> Option<Seq<char>>;

/// The views of a list of strings.
pub open spec fn string_views(items: Seq<String>) -> Seq<Seq<char>> {
    items.map_values(|s: String| s@)
}

/// Each string of a list, as an element that is a string.
pub open spec fn as_string_items(items: Seq<Seq<char>>) -> Seq<Option<Seq<char>>> {
    items.map_values(|t: Seq<char>| Some(t))
}

/// Writes a list of strings as a JSON array with `serde_json::to_string`.
/// Trusted: the text is `json_string_list` of the strings, a function of
/// them alone; as `serde_json` documents, writing fails only for a type
/// whose serialization fails or a map with keys that are not strings, so a
/// list of strings is always written; and reading the text back as a JSON
/// array gives each string again, in order.
#[verifier::external_body]
pub(crate) fn write_json_string_list(items: &Vec<String>) -> (r: Option<String>)
    ensures
        r is Some,
        match r {
            Some(s) => json_string_list(string_views(items@)) == Some(s@) && json_array_items(s@) == Some(
                as_string_items(string_views(items@)),
            ),
            None => json_string_list(string_views(items@)) is None,
        },
{
    serde_json::to_string(items).ok()
}

/// What `serde_json` reads from `text` as a `serde_json::Value`, looked up
/// at `key` (`Value::get`) and read as a string (`Value::as_str`): `None`
/// when `text` is no JSON, `Some(None)` when there is no string at `key`.
pub uninterp spec fn json_string_member(text: Seq<char>, key: Seq<char>) -> Option<Option<Seq<char>>>;

/// Reads `text` with `serde_json::from_str` and hands out the string at
/// `key`. Trusted: what is read is `json_string_member` of the text and the
/// key, a function of them alone.
#[verifier::external_body]
pub(crate) fn read_json_string_member(text: &str, key: &str) -> (r: Option<Option<String>>)
    ensures
        match r {
            Some(Some(s)) => json_string_member(text@, key@) == Some(Some(s@)),
            Some(None) => json_string_member(text@, key@) == Some(None::<Seq<char>>),
            None => json_string_member(text@, key@) is None,
        },
{
    let value: serde_json::Value = serde_json::from_str(text).ok()?;
    Some(value.get(key).and_then(|v| v.as_str()).map(String::from))
}

/// The member names of the JSON object `text` as `serde_json` reads it
/// into a `serde_json::Value`, in the order its map holds them; `None` when
/// `text` is no JSON object.
pub uninterp spec fn json_object_key_list(text: Seq<char>) -> Option<Seq<Seq<char>>>;

/// Reads `text` with `serde_json::from_str` and hands out the keys of the
/// object (`Value::as_object`, `Map::keys`). Trusted: what is read is
/// `json_object_key_list` of the text, a function of it alone.
#[verifier::external_body]
pub(crate) fn read_json_object_keys(text: &str) -> (r: Option<Vec<String>>)
    ensures
        match r {
            Some(v) => json_object_key_list(text@) == Some(string_views(v@)),
            None => json_object_key_list(text@) is None,
        },
{
    let value: serde_json::Value = serde_json::from_str(text).ok()?;
    value.as_object().map(|o| o.keys().cloned().collect())
}

/// The lower-case hexadecimal digit of a value below 16.
pub open spec fn hex_digit(v: int) -> char {
    if v < 10 {
        ('0' as int + v) as char
    } else {
        ('a' as int + (v - 10)) as char
    }
}

/// How `serde_json` writes a character inside a string literal: `"` and
/// `\` after a backslash, backspace, tab, line feed, form feed and carriage
/// return as `\b`, `\t`, `\n`, `\f`, `\r`, any other character below
/// U+0020 as `\u00` and two lower-case hexadecimal digits, and every other
/// character as it is.
pub open spec fn json_escaped_char(c: char) -> Seq<char> {
    if c == '"' {
        seq!['\\', '"']
    } else if c == '\\' {
        seq!['\\', '\\']
    } else if c == '\u{8}' {
        seq!['\\', 'b']
    } else if c == '\t' {
        seq!['\\', 't']
    } else if c == '\n' {
        seq!['\\', 'n']
    } else if c == '\u{c}' {
        seq!['\\', 'f']
    } else if c == '\r' {
        seq!['\\', 'r']
    } else if (c as u32) < 0x20 {
        seq!['\\', 'u', '0', '0', hex_digit((c as u32) as int / 16), hex_digit((c as u32) as int % 16)]
    } else {
        seq![c]
    }
}

/// The characters of a text, each written as `json_escaped_char` says.
pub open spec fn json_escaped(text: Seq<char>) -> Seq<char>
    decreases text.len(),
{
    if text.len() == 0 {
        Seq::empty()
    } else {
        json_escaped(text.drop_last()) + json_escaped_char(text.last())
    }
}

/// What `serde_json::to_string` writes for a string: the JSON string
/// literal, the escaped text between double quotes (it is always written).
pub open spec fn json_string_literal(text: Seq<char>) -> Option<Seq<char>> {
    Some(seq!['"'] + json_escaped(text) + seq!['"'])
}

/// Writes `text` as a JSON string literal with `serde_json::to_string`.
/// Trusted: the literal is the one `json_string_literal` spells out (the
/// escapes of serde_json's `ESCAPE` table and `write_char_escape`); as
/// `serde_json` documents, writing fails only for a type whose serialization
/// fails or a map with keys that are not strings, so a string is always
/// written.
#[verifier::external_body]
pub(crate) fn quote_json_string(text: &str) -> (r: Option<String>)
    ensures
        r is Some,
        match r {
            Some(q) => json_string_literal(text@) == Some(q@),
            None => json_string_literal(text@) is None,
        },
{
    serde_json::to_string(text).ok()
}

/// What a JSON object holds under a key.
pub enum JsonField {
    /// The object has no member of that name.
    Absent,
    Null,
    Bool(bool),
    /// A number that fits an `i64` (no fraction, no exponent).
    Int(i64),
    Text(String),
    /// Any other number, an array or an object.
    Other,
}

/// `JsonField` with its string taken by its view.
pub enum JsonFieldView {
    Absent,
    Null,
    Bool(bool),
    Int(i64),
    Text(Seq<char>),
    Other,
}

impl View for JsonField {
    type V = JsonFieldView;

    open spec fn view(&self) -> JsonFieldView {
        match self {
            JsonField::Absent => JsonFieldView::Absent,
            JsonField::Null => JsonFieldView::Null,
            JsonField::Bool(b) => JsonFieldView::Bool(*b),
            JsonField::Int(i) => JsonFieldView::Int(*i),
            JsonField::Text(t) => JsonFieldView::Text(t@),
            JsonField::Other => JsonFieldView::Other,
        }
    }
}

/// What `serde_json` reads from `text` as a `serde_json::Value` under `key`:
/// `None` when `text` is no JSON object.
pub uninterp spec fn json_field(text: Seq<char>, key: Seq<char>) -> Option<JsonFieldView>;

/// Reads `text` with `serde_json::from_str` as a `serde_json::Value` and,
/// when it is an object, tells apart what it holds under `key`
/// (`Map::get`, the `Value` variants, `Number::as_i64`). Trusted: what is
/// read is `json_field` of the text and the key, a function of them alone;
/// and of an object written as `object_json` says, with plain distinct
/// member names, `serde_json` reads back each member as it was written
/// (a string literal as the string, a decimal integer as the `i64`) and
/// nothing under any other name.
#[verifier::external_body]
pub(crate) fn read_json_field(text: &str, key: &str) -> (r: Option<JsonField>)
    ensures
        match r {
            Some(f) => json_field(text@, key@) == Some(f@),
            None => json_field(text@, key@) is None,
        },
        forall|m: Seq<(Seq<char>, JsonFieldView)>|
            #[trigger] object_json(m) == Some(text@) ==> plain_distinct_names(m) ==> match r {
                Some(f) => f@ == member_value(m, key@),
                None => false,
            },
{
    let value: serde_json::Value = serde_json::from_str(text).ok()?;
    Some(match value.as_object()?.get(key) {
        None => JsonField::Absent,
        Some(serde_json::Value::Null) => JsonField::Null,
        Some(serde_json::Value::Bool(b)) => JsonField::Bool(*b),
        Some(serde_json::Value::Number(n)) => match n.as_i64() {
            Some(i) => JsonField::Int(i),
            None => JsonField::Other,
        },
        Some(serde_json::Value::String(t)) => JsonField::Text(t.clone()),
        Some(_) => JsonField::Other,
    })
}

/// What `serde_json` writes back for the JSON object `object` with the
/// member `key` set to the JSON value `value` (`Map::insert`): `None` when
/// `object` is no JSON object or `value` no JSON text.
pub uninterp spec fn json_with_member(object: Seq<char>, key: Seq<char>, value: Seq<char>) -> Option<Seq<char>>;

/// Reads `object` and `value` with `serde_json::from_str`, sets the member
/// `key` of the object to the value, and writes the object back with
/// `serde_json::to_string`. Trusted: the text is `json_with_member` of the
/// three texts, a function of them alone.
#[verifier::external_body]
pub(crate) fn insert_json_member(object: &str, key: &str, value: &str) -> (r: Option<String>)
    ensures
        match r {
            Some(t) => json_with_member(object@, key@, value@) == Some(t@),
            None => json_with_member(object@, key@, value@) is None,
        },
{
    let mut parsed: serde_json::Value = serde_json::from_str(object).ok()?;
    let member: serde_json::Value = serde_json::from_str(value).ok()?;
    parsed.as_object_mut()?.insert(key.to_string(), member);
    serde_json::to_string(&parsed).ok()
}

/// What `serde_json` reads from `text` under `key` (`Value::get`), written
/// back with `serde_json::to_string`: `None` when `text` is no JSON,
/// `Some(None)` when there is nothing under `key`.
pub uninterp spec fn json_member_text(text: Seq<char>, key: Seq<char>) -> Option<Option<Seq<char>>>;

/// Reads `text` with `serde_json::from_str` and writes back what is under
/// `key`. Trusted: the result is `json_member_text` of the text and the
/// key, a function of them alone.
#[verifier::external_body]
pub(crate) fn read_json_member_text(text: &str, key: &str) -> (r: Option<Option<String>>)
    ensures
        match r {
            Some(Some(t)) => json_member_text(text@, key@) == Some(Some(t@)),
            Some(None) => json_member_text(text@, key@) == Some(None::<Seq<char>>),
            None => json_member_text(text@, key@) is None,
        },
{
    let parsed: serde_json::Value = serde_json::from_str(text).ok()?;
    match parsed.get(key) {
        Some(member) => Some(Some(serde_json::to_string(member).ok()?)),
        None => Some(None),
    }
}

/// The JSON text of a member value that is `null`, a boolean, an integer
/// or a string; `None` for anything else.
pub open spec fn scalar_json(v: JsonFieldView) -> Option<Seq<char>> {
    match v {
        JsonFieldView::Null => Some("null"@),
        JsonFieldView::Bool(b) => Some(
            if b {
                "true"@
            } else {
                "false"@
            },
        ),
        JsonFieldView::Int(i) => Some(signed_decimal(i as int)),
        JsonFieldView::Text(t) => json_string_literal(t),
        _ => None,
    }
}

/// The members of an object in order, each written `"name":value`, with
/// commas between them and no other space.
pub open spec fn members_json(m: Seq<(Seq<char>, JsonFieldView)>) -> Option<Seq<char>>
    decreases m.len(),
{
    if m.len() == 0 {
        Some(Seq::empty())
    } else {
        match (members_json(m.drop_last()), scalar_json(m.last().1)) {
            (Some(front), Some(v)) => Some(
                front + (if m.len() == 1 {
                    Seq::empty()
                } else {
                    ","@
                }) + "\""@ + m.last().0 + "\":"@ + v,
            ),
            _ => None,
        }
    }
}

/// The JSON object with these members, written in order.
pub open spec fn object_json(m: Seq<(Seq<char>, JsonFieldView)>) -> Option<Seq<char>> {
    match members_json(m) {
        Some(body) => Some("{"@ + body + "}"@),
        None => None,
    }
}

/// A member name that stands between quotes as it is: lowercase ASCII
/// letters and underscores.
pub open spec fn plain_name(k: Seq<char>) -> bool {
    forall|i: int| 0 <= i < k.len() ==> ('a' <= #[trigger] k[i] <= 'z' || k[i] == '_')
}

/// Member names that are plain and pairwise distinct.
pub open spec fn plain_distinct_names(m: Seq<(Seq<char>, JsonFieldView)>) -> bool {
    &&& forall|i: int| 0 <= i < m.len() ==> plain_name(#[trigger] m[i].0)
    &&& forall|i: int, j: int| 0 <= i < j < m.len() ==> #[trigger] m[i].0 != #[trigger] m[j].0
}

/// What the members hold under a name: the last member of that name, or
/// `Absent`.
pub open spec fn member_value(m: Seq<(Seq<char>, JsonFieldView)>, key: Seq<char>) -> JsonFieldView
    decreases m.len(),
{
    if m.len() == 0 {
        JsonFieldView::Absent
    } else if m.last().0 == key {
        m.last().1
    } else {
        member_value(m.drop_last(), key)
    }
}

/// The views of a list of named members.
pub open spec fn field_views(members: Seq<(String, JsonField)>) -> Seq<(Seq<char>, JsonFieldView)> {
    members.map_values(|p: (String, JsonField)| (p.0@, p.1@))
}

/// A value that `scalar_json` writes.
pub open spec fn is_scalar(v: JsonFieldView) -> bool {
    v is Null || v is Bool || v is Int || v is Text
}

proof fn lemma_members_json_fail(m: Seq<(Seq<char>, JsonFieldView)>, k: int)
    requires
        0 <= k <= m.len(),
        members_json(m.subrange(0, k)) is None,
    ensures
        members_json(m) is None,
    decreases m.len() - k,
{
    if k < m.len() {
        let next = m.subrange(0, k + 1);
        assert(next.drop_last() == m.subrange(0, k));
        lemma_members_json_fail(m, k + 1);
    } else {
        assert(m.subrange(0, k) == m);
    }
}

/// Writes the JSON object with these members, as `object_json` says; it is
/// written whenever every value is `null`, a boolean, an integer or a
/// string.
pub fn write_json_object(members: &Vec<(String, JsonField)>) -> (r: Option<String>)
    ensures
        match object_json(field_views(members@)) {
            Some(t) => r matches Some(s) && s@ == t,
            None => r is None,
        },
        (forall|i: int| 0 <= i < members.len() ==> is_scalar(#[trigger] members@[i].1@)) ==> r is Some,
{
    let mut body = String::new();
    let ghost all = field_views(members@);
    proof {
        assert(all.subrange(0, 0) == Seq::<(Seq<char>, JsonFieldView)>::empty());
    }
    let mut i: usize = 0;
    while i < members.len()
        invariant
            i <= members@.len(),
            all == field_views(members@),
            members_json(all.subrange(0, i as int)) == Some(body@),
        decreases members@.len() - i,
    {
        let ghost before = body@;
        let ghost prefix = all.subrange(0, i + 1);
        assert(prefix.drop_last() == all.subrange(0, i as int));
        assert(prefix.last() == (members@[i as int].0@, members@[i as int].1@));
        let value: String = match &members[i].1 {
            JsonField::Null => String::from_str("null"),
            JsonField::Bool(b) => if *b {
                String::from_str("true")
            } else {
                String::from_str("false")
            },
            JsonField::Int(n) => {
                let mut t = String::new();
                push_signed_decimal(&mut t, *n);
                assert(t@ =~= signed_decimal(*n as int));
                t
            },
            JsonField::Text(t) => quote_json_string(t.as_str()).unwrap(),
            _ => {
                proof {
                    lemma_members_json_fail(all, i + 1);
                }
                return None;
            },
        };
        assert(scalar_json(members@[i as int].1@) == Some(value@));
        if i > 0 {
            push_str(&mut body, ",");
        }
        push_str(&mut body, "\"");
        push_str(&mut body, members[i].0.as_str());
        push_str(&mut body, "\":");
        push_str(&mut body, value.as_str());
        proof {
            if i == 0 {
                assert(body@ == before + Seq::<char>::empty() + "\""@ + members@[i as int].0@ + "\":"@ + value@);
            } else {
                assert(body@ == before + ","@ + "\""@ + members@[i as int].0@ + "\":"@ + value@);
            }
        }
        i += 1;
    }
    assert(all.subrange(0, members@.len() as int) == all);
    let mut out = String::from_str("{");
    push_str(&mut out, body.as_str());
    push_str(&mut out, "}");
    Some(out)
}

/// The JSON object with the members set one after the other, from `{}`.
pub open spec fn json_members(members: Seq<(Seq<char>, Seq<char>)>) -> Option<Seq<char>>
    decreases members.len(),
{
    if members.len() == 0 {
        Some("{}"@)
    } else {
        match json_members(members.drop_last()) {
            Some(t) => json_with_member(t, members.last().0, members.last().1),
            None => None,
        }
    }
}

/// The views of a list of members.
pub open spec fn member_views(members: Seq<(String, String)>) -> Seq<(Seq<char>, Seq<char>)> {
    members.map_values(|m: (String, String)| (m.0@, m.1@))
}

/// Writes the JSON object whose members are set one after the other, as
/// `json_members` says.
pub fn write_json_members(members: &Vec<(String, String)>) -> (r: Option<String>)
    ensures
        match json_members(member_views(members@)) {
            Some(t) => r matches Some(s) && s@ == t,
            None => r is None,
        },
{
    let mut text = String::from_str("{}");
    let mut i: usize = 0;
    proof {
        reveal_strlit("{}");
        assert(member_views(members@).subrange(0, 0) == Seq::<(Seq<char>, Seq<char>)>::empty());
    }
    while i < members.len()
        invariant
            i <= members@.len(),
            json_members(member_views(members@).subrange(0, i as int)) == Some(text@),
        decreases members@.len() - i,
    {
        let ghost prefix = member_views(members@).subrange(0, i + 1);
        assert(prefix.drop_last() == member_views(members@).subrange(0, i as int));
        assert(prefix.last() == (members@[i as int].0@, members@[i as int].1@));
        match insert_json_member(text.as_str(), members[i].0.as_str(), members[i].1.as_str()) {
            Some(t) => {
                text = t;
            },
            None => {
                proof {
                    lemma_json_members_fail(member_views(members@), i + 1);
                }
                return None;
            },
        }
        i += 1;
    }
    assert(member_views(members@).subrange(0, members@.len() as int) == member_views(members@));
    Some(text)
}

proof fn lemma_json_members_fail(m: Seq<(Seq<char>, Seq<char>)>, k: int)
    requires
        0 <= k <= m.len(),
        json_members(m.subrange(0, k)) is None,
    ensures
        json_members(m) is None,
    decreases m.len() - k,
{
    if k < m.len() {
        let next = m.subrange(0, k + 1);
        assert(next.drop_last() == m.subrange(0, k));
        lemma_json_members_fail(m, k + 1);
    } else {
        assert(m.subrange(0, k) == m);
    }
}

} // verus!
