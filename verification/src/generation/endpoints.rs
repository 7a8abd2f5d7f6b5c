//! Provider endpoints as users paste them: OpenAI-compatible base URLs are
//! normalised, Azure deployment URLs are read for their deployment name
//! and kind, and the model id sent to the provider is resolved.
use vstd::prelude::*;

use crate::text::{chars_contains, chars_ends_with, chars_of, chars_slice, chars_trim, has_infix, has_suffix, push_char, push_str, string_from_chars, trim};

verus! {

/// Position of the first `c` in `s`.
pub open spec fn first_index_of(s: Seq<char>, c: char) -> Option<int>
    decreases s.len(),
{
    if s.len() == 0 {
        None
    } else if s[0] == c {
        Some(0)
    } else {
        match first_index_of(s.drop_first(), c) {
            Some(i) => Some(i + 1),
            None => None,
        }
    }
}

/// `s` without the copies of `c` at its end.
pub open spec fn trim_end_char(s: Seq<char>, c: char) -> Seq<char>
    decreases s.len(),
{
    if s.len() > 0 && s.last() == c {
        trim_end_char(s.drop_last(), c)
    } else {
        s
    }
}

fn chars_first_index(v: &Vec<char>, c: char) -> (r: Option<usize>)
    ensures
        match r {
            Some(i) => first_index_of(v@, c) == Some(i as int) && i < v@.len(),
            None => first_index_of(v@, c) is None,
        },
{
    let mut i: usize = 0;
    assert(v@.subrange(0, v@.len() as int) == v@);
    while i < v.len()
        invariant
            i <= v@.len(),
            first_index_of(v@, c) == match first_index_of(v@.subrange(i as int, v@.len() as int), c) {
                Some(k) => Some(k + i),
                None => None::<int>,
            },
        decreases v@.len() - i,
    {
        let ghost rest = v@.subrange(i as int, v@.len() as int);
        assert(rest.drop_first() == v@.subrange(i + 1, v@.len() as int));
        if v[i] == c {
            return Some(i);
        }
        i += 1;
    }
    None
}

fn chars_trim_end_char(v: &Vec<char>, c: char) -> (r: Vec<char>)
    ensures
        r@ == trim_end_char(v@, c),
{
    let mut n = v.len();
    assert(v@.subrange(0, v@.len() as int) == v@);
    while n > 0 && v[n - 1] == c
        invariant
            n <= v@.len(),
            trim_end_char(v@, c) == trim_end_char(v@.subrange(0, n as int), c),
        decreases n,
    {
        assert(v@.subrange(0, n as int).drop_last() == v@.subrange(0, n - 1));
        n -= 1;
    }
    let r = chars_slice(v, 0, n);
    assert(v@.subrange(0, v@.len() as int) == v@);
    r
}

/// `url` without `suffix` and the slashes before it, if it ends with `suffix`.
pub open spec fn strip_api_suffix(url: Seq<char>, suffix: Seq<char>) -> Seq<char> {
    if has_suffix(url, suffix) {
        trim_end_char(url.subrange(0, url.len() - suffix.len()), '/')
    } else {
        url
    }
}

fn chars_strip_api_suffix(url: &Vec<char>, suffix: &str) -> (r: Vec<char>)
    ensures
        r@ == strip_api_suffix(url@, suffix@),
{
    let s = chars_of(suffix);
    if chars_ends_with(url, &s) {
        chars_trim_end_char(&chars_slice(url, 0, url.len() - s.len()), '/')
    } else {
        chars_slice(url, 0, url.len())
    }
}

/// The OpenAI-compatible base URL for what a user pasted: trimmed, without
/// a trailing `/chat/completions`, `/responses` or `/embeddings` path (in
/// that order), ending in one `/`, with its query string kept.
pub open spec fn openai_base_url(raw: Seq<char>) -> Seq<char> {
    let t = trim(raw);
    let (path, query) = match first_index_of(t, '?') {
        Some(i) => (t.subrange(0, i), Some(t.subrange(i + 1, t.len() as int))),
        None => (t, None),
    };
    let u0 = trim_end_char(path, '/');
    let u1 = strip_api_suffix(u0, "/chat/completions"@);
    let u2 = strip_api_suffix(u1, "/responses"@);
    let u3 = strip_api_suffix(u2, "/embeddings"@);
    let u = if u3.len() > 0 && u3.last() == '/' { u3 } else { u3.push('/') };
    match query {
        Some(q) => if q.len() > 0 { u + "?"@ + q } else { u },
        None => u,
    }
}

/// Normalises an OpenAI-compatible base URL: strips the `/chat/completions`,
/// `/responses` or `/embeddings` path users paste from provider docs, and
/// keeps the query string.
pub fn normalize_openai_base_url(raw: &str) -> (r: String)
    ensures
        r@ == openai_base_url(raw@),
{
    let t = chars_trim(&chars_of(raw));
    let (path, query) = match chars_first_index(&t, '?') {
        Some(i) => {
            let n = t.len();
            (chars_slice(&t, 0, i), Some(chars_slice(&t, i + 1, n)))
        },
        None => (chars_slice(&t, 0, t.len()), None),
    };
    assert(t@.subrange(0, t@.len() as int) == t@);
    let u0 = chars_trim_end_char(&path, '/');
    let u1 = chars_strip_api_suffix(&u0, "/chat/completions");
    let u2 = chars_strip_api_suffix(&u1, "/responses");
    let u3 = chars_strip_api_suffix(&u2, "/embeddings");
    let mut url = string_from_chars(&u3);
    if !(u3.len() > 0 && u3[u3.len() - 1] == '/') {
        push_char(&mut url, '/');
    }
    match query {
        Some(q) => {
            if q.len() > 0 {
                push_str(&mut url, "?");
                let qs = string_from_chars(&q);
                crate::text::push_string(&mut url, &qs);
            }
            url
        },
        None => url,
    }
}

/// Azure endpoints are full request URLs: only the surrounding whitespace
/// goes.
pub fn normalize_azure_endpoint(raw: &str) -> (r: String)
    ensures
        r@ == trim(raw@),
{
    string_from_chars(&chars_trim(&chars_of(raw)))
}

/// The code of `c` with ASCII capitals made small.
pub open spec fn ascii_lower_code(c: char) -> u32 {
    if 65 <= (c as u32) <= 90 {
        ((c as u32) + 32) as u32
    } else {
        c as u32
    }
}

/// `a` and `b` are equal ignoring ASCII case.
pub open spec fn eq_ignore_ascii_case(a: Seq<char>, b: Seq<char>) -> bool {
    a.len() == b.len() && forall|i: int| 0 <= i < a.len() ==> ascii_lower_code(#[trigger] a[i]) == ascii_lower_code(b[i])
}

pub(crate) fn chars_eq_ignore_ascii_case(a: &Vec<char>, b: &Vec<char>) -> (r: bool)
    ensures
        r == eq_ignore_ascii_case(a@, b@),
{
    if a.len() != b.len() {
        return false;
    }
    let mut i: usize = 0;
    while i < a.len()
        invariant
            i <= a@.len(),
            a@.len() == b@.len(),
            forall|k: int| 0 <= k < i ==> ascii_lower_code(#[trigger] a@[k]) == ascii_lower_code(b@[k]),
        decreases a@.len() - i,
    {
        let x = a[i] as u32;
        let y = b[i] as u32;
        let lx = if 65 <= x && x <= 90 { x + 32 } else { x };
        let ly = if 65 <= y && y <= 90 { y + 32 } else { y };
        if lx != ly {
            assert(ascii_lower_code(a@[i as int]) != ascii_lower_code(b@[i as int]));
            return false;
        }
        i += 1;
    }
    true
}

/// The pieces of `parts` that are not empty, in order.
pub open spec fn nonempty_parts(parts: Seq<Seq<char>>) -> Seq<Seq<char>>
    decreases parts.len(),
{
    if parts.len() == 0 {
        parts
    } else if parts.last().len() == 0 {
        nonempty_parts(parts.drop_last())
    } else {
        nonempty_parts(parts.drop_last()).push(parts.last())
    }
}

/// The piece after the first `deployments` piece (in any ASCII case) that
/// has one after it.
pub open spec fn deployment_after(parts: Seq<Seq<char>>) -> Option<Seq<char>>
    decreases parts.len(),
{
    if parts.len() < 2 {
        None
    } else if eq_ignore_ascii_case(parts[0], "deployments"@) {
        Some(parts[1])
    } else {
        deployment_after(parts.drop_first())
    }
}

/// The part of a URL before its query string.
pub open spec fn url_path(url: Seq<char>) -> Seq<char> {
    match first_index_of(url, '?') {
        Some(i) => url.subrange(0, i),
        None => url,
    }
}

/// The deployment named in an Azure deployment URL's path.
pub open spec fn azure_deployment(endpoint: Seq<char>) -> Option<Seq<char>> {
    deployment_after(nonempty_parts(crate::text::split_on(url_path(endpoint), '/')))
}

/// Extracts the Azure deployment name from a Chat Completions deployment URL.
pub fn extract_azure_deployment(endpoint: &str) -> (r: Option<String>)
    ensures
        match r {
            Some(d) => azure_deployment(endpoint@) == Some(d@),
            None => azure_deployment(endpoint@) is None,
        },
{
    let v = chars_of(endpoint);
    let path = match chars_first_index(&v, '?') {
        Some(i) => chars_slice(&v, 0, i),
        None => chars_slice(&v, 0, v.len()),
    };
    assert(v@.subrange(0, v@.len() as int) == v@);
    let pieces = crate::text::chars_split(&path, '/');
    let ghost pv = pieces@.map_values(|p: Vec<char>| p@);
    let mut parts: Vec<Vec<char>> = Vec::new();
    let mut i: usize = 0;
    while i < pieces.len()
        invariant
            i <= pieces@.len(),
            pv == pieces@.map_values(|p: Vec<char>| p@),
            parts@.map_values(|p: Vec<char>| p@) == nonempty_parts(pv.subrange(0, i as int)),
        decreases pieces@.len() - i,
    {
        assert(pv.subrange(0, i + 1).drop_last() == pv.subrange(0, i as int));
        if pieces[i].len() > 0 {
            let ghost before = parts@;
            let piece = chars_slice(&pieces[i], 0, pieces[i].len());
            assert(pieces@[i as int]@.subrange(0, pieces@[i as int]@.len() as int) == pieces@[i as int]@);
            parts.push(piece);
            assert(parts@.map_values(|p: Vec<char>| p@) =~= before.map_values(|p: Vec<char>| p@).push(piece@));
        }
        i += 1;
    }
    assert(pv.subrange(0, pv.len() as int) == pv);
    let ghost all = parts@.map_values(|p: Vec<char>| p@);
    let key = chars_of("deployments");
    let mut j: usize = 0;
    assert(all.subrange(0, all.len() as int) == all);
    assert(all == nonempty_parts(crate::text::split_on(url_path(endpoint@), '/')));
    while parts.len() > 0 && j < parts.len() - 1
        invariant
            j <= parts@.len(),
            all == parts@.map_values(|p: Vec<char>| p@),
            key@ == "deployments"@,
            all == nonempty_parts(crate::text::split_on(url_path(endpoint@), '/')),
            deployment_after(all) == deployment_after(all.subrange(j as int, all.len() as int)),
        decreases parts@.len() - j,
    {
        let ghost rest = all.subrange(j as int, all.len() as int);
        assert(rest[0] == parts@[j as int]@ && rest[1] == parts@[j + 1]@);
        if chars_eq_ignore_ascii_case(&parts[j], &key) {
            assert(deployment_after(rest) == Some(rest[1]));
            let d = string_from_chars(&parts[j + 1]);
            assert(d@ == rest[1]);
            assert(all == nonempty_parts(crate::text::split_on(url_path(endpoint@), '/')));
            return Some(d);
        }
        assert(rest.drop_first() == all.subrange(j + 1, all.len() as int));
        j += 1;
    }
    None
}

/// The Unicode lower case of `s`, as `str::to_lowercase` computes it.
pub uninterp spec fn unicode_lowercase(s: Seq<char>) -> Seq<char>;

/// The ASCII lower case of a character: `A` to `Z` become `a` to `z`,
/// anything else stays.
pub open spec fn ascii_lower_char(c: char) -> char {
    if 'A' <= c <= 'Z' {
        ((c as u32) + 32) as char
    } else {
        c
    }
}

/// A text of ASCII characters only.
pub open spec fn all_ascii(s: Seq<char>) -> bool {
    forall|i: int| 0 <= i < s.len() ==> (#[trigger] s[i] as u32) < 128
}

/// `str::to_lowercase`: its result is the one named above, a function of
/// the text alone; as Unicode's lower-case mapping of the ASCII letters is
/// `a` to `z` and leaves the other ASCII characters as they are, the lower
/// case of an ASCII text is its ASCII lower case, character by character.
#[verifier::external_body]
pub(crate) fn to_lowercase(s: &str) -> (r: String)
    ensures
        r@ == unicode_lowercase(s@),
        all_ascii(s@) ==> r@ == s@.map_values(|c: char| ascii_lower_char(c)),
{
    s.to_lowercase()
}

/// Which Azure API an endpoint URL addresses.
#[derive(Clone, Copy, Debug, PartialEq, Eq, Structural)]
pub enum AzureEndpointKind {
    Responses,
    ChatCompletions,
    Unknown,
}

/// The Azure API an endpoint addresses, read from its lower-cased text.
pub open spec fn endpoint_kind(endpoint: Seq<char>) -> AzureEndpointKind {
    let lower = unicode_lowercase(endpoint);
    if has_infix(lower, "/responses"@) {
        AzureEndpointKind::Responses
    } else if has_infix(lower, "/chat/completions"@) || has_infix(lower, "/deployments/"@) {
        AzureEndpointKind::ChatCompletions
    } else {
        AzureEndpointKind::Unknown
    }
}

/// Which Azure API an endpoint URL addresses.
pub fn azure_endpoint_kind(endpoint: &str) -> (r: AzureEndpointKind)
    ensures
        r == endpoint_kind(endpoint@),
{
    let lower = chars_of(to_lowercase(endpoint).as_str());
    if chars_contains(&lower, &chars_of("/responses")) {
        AzureEndpointKind::Responses
    } else if chars_contains(&lower, &chars_of("/chat/completions")) || chars_contains(&lower, &chars_of("/deployments/")) {
        AzureEndpointKind::ChatCompletions
    } else {
        AzureEndpointKind::Unknown
    }
}

/// The model id sent to the provider, or why there is none. For an Azure
/// deployment URL the deployment name is taken when no model name is given.
pub open spec fn resolved_model_name(provider: Seq<char>, model_name: Seq<char>, endpoint: Option<Seq<char>>) -> Result<Seq<char>, Seq<char>> {
    let p = unicode_lowercase(trim(provider));
    let m = trim(model_name);
    let azure_url = p == "azure"@ && (endpoint matches Some(url) && trim(url).len() > 0);
    if azure_url && m.len() == 0 && azure_deployment(endpoint->0) is Some {
        Ok(azure_deployment(endpoint->0)->0)
    } else if azure_url && m.len() == 0 && endpoint_kind(endpoint->0) == AzureEndpointKind::Responses {
        Err("azure Responses API URLs require a model / deployment name"@)
    } else if m.len() == 0 {
        Err("model_name is required"@)
    } else {
        Ok(m)
    }
}

/// Resolves the model id sent to the provider. For Azure deployment URLs the
/// deployment name in the path is taken when `model_name` is empty.
pub fn resolve_model_name(provider: &str, model_name: &str, endpoint: Option<&str>) -> (r: Result<String, String>)
    ensures
        match resolved_model_name(
            provider@,
            model_name@,
            match endpoint {
                Some(e) => Some(e@),
                None => None,
            },
        ) {
            Ok(m) => r matches Ok(x) && x@ == m,
            Err(d) => r matches Err(x) && x@ == d,
        },
{
    let p = to_lowercase(string_from_chars(&chars_trim(&chars_of(provider))).as_str());
    let m = chars_trim(&chars_of(model_name));
    if crate::text::str_eq(p.as_str(), "azure") {
        match endpoint {
            Some(url) => {
                if chars_trim(&chars_of(url)).len() > 0 {
                    if m.len() == 0 {
                        match extract_azure_deployment(url) {
                            Some(d) => return Ok(d),
                            None => {},
                        }
                        if azure_endpoint_kind(url) == AzureEndpointKind::Responses {
                            return Err(String::from_str("azure Responses API URLs require a model / deployment name"));
                        }
                    }
                }
            },
            None => {},
        }
    }
    if m.len() == 0 {
        return Err(String::from_str("model_name is required"));
    }
    Ok(string_from_chars(&m))
}

} // verus!
