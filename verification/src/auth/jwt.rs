//! The claims of Ragdoll's bearer tokens: what a session token and an API
//! key token say, and when a verified token is still accepted.
use vstd::prelude::*;

use crate::json::{
    field_views, is_scalar, json_field, member_value, object_json, plain_distinct_names, plain_name, read_json_field,
    write_json_object, JsonField, JsonFieldView,
};
use crate::text::str_eq;

verus! {

/// What a token stands for.
#[derive(Clone, Copy, Debug, PartialEq, Eq, Structural)]
pub enum TokenKind {
    Session,
    Apikey,
}

/// The claims a token carries.
#[derive(Clone, Debug)]
pub struct AuthClaims {
    pub sub: String,
    pub typ: TokenKind,
    pub email: Option<String>,
    pub is_superadmin: bool,
    pub name: Option<String>,
    pub iat: i64,
    pub exp: Option<i64>,
}

/// `AuthClaims` with its strings taken by their views.
pub struct ClaimsView {
    pub sub: Seq<char>,
    pub typ: TokenKind,
    pub email: Option<Seq<char>>,
    pub is_superadmin: bool,
    pub name: Option<Seq<char>>,
    pub iat: i64,
    pub exp: Option<i64>,
}

/// The view of an optional string.
pub open spec fn optional_view(s: Option<String>) -> Option<Seq<char>> {
    match s {
        Some(t) => Some(t@),
        None => None,
    }
}

impl View for AuthClaims {
    type V = ClaimsView;

    open spec fn view(&self) -> ClaimsView {
        ClaimsView {
            sub: self.sub@,
            typ: self.typ,
            email: optional_view(self.email),
            is_superadmin: self.is_superadmin,
            name: optional_view(self.name),
            iat: self.iat,
            exp: self.exp,
        }
    }
}

/// The claims of a session token issued at `now` (Unix seconds) for
/// `ttl_secs` seconds.
pub fn session_claims(user_id: &str, email: &str, is_superadmin: bool, now: i64, ttl_secs: i64) -> (r: AuthClaims)
    requires
        i64::MIN <= now + ttl_secs <= i64::MAX,
    ensures
        r.sub@ == user_id@,
        r.typ == TokenKind::Session,
        r.email matches Some(e) && e@ == email@,
        r.is_superadmin == is_superadmin,
        r.name is None,
        r.iat == now,
        r.exp == Some((now + ttl_secs) as i64),
{
    AuthClaims {
        sub: String::from_str(user_id),
        typ: TokenKind::Session,
        email: Some(String::from_str(email)),
        is_superadmin,
        name: None,
        iat: now,
        exp: Some(now + ttl_secs),
    }
}

/// The claims of an API key token issued at `now`: no expiry, never a
/// superadmin.
pub fn api_key_claims(key_id: &str, name: &str, now: i64) -> (r: AuthClaims)
    ensures
        r.sub@ == key_id@,
        r.typ == TokenKind::Apikey,
        r.email is None,
        !r.is_superadmin,
        r.name matches Some(n) && n@ == name@,
        r.iat == now,
        r.exp is None,
{
    AuthClaims {
        sub: String::from_str(key_id),
        typ: TokenKind::Apikey,
        email: None,
        is_superadmin: false,
        name: Some(String::from_str(name)),
        iat: now,
        exp: None,
    }
}

/// A session token whose expiry has passed at `now`.
pub open spec fn expired(claims: AuthClaims, now: i64) -> bool {
    &&& claims.typ == TokenKind::Session
    &&& claims.exp matches Some(exp)
    &&& now > exp
}

/// Accepts the claims of a token whose signature checked out, unless it is
/// a session token whose expiry has passed at `now`; API key tokens do not
/// expire.
pub fn check_claims(claims: AuthClaims, now: i64) -> (r: Result<AuthClaims, String>)
    ensures
        expired(claims, now) ==> (r matches Err(m) && m@ == "session token expired"@),
        !expired(claims, now) ==> r == Ok::<AuthClaims, String>(claims),
{
    if claims.typ == TokenKind::Session {
        match claims.exp {
            Some(exp) => {
                if now > exp {
                    return Err(String::from_str("session token expired"));
                }
            },
            None => {},
        }
    }
    Ok(claims)
}

/// Why a token was not issued or not accepted.
#[derive(Clone, Copy, Debug, PartialEq, Eq, Structural)]
pub enum TokenError {
    /// The token is malformed, not signed with the secret, or its claims do
    /// not read as the claims of a token.
    Rejected,
    /// A session token whose expiry has passed.
    Expired,
    /// The expiry of a new session token does not fit an `i64`.
    ExpiryOverflow,
}

/// The message of a token error.
pub open spec fn token_error_message(e: TokenError) -> Seq<char> {
    match e {
        TokenError::Rejected => "invalid token"@,
        TokenError::Expired => "session token expired"@,
        TokenError::ExpiryOverflow => "session token expiry out of range"@,
    }
}

impl TokenError {
    /// The error's message.
    pub fn message(&self) -> (r: String)
        ensures
            r@ == token_error_message(*self),
    {
        match self {
            TokenError::Rejected => String::from_str("invalid token"),
            TokenError::Expired => String::from_str("session token expired"),
            TokenError::ExpiryOverflow => String::from_str("session token expiry out of range"),
        }
    }
}

/// The name a token kind is written as.
pub open spec fn kind_name(k: TokenKind) -> Seq<char> {
    match k {
        TokenKind::Session => "session"@,
        TokenKind::Apikey => "apikey"@,
    }
}

/// A string member that may be absent, written as `null` then.
pub open spec fn optional_text_member(s: Option<Seq<char>>) -> JsonFieldView {
    match s {
        None => JsonFieldView::Null,
        Some(t) => JsonFieldView::Text(t),
    }
}

/// An integer member that may be absent, written as `null` then.
pub open spec fn optional_int_member(n: Option<i64>) -> JsonFieldView {
    match n {
        None => JsonFieldView::Null,
        Some(v) => JsonFieldView::Int(v),
    }
}

/// The members a token's claims are written as, in the order of the fields.
pub open spec fn claims_members(c: ClaimsView) -> Seq<(Seq<char>, JsonFieldView)> {
    seq![
        ("sub"@, JsonFieldView::Text(c.sub)),
        ("typ"@, JsonFieldView::Text(kind_name(c.typ))),
        ("email"@, optional_text_member(c.email)),
        ("is_superadmin"@, JsonFieldView::Bool(c.is_superadmin)),
        ("name"@, optional_text_member(c.name)),
        ("iat"@, JsonFieldView::Int(c.iat)),
        ("exp"@, optional_int_member(c.exp)),
    ]
}

/// The JSON object a token's claims are written as: the members of
/// `claims_members`, absent values as `null`, nothing between the tokens
/// of the text.
pub open spec fn claims_json(c: ClaimsView) -> Option<Seq<char>> {
    object_json(claims_members(c))
}

/// Members whose JSON object `jsonwebtoken` signs and checks as it stands:
/// plain distinct names and no `aud` member (its validation refuses an
/// audience that it was not told to expect).
pub open spec fn jwt_ready_members(m: Seq<(Seq<char>, JsonFieldView)>) -> bool {
    &&& plain_distinct_names(m)
    &&& member_value(m, "aud"@) == JsonFieldView::Absent
}

/// The members of any claims have plain distinct names and no `aud`, and
/// each holds its field.
pub proof fn lemma_claims_members(c: ClaimsView)
    ensures
        jwt_ready_members(claims_members(c)),
        member_value(claims_members(c), "sub"@) == JsonFieldView::Text(c.sub),
        member_value(claims_members(c), "typ"@) == JsonFieldView::Text(kind_name(c.typ)),
        member_value(claims_members(c), "email"@) == optional_text_member(c.email),
        member_value(claims_members(c), "is_superadmin"@) == JsonFieldView::Bool(c.is_superadmin),
        member_value(claims_members(c), "name"@) == optional_text_member(c.name),
        member_value(claims_members(c), "iat"@) == JsonFieldView::Int(c.iat),
        member_value(claims_members(c), "exp"@) == optional_int_member(c.exp),
{
    reveal_strlit("sub");
    reveal_strlit("typ");
    reveal_strlit("email");
    reveal_strlit("is_superadmin");
    reveal_strlit("name");
    reveal_strlit("iat");
    reveal_strlit("exp");
    reveal_strlit("aud");
    reveal_with_fuel(member_value, 8);
    let m = claims_members(c);
    assert(plain_name("sub"@));
    assert(plain_name("typ"@));
    assert(plain_name("email"@));
    assert(plain_name("is_superadmin"@));
    assert(plain_name("name"@));
    assert(plain_name("iat"@));
    assert(plain_name("exp"@));
    assert forall|i: int| 0 <= i < m.len() implies plain_name(#[trigger] m[i].0) by {
        if i == 0 {
        } else if i == 1 {
        } else if i == 2 {
        } else if i == 3 {
        } else if i == 4 {
        } else if i == 5 {
        } else {
        }
    }
    assert forall|i: int, j: int| 0 <= i < j < m.len() implies #[trigger] m[i].0 != #[trigger] m[j].0 by {
        if m[i].0 == m[j].0 {
            assert(m[i].0.len() == m[j].0.len());
            assert(m[i].0[0] == m[j].0[0]);
            assert(m[i].0[m[i].0.len() - 1] == m[j].0[m[j].0.len() - 1]);
        }
    }
    assert(member_value(m, "aud"@) == JsonFieldView::Absent) by {
        assert("aud"@ != "exp"@ && "aud"@ != "iat"@ && "aud"@ != "sub"@ && "aud"@ != "typ"@) by {
            assert("aud"@[0] != "exp"@[0] && "aud"@[0] != "iat"@[0] && "aud"@[0] != "sub"@[0] && "aud"@[0] != "typ"@[0]);
        }
        assert(m.drop_last().drop_last().drop_last().drop_last().drop_last().drop_last().drop_last().len() == 0);
    }
}

/// Writes the claims as the JSON object `claims_json` describes.
pub fn claims_json_text(claims: &AuthClaims) -> (r: String)
    ensures
        claims_json(claims@) == Some(r@),
{
    let mut m: Vec<(String, JsonField)> = Vec::new();
    m.push((String::from_str("sub"), JsonField::Text(claims.sub.clone())));
    let kind = match claims.typ {
        TokenKind::Session => String::from_str("session"),
        TokenKind::Apikey => String::from_str("apikey"),
    };
    m.push((String::from_str("typ"), JsonField::Text(kind)));
    let email = match &claims.email {
        Some(e) => JsonField::Text(e.clone()),
        None => JsonField::Null,
    };
    m.push((String::from_str("email"), email));
    m.push((String::from_str("is_superadmin"), JsonField::Bool(claims.is_superadmin)));
    let name = match &claims.name {
        Some(n) => JsonField::Text(n.clone()),
        None => JsonField::Null,
    };
    m.push((String::from_str("name"), name));
    m.push((String::from_str("iat"), JsonField::Int(claims.iat)));
    let exp = match claims.exp {
        Some(v) => JsonField::Int(v),
        None => JsonField::Null,
    };
    m.push((String::from_str("exp"), exp));
    assert(field_views(m@) =~= claims_members(claims@));
    assert forall|i: int| 0 <= i < m.len() implies is_scalar(#[trigger] m@[i].1@) by {
        assert(m@[i].1@ == claims_members(claims@)[i].1);
    }
    write_json_object(&m).unwrap()
}

/// A member that must be a string.
pub open spec fn required_text(f: JsonFieldView) -> Option<Seq<char>> {
    match f {
        JsonFieldView::Text(t) => Some(t),
        _ => None,
    }
}

/// A member that may be absent or `null` (read as no value) or a string.
pub open spec fn optional_text(f: JsonFieldView) -> Option<Option<Seq<char>>> {
    match f {
        JsonFieldView::Absent | JsonFieldView::Null => Some(None),
        JsonFieldView::Text(t) => Some(Some(t)),
        _ => None,
    }
}

/// A member that may be absent (read as `false`) or a boolean.
pub open spec fn flag_or_false(f: JsonFieldView) -> Option<bool> {
    match f {
        JsonFieldView::Absent => Some(false),
        JsonFieldView::Bool(b) => Some(b),
        _ => None,
    }
}

/// A member that must be an integer.
pub open spec fn required_int(f: JsonFieldView) -> Option<i64> {
    match f {
        JsonFieldView::Int(i) => Some(i),
        _ => None,
    }
}

/// A member that may be absent or `null` (read as no value) or an integer.
pub open spec fn optional_int(f: JsonFieldView) -> Option<Option<i64>> {
    match f {
        JsonFieldView::Absent | JsonFieldView::Null => Some(None),
        JsonFieldView::Int(i) => Some(Some(i)),
        _ => None,
    }
}

/// The token kind a member names: `"session"` or `"apikey"`.
pub open spec fn kind_field(f: JsonFieldView) -> Option<TokenKind> {
    match f {
        JsonFieldView::Text(t) => if t == "session"@ {
            Some(TokenKind::Session)
        } else if t == "apikey"@ {
            Some(TokenKind::Apikey)
        } else {
            None
        },
        _ => None,
    }
}

/// A member of the object, read with `read`; `None` when the text is no
/// JSON object or `read` refuses what is there.
pub open spec fn member<T>(text: Seq<char>, key: Seq<char>, read: spec_fn(JsonFieldView) -> Option<T>) -> Option<T> {
    match json_field(text, key) {
        Some(f) => read(f),
        None => None,
    }
}

/// The claims the JSON object `text` holds: `sub`, `typ` and `iat` must be
/// there; `email`, `name` and `exp` may be absent or `null`;
/// `is_superadmin` may be absent; other members are ignored.
pub open spec fn parsed_claims(text: Seq<char>) -> Option<ClaimsView> {
    match (
        member(text, "sub"@, |f| required_text(f)),
        member(text, "typ"@, |f| kind_field(f)),
        member(text, "email"@, |f| optional_text(f)),
        member(text, "is_superadmin"@, |f| flag_or_false(f)),
        member(text, "name"@, |f| optional_text(f)),
        member(text, "iat"@, |f| required_int(f)),
        member(text, "exp"@, |f| optional_int(f)),
    ) {
        (Some(sub), Some(typ), Some(email), Some(is_superadmin), Some(name), Some(iat), Some(exp)) => Some(
            ClaimsView { sub, typ, email, is_superadmin, name, iat, exp },
        ),
        _ => None,
    }
}

/// The claims read back from their own JSON object: each member is read as
/// it was written.
pub proof fn lemma_claims_read_back(text: Seq<char>, c: ClaimsView)
    requires
        json_field(text, "sub"@) == Some(member_value(claims_members(c), "sub"@)),
        json_field(text, "typ"@) == Some(member_value(claims_members(c), "typ"@)),
        json_field(text, "email"@) == Some(member_value(claims_members(c), "email"@)),
        json_field(text, "is_superadmin"@) == Some(member_value(claims_members(c), "is_superadmin"@)),
        json_field(text, "name"@) == Some(member_value(claims_members(c), "name"@)),
        json_field(text, "iat"@) == Some(member_value(claims_members(c), "iat"@)),
        json_field(text, "exp"@) == Some(member_value(claims_members(c), "exp"@)),
    ensures
        parsed_claims(text) == Some(c),
{
    lemma_claims_members(c);
    reveal_strlit("session");
    reveal_strlit("apikey");
    let p = parsed_claims(text)->0;
    assert(parsed_claims(text) is Some);
    assert(p.email == c.email);
    assert(p.name == c.name);
    assert(p.exp == c.exp);
    assert(kind_field(JsonFieldView::Text(kind_name(c.typ))) == Some(c.typ)) by {
        if c.typ == TokenKind::Apikey {
            assert("apikey"@ != "session"@) by {
                assert("apikey"@.len() != "session"@.len());
            }
        }
    }
    assert(p.typ == c.typ);
}

/// A member that may be absent or `null` (no value) or a string, as read.
fn optional_text_of(f: Option<JsonField>) -> (r: Option<Option<String>>)
    ensures
        match f {
            Some(v) => match optional_text(v@) {
                Some(o) => r matches Some(k) && optional_view(k) == o,
                None => r is None,
            },
            None => r is None,
        },
{
    match f {
        Some(JsonField::Absent) => Some(None),
        Some(JsonField::Null) => Some(None),
        Some(JsonField::Text(t)) => Some(Some(t)),
        _ => None,
    }
}

/// A member that may be absent or `null` (no value) or an integer, as read.
fn optional_int_of(f: Option<JsonField>) -> (r: Option<Option<i64>>)
    ensures
        match f {
            Some(v) => match optional_int(v@) {
                Some(o) => r == Some(o),
                None => r is None,
            },
            None => r is None,
        },
{
    match f {
        Some(JsonField::Absent) => Some(None),
        Some(JsonField::Null) => Some(None),
        Some(JsonField::Int(i)) => Some(Some(i)),
        _ => None,
    }
}

/// Reads the claims of a token from the JSON object `text`, as
/// `parsed_claims` describes; the JSON object of any claims reads back as
/// those claims.
pub fn parse_claims(text: &str) -> (r: Option<AuthClaims>)
    ensures
        match r {
            Some(c) => parsed_claims(text@) == Some(c@),
            None => parsed_claims(text@) is None,
        },
        forall|c: ClaimsView| #[trigger] claims_json(c) == Some(text@) ==> (r matches Some(k) && k@ == c),
{
    let f_sub = read_json_field(text, "sub");
    let f_typ = read_json_field(text, "typ");
    let f_email = read_json_field(text, "email");
    let f_superadmin = read_json_field(text, "is_superadmin");
    let f_name = read_json_field(text, "name");
    let f_iat = read_json_field(text, "iat");
    let f_exp = read_json_field(text, "exp");
    proof {
        assert forall|c: ClaimsView| #[trigger] claims_json(c) == Some(text@) implies parsed_claims(text@) == Some(c) by {
            lemma_claims_members(c);
            assert(object_json(claims_members(c)) == Some(text@));
            lemma_claims_read_back(text@, c);
        }
    }
    let sub = match f_sub {
        Some(JsonField::Text(t)) => t,
        _ => return None,
    };
    let typ = match f_typ {
        Some(JsonField::Text(t)) => {
            if str_eq(t.as_str(), "session") {
                TokenKind::Session
            } else if str_eq(t.as_str(), "apikey") {
                TokenKind::Apikey
            } else {
                return None;
            }
        },
        _ => return None,
    };
    let email = match optional_text_of(f_email) {
        Some(v) => v,
        None => return None,
    };
    let is_superadmin = match f_superadmin {
        Some(JsonField::Absent) => false,
        Some(JsonField::Bool(b)) => b,
        _ => return None,
    };
    let name = match optional_text_of(f_name) {
        Some(v) => v,
        None => return None,
    };
    let iat = match f_iat {
        Some(JsonField::Int(i)) => i,
        _ => return None,
    };
    let exp = match optional_int_of(f_exp) {
        Some(v) => v,
        None => return None,
    };
    let claims = AuthClaims { sub, typ, email, is_superadmin, name, iat, exp };
    assert(claims@ == ClaimsView { sub: sub@, typ, email: optional_view(email), is_superadmin, name: optional_view(name), iat, exp });
    Some(claims)
}

#[verifier::external_type_specification]
#[verifier::external_body]
pub struct ExJwtError(jsonwebtoken::errors::Error);

/// The token `jsonwebtoken::encode` makes with the default header (HS256)
/// and the HMAC key of the secret's bytes over the claims text taken as it
/// stands; `None` when it fails.
pub uninterp spec fn jwt_hs256_token(secret: Seq<char>, claims_json: Seq<char>) -> Option<Seq<char>>;

/// The claims text that `jsonwebtoken::decode` hands back for a token with
/// the HMAC key of the secret's bytes, HS256 only, no claim required and no
/// expiry checked; `None` when it refuses the token.
pub uninterp spec fn jwt_hs256_payload(secret: Seq<char>, token: Seq<char>) -> Option<Seq<char>>;

/// `jsonwebtoken::encode(&Header::default(), .., &EncodingKey::from_secret(..))`
/// over `serde_json::value::RawValue::from_string` of the claims text, so
/// that the text is the token's payload as it stands. Trusted: the token is
/// `jwt_hs256_token` of the secret and the text, a function of them alone
/// (HMAC-SHA256 has no randomness); and a JSON object written as
/// `object_json` says is valid JSON that `RawValue` takes, while the default
/// header serializes and HMAC signing takes a key of any length, so such a
/// text is always signed.
#[verifier::external_body]
fn jwt_encode_hs256(secret: &str, claims_json: &str) -> (r: Result<String, jsonwebtoken::errors::Error>)
    ensures
        match r {
            Ok(t) => jwt_hs256_token(secret@, claims_json@) == Some(t@),
            Err(_) => jwt_hs256_token(secret@, claims_json@) is None,
        },
        forall|m: Seq<(Seq<char>, JsonFieldView)>|
            #[trigger] object_json(m) == Some(claims_json@) ==> plain_distinct_names(m) ==> r is Ok,
{
    let payload = serde_json::value::RawValue::from_string(claims_json.to_string())?;
    let key = jsonwebtoken::EncodingKey::from_secret(secret.as_bytes());
    jsonwebtoken::encode(&jsonwebtoken::Header::default(), &payload, &key)
}

/// `jsonwebtoken::decode` with `DecodingKey::from_secret` of the secret's
/// bytes and `Validation::default()` with `validate_exp` off and `exp` no
/// longer required; the claims are taken as a `RawValue` and handed out as
/// text. Trusted: the text is `jwt_hs256_payload` of the secret and the
/// token, a function of them alone (with the expiry check off the
/// validation reads no clock); and a token that `jwt_encode_hs256` made
/// with the same secret over an `object_json` text with `jwt_ready_members`
/// decodes: the header is the default one, the signature is the HMAC of
/// the same key, the claims validation finds no required claim missing and
/// no audience, and the payload comes back as the text that was signed.
#[verifier::external_body]
fn jwt_decode_hs256(secret: &str, token: &str) -> (r: Result<String, jsonwebtoken::errors::Error>)
    ensures
        match r {
            Ok(p) => jwt_hs256_payload(secret@, token@) == Some(p@),
            Err(_) => jwt_hs256_payload(secret@, token@) is None,
        },
        forall|m: Seq<(Seq<char>, JsonFieldView)>|
            #[trigger] object_json(m) is Some ==> jwt_ready_members(m) ==> jwt_hs256_token(secret@, object_json(m)->0)
                == Some(token@) ==> match r {
                Ok(p) => p@ == object_json(m)->0,
                Err(_) => false,
            },
{
    let mut validation = jsonwebtoken::Validation::default();
    validation.validate_exp = false;
    validation.required_spec_claims.remove("exp");
    let key = jsonwebtoken::DecodingKey::from_secret(secret.as_bytes());
    let data = jsonwebtoken::decode::<Box<serde_json::value::RawValue>>(token, &key, &validation)?;
    Ok(data.claims.get().to_string())
}

/// The earliest and latest Unix second that `time` represents (years -9999
/// to 9999, without its `large-dates` feature).
pub open spec fn clock_in_range(now: i64) -> bool {
    -377705116800 <= now <= 253402300799
}

/// The current time in Unix seconds
/// (`time::OffsetDateTime::now_utc().unix_timestamp()`). Trusted: the
/// reading is one that `time` can represent; which one depends on the
/// clock, and nothing more is claimed of it.
#[verifier::external_body]
pub(crate) fn unix_now() -> (r: i64)
    ensures
        clock_in_range(r),
{
    time::OffsetDateTime::now_utc().unix_timestamp()
}

/// The token that signing the claims with the secret gives: the HS256
/// token whose payload is the claims' JSON object.
pub open spec fn signed_token(secret: Seq<char>, claims: ClaimsView) -> Option<Seq<char>> {
    match claims_json(claims) {
        Some(text) => jwt_hs256_token(secret, text),
        None => None,
    }
}

/// Signs the claims with the secret: the HS256 token whose payload is the
/// claims' JSON object. Signing never fails.
pub fn sign_claims(secret: &str, claims: &AuthClaims) -> (r: String)
    ensures
        signed_token(secret@, claims@) == Some(r@),
{
    let text = claims_json_text(claims);
    proof {
        lemma_claims_members(claims@);
        assert(object_json(claims_members(claims@)) == Some(text@));
    }
    jwt_encode_hs256(secret, text.as_str()).unwrap()
}

/// The claims of a session token for the user, issued at `now` for
/// `ttl_secs` seconds.
pub open spec fn session_claims_view(user_id: Seq<char>, email: Seq<char>, is_superadmin: bool, now: i64, ttl_secs: i64) -> ClaimsView {
    ClaimsView {
        sub: user_id,
        typ: TokenKind::Session,
        email: Some(email),
        is_superadmin,
        name: None,
        iat: now,
        exp: Some((now + ttl_secs) as i64),
    }
}

/// What issuing a session token gives when the clock reads `now`: an error
/// when the expiry does not fit an `i64`, else the token of the session
/// claims issued at `now`.
pub open spec fn session_token_outcome(
    secret: Seq<char>,
    user_id: Seq<char>,
    email: Seq<char>,
    is_superadmin: bool,
    ttl_secs: i64,
    now: i64,
    r: Result<String, TokenError>,
) -> bool {
    if i64::MIN <= now + ttl_secs <= i64::MAX {
        r matches Ok(t) && signed_token(secret, session_claims_view(user_id, email, is_superadmin, now, ttl_secs))
            == Some(t@)
    } else {
        r == Err::<String, TokenError>(TokenError::ExpiryOverflow)
    }
}

/// Issues a session token for the user, valid for `ttl_secs` seconds from
/// now: what it gives is the outcome for the time the clock read. Any
/// time-to-live that cannot overflow the expiry, whatever the clock reads,
/// gives a token.
pub fn encode_session_token(secret: &str, user_id: &str, email: &str, is_superadmin: bool, ttl_secs: i64) -> (r: Result<String, TokenError>)
    ensures
        exists|now: i64|
            clock_in_range(now) && #[trigger] session_token_outcome(secret@, user_id@, email@, is_superadmin, ttl_secs, now, r),
        i64::MIN + 377705116800 <= ttl_secs <= i64::MAX - 253402300799 ==> r is Ok,
{
    let now = unix_now();
    let exp = match now.checked_add(ttl_secs) {
        Some(v) => v,
        None => {
            assert(session_token_outcome(secret@, user_id@, email@, is_superadmin, ttl_secs, now, Err(TokenError::ExpiryOverflow)));
            return Err(TokenError::ExpiryOverflow);
        },
    };
    let claims = session_claims(user_id, email, is_superadmin, now, ttl_secs);
    assert(claims@ == session_claims_view(user_id@, email@, is_superadmin, now, ttl_secs));
    let r = Ok(sign_claims(secret, &claims));
    assert(session_token_outcome(secret@, user_id@, email@, is_superadmin, ttl_secs, now, r));
    r
}

/// The claims of an API key token for the key, issued at `now`: no
/// expiry, never a superadmin.
pub open spec fn api_key_claims_view(key_id: Seq<char>, name: Seq<char>, now: i64) -> ClaimsView {
    ClaimsView {
        sub: key_id,
        typ: TokenKind::Apikey,
        email: None,
        is_superadmin: false,
        name: Some(name),
        iat: now,
        exp: None,
    }
}

/// Issues an API key token for the key, without expiry: the token of the
/// API key claims issued at the time the clock read. It is always issued;
/// the key's creation time plays no part in it.
pub fn encode_api_key_token(secret: &str, key_id: &str, name: &str, created_at: &str) -> (r: Result<String, TokenError>)
    ensures
        r is Ok,
        exists|now: i64|
            clock_in_range(now) && #[trigger] signed_token(secret@, api_key_claims_view(key_id@, name@, now)) == Some(
                r->Ok_0@,
            ),
{
    let now = unix_now();
    let claims = api_key_claims(key_id, name, now);
    assert(claims@ == api_key_claims_view(key_id@, name@, now));
    let t = sign_claims(secret, &claims);
    Ok(t)
}

/// What a token's payload gives at `now`: its claims, unless it is a
/// session token whose expiry has passed.
pub open spec fn accepted_claims(payload: Seq<char>, now: i64) -> Result<ClaimsView, TokenError> {
    match parsed_claims(payload) {
        None => Err(TokenError::Rejected),
        Some(c) => if c.typ == TokenKind::Session && (c.exp matches Some(exp) && now > exp) {
            Err(TokenError::Expired)
        } else {
            Ok(c)
        },
    }
}

/// `r` is what a token's payload gives at `now`.
pub open spec fn acceptance_outcome(payload: Seq<char>, now: i64, r: Result<AuthClaims, TokenError>) -> bool {
    match accepted_claims(payload, now) {
        Ok(c) => r matches Ok(k) && k@ == c,
        Err(e) => r == Err::<AuthClaims, TokenError>(e),
    }
}

/// `r` is what the claims themselves give at `now`: the claims, unless they
/// are those of a session whose expiry has passed.
pub open spec fn claims_outcome(c: ClaimsView, now: i64, r: Result<AuthClaims, TokenError>) -> bool {
    if c.typ == TokenKind::Session && (c.exp matches Some(exp) && now > exp) {
        r == Err::<AuthClaims, TokenError>(TokenError::Expired)
    } else {
        r matches Ok(k) && k@ == c
    }
}

/// Reads the claims of a token whose signature checked out and accepts
/// them at `now`, as `accepted_claims` says; the JSON object of any claims
/// gives those claims back, or `Expired` for a session past its expiry.
pub fn accept_claims(payload: &str, now: i64) -> (r: Result<AuthClaims, TokenError>)
    ensures
        acceptance_outcome(payload@, now, r),
        forall|c: ClaimsView| #[trigger] claims_json(c) == Some(payload@) ==> claims_outcome(c, now, r),
{
    let claims = match parse_claims(payload) {
        Some(c) => c,
        None => return Err(TokenError::Rejected),
    };
    match check_claims(claims, now) {
        Ok(c) => Ok(c),
        Err(_) => Err(TokenError::Expired),
    }
}

/// Verifies a token with the secret and reads its claims at the instant
/// `now` (Unix seconds): a token that the secret did not sign is `Rejected`;
/// of one that it signed, what is given is what its payload gives at `now`.
/// So a token that `sign_claims` made with the same secret gives its claims
/// back, unless they are a session's whose expiry `now` has passed.
pub fn verify_token_at(secret: &str, token: &str, now: i64) -> (r: Result<AuthClaims, TokenError>)
    ensures
        match jwt_hs256_payload(secret@, token@) {
            None => r == Err::<AuthClaims, TokenError>(TokenError::Rejected),
            Some(p) => acceptance_outcome(p, now, r),
        },
        forall|c: ClaimsView| #[trigger] signed_token(secret@, c) == Some(token@) ==> claims_outcome(c, now, r),
{
    let decoded = jwt_decode_hs256(secret, token);
    proof {
        assert forall|c: ClaimsView| #[trigger] signed_token(secret@, c) == Some(token@) implies (decoded matches Ok(p)
            && claims_json(c) == Some(p@)) by {
            lemma_claims_members(c);
            assert(object_json(claims_members(c)) is Some);
        }
    }
    let payload = match decoded {
        Ok(p) => p,
        Err(_) => return Err(TokenError::Rejected),
    };
    let outcome = accept_claims(payload.as_str(), now);
    assert forall|c: ClaimsView| #[trigger] signed_token(secret@, c) == Some(token@) implies claims_outcome(c, now, outcome) by {
        assert(claims_json(c) == Some(payload@));
    }
    outcome
}

/// Verifies a token with the secret and reads its claims at the time the
/// clock reads, as `verify_token_at` says. So a token that `sign_claims`
/// made with the same secret gives its claims back: always for an API key,
/// and for a session unless its expiry had passed when the clock was read.
pub fn verify_token(secret: &str, token: &str) -> (r: Result<AuthClaims, TokenError>)
    ensures
        jwt_hs256_payload(secret@, token@) is None ==> r == Err::<AuthClaims, TokenError>(TokenError::Rejected),
        jwt_hs256_payload(secret@, token@) is Some ==> exists|now: i64|
            clock_in_range(now) && #[trigger] acceptance_outcome(jwt_hs256_payload(secret@, token@)->0, now, r),
        forall|c: ClaimsView| #[trigger] signed_token(secret@, c) == Some(token@) ==> exists|now: i64|
            clock_in_range(now) && #[trigger] claims_outcome(c, now, r),
        forall|c: ClaimsView|
            signed_token(secret@, c) == Some(token@) && c.typ == TokenKind::Apikey ==> (r matches Ok(k) && k@ == c),
{
    let now = unix_now();
    let outcome = verify_token_at(secret, token, now);
    proof {
        if jwt_hs256_payload(secret@, token@) is Some {
            assert(acceptance_outcome(jwt_hs256_payload(secret@, token@)->0, now, outcome));
        }
        assert forall|c: ClaimsView| #[trigger] signed_token(secret@, c) == Some(token@) implies exists|t: i64|
            clock_in_range(t) && #[trigger] claims_outcome(c, t, outcome) by {
            assert(claims_outcome(c, now, outcome));
        }
    }
    outcome
}

} // verus!
