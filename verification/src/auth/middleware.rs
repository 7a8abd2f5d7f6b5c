//! Who is calling: the principal resolved from a bearer token and what it may do.
use vstd::prelude::*;

use crate::api::batch::{is_api_error, ApiError};
use crate::auth::jwt::{accepted_claims, clock_in_range, jwt_hs256_payload, parsed_claims, unix_now, verify_token_at, TokenError, TokenKind};
use crate::auth::permissions::PermissionSet;
use crate::text::{chars_contains, chars_eq, chars_has, chars_of, chars_slice, chars_starts_with, has_infix, has_prefix};

verus! {

/// The identity behind an authenticated request.
#[derive(Debug)]
pub enum AuthPrincipal {
    Session { user_id: String, email: String, is_superadmin: bool },
    ApiKey { key_id: String, name: String },
}

/// The authenticated caller, its permissions and its rate limits.
#[derive(Debug)]
pub struct AuthContext {
    pub principal: AuthPrincipal,
    pub permissions: PermissionSet,
    pub rpm: Option<u32>,
    pub rph: Option<u32>,
}

/// The principal is a session of a superadmin.
pub open spec fn principal_is_superadmin(p: AuthPrincipal) -> bool {
    p matches AuthPrincipal::Session { is_superadmin: true, .. }
}

impl AuthContext {
    pub fn is_superadmin(&self) -> (r: bool)
        ensures
            r == principal_is_superadmin(self.principal),
    {
        match &self.principal {
            AuthPrincipal::Session { is_superadmin, .. } => *is_superadmin,
            AuthPrincipal::ApiKey { .. } => false,
        }
    }

    pub fn is_api_key(&self) -> (r: bool)
        ensures
            r == (self.principal is ApiKey),
    {
        match &self.principal {
            AuthPrincipal::Session { .. } => false,
            AuthPrincipal::ApiKey { .. } => true,
        }
    }
}

/// The prefix of every versioned API route.
pub const API_V1_PREFIX: &'static str = "/api/v1";

/// Paths served without authentication: static assets, everything outside
/// the versioned API, and the health, login, info and API documentation routes.
pub open spec fn public_path(path: Seq<char>) -> bool {
    ||| path == "/favicon.ico"@
    ||| has_prefix(path, "/assets/"@)
    ||| !has_prefix(path, "/api/v1"@)
    ||| path == "/api/v1/health"@
    ||| path == "/api/v1/auth/login"@
    ||| path == "/api/v1/auth/info"@
    ||| has_prefix(path, "/api/v1/swagger-ui"@)
    ||| path == "/api/v1/openapi.json"@
}

fn path_is(path: &Vec<char>, lit: &str) -> (r: bool)
    ensures
        r == (path@ == lit@),
{
    chars_eq(path, &chars_of(lit))
}

fn path_starts(path: &Vec<char>, lit: &str) -> (r: bool)
    ensures
        r == has_prefix(path@, lit@),
{
    chars_starts_with(path, &chars_of(lit))
}

pub fn is_public_path(path: &str) -> (r: bool)
    ensures
        r == public_path(path@),
{
    let p = chars_of(path);
    if path_is(&p, "/favicon.ico") || path_starts(&p, "/assets/") {
        return true;
    }
    if !path_starts(&p, API_V1_PREFIX) {
        return true;
    }
    path_is(&p, "/api/v1/health") || path_is(&p, "/api/v1/auth/login") || path_is(&p, "/api/v1/auth/info")
        || path_starts(&p, "/api/v1/swagger-ui") || path_is(&p, "/api/v1/openapi.json")
}

/// Methods that change state.
pub open spec fn write_method(method: Seq<char>) -> bool {
    method == "POST"@ || method == "PUT"@ || method == "PATCH"@ || method == "DELETE"@
}

/// Whether `method` (an HTTP method name) changes state.
pub fn is_write_method(method: &str) -> (r: bool)
    ensures
        r == write_method(method@),
{
    let m = chars_of(method);
    path_is(&m, "POST") || path_is(&m, "PUT") || path_is(&m, "PATCH") || path_is(&m, "DELETE")
}

/// Writes to the production plane: a state-changing request below
/// `/api/v1/stages/{tag}/`.
pub open spec fn stage_plane_write(path: Seq<char>, method: Seq<char>) -> bool {
    let prefix = "/api/v1/stages/"@;
    &&& write_method(method)
    &&& has_prefix(path, prefix)
    &&& path.subrange(prefix.len() as int, path.len() as int).contains('/')
}

pub fn is_stage_plane_write(path: &str, method: &str) -> (r: bool)
    ensures
        r == stage_plane_write(path@, method@),
{
    if !is_write_method(method) {
        return false;
    }
    let p = chars_of(path);
    let prefix = chars_of("/api/v1/stages/");
    if !chars_starts_with(&p, &prefix) {
        return false;
    }
    let rest = chars_slice(&p, prefix.len(), p.len());
    chars_has(&rest, '/')
}

/// The status answered when the principal cannot be resolved: 401 when the
/// user or key is gone, 503 for any other failure.
pub open spec fn principal_error_code(message: Seq<char>) -> u16 {
    if has_infix(message, "user not found"@) || has_infix(message, "api key revoked"@) {
        401
    } else {
        503
    }
}

pub fn principal_error_status(message: &str) -> (r: u16)
    ensures
        r == principal_error_code(message@),
{
    let m = chars_of(message);
    if chars_contains(&m, &chars_of("user not found")) || chars_contains(&m, &chars_of("api key revoked")) {
        401
    } else {
        503
    }
}

/// Succeeds for superadmins; a 403 for everyone else.
pub fn require_superadmin(auth: &AuthContext) -> (r: Result<(), ApiError>)
    ensures
        r is Ok <==> principal_is_superadmin(auth.principal),
        r matches Err(e) ==> is_api_error(e, 403, "Forbidden"@, "superadmin required"@),
{
    if auth.is_superadmin() {
        Ok(())
    } else {
        Err(ApiError::forbidden(String::from_str("superadmin required")))
    }
}

/// How the authentication of a request begins.
#[derive(Debug)]
pub enum AuthStart {
    /// A public path: no authentication is asked for.
    Public,
    /// The request is refused with this status.
    Reject(u16),
    /// A session token, and the principal it names.
    Session(AuthPrincipal),
    /// An API key token: the key with this id is to be looked up.
    LookupApiKey(String),
}

/// The bearer token of an `Authorization` header.
pub open spec fn bearer_token_of(header: Option<Seq<char>>) -> Option<Seq<char>> {
    match header {
        Some(h) => if has_prefix(h, "Bearer "@) {
            Some(h.subrange(7, h.len() as int))
        } else {
            None
        },
        None => None,
    }
}

/// The session principal the claims name.
pub open spec fn session_principal_is(p: AuthPrincipal, sub: Seq<char>, email: Seq<char>, is_superadmin: bool) -> bool {
    p matches AuthPrincipal::Session { user_id, email: e, is_superadmin: s } && user_id@ == sub && e@ == email && s == is_superadmin
}

/// The view of an optional header.
pub open spec fn header_view(authorization: Option<&str>) -> Option<Seq<char>> {
    match authorization {
        Some(h) => Some(h@),
        None => None,
    }
}

/// How the authentication of a request to `path` with the `Authorization`
/// header `authorization` begins at the instant `now`: public paths pass; a
/// request without a bearer token, or whose token the secret did not sign
/// or whose claims do not read, is a 401; an API key token names the key to
/// look up; a session token past its expiry at `now` is a 401, one without
/// an email a 503, and any other names its principal.
pub open spec fn auth_start_outcome(path: Seq<char>, authorization: Option<Seq<char>>, secret: Seq<char>, now: i64, r: AuthStart) -> bool {
    if public_path(path) {
        r is Public
    } else {
        match bearer_token_of(authorization) {
            None => r == AuthStart::Reject(401),
            Some(t) => match jwt_hs256_payload(secret, t) {
                None => r == AuthStart::Reject(401),
                Some(p) => match parsed_claims(p) {
                    None => r == AuthStart::Reject(401),
                    Some(c) => match c.typ {
                        TokenKind::Apikey => r matches AuthStart::LookupApiKey(k) && k@ == c.sub,
                        TokenKind::Session => if c.exp matches Some(x) && now > x {
                            r == AuthStart::Reject(401)
                        } else {
                            match c.email {
                                None => r == AuthStart::Reject(503),
                                Some(e) => r matches AuthStart::Session(q) && session_principal_is(q, c.sub, e, c.is_superadmin),
                            }
                        },
                    },
                },
            },
        }
    }
}

/// Begins to authenticate a request at the instant `now` (Unix seconds), as
/// `auth_start_outcome` says.
pub fn start_auth_at(path: &str, authorization: Option<&str>, secret: &str, now: i64) -> (r: AuthStart)
    ensures
        auth_start_outcome(path@, header_view(authorization), secret@, now, r),
{
    if is_public_path(path) {
        return AuthStart::Public;
    }
    let header = match authorization {
        Some(h) => h,
        None => return AuthStart::Reject(401),
    };
    let v = chars_of(header);
    let prefix = chars_of("Bearer ");
    proof {
        reveal_strlit("Bearer ");
    }
    if !chars_starts_with(&v, &prefix) {
        return AuthStart::Reject(401);
    }
    let token = crate::text::string_from_chars(&chars_slice(&v, prefix.len(), v.len()));
    assert(bearer_token_of(Some(header@)) == Some(token@));
    let claims = match verify_token_at(secret, token.as_str(), now) {
        Ok(c) => c,
        Err(_) => return AuthStart::Reject(401),
    };
    match claims.typ {
        TokenKind::Apikey => AuthStart::LookupApiKey(claims.sub),
        TokenKind::Session => match claims.email {
            Some(email) => AuthStart::Session(
                AuthPrincipal::Session { user_id: claims.sub, email, is_superadmin: claims.is_superadmin },
            ),
            None => AuthStart::Reject(503),
        },
    }
}

/// Begins to authenticate a request to `path` that carries the
/// `Authorization` header `authorization`, with the token secret, at the
/// time the clock reads: public paths pass; a missing or unverifiable
/// bearer token is a 401; a session token names its principal (a 503, as
/// for any failure to resolve a principal, when it has no email; a 401 once
/// it has expired); an API key token names the key to look up.
pub fn start_auth(path: &str, authorization: Option<&str>, secret: &str) -> (r: AuthStart)
    ensures
        exists|now: i64| clock_in_range(now) && #[trigger] auth_start_outcome(path@, header_view(authorization), secret@, now, r),
        public_path(path@) ==> r is Public,
        !public_path(path@) ==> match bearer_token_of(header_view(authorization)) {
            None => r == AuthStart::Reject(401),
            Some(t) => match jwt_hs256_payload(secret@, t) {
                None => r == AuthStart::Reject(401),
                Some(p) => match parsed_claims(p) {
                    None => r == AuthStart::Reject(401),
                    Some(c) => match c.typ {
                        TokenKind::Apikey => r matches AuthStart::LookupApiKey(k) && k@ == c.sub,
                        TokenKind::Session => {
                            ||| (r == AuthStart::Reject(401) && c.exp is Some)
                            ||| (c.email is None && r == AuthStart::Reject(503))
                            ||| (c.email matches Some(e) && r matches AuthStart::Session(q) && session_principal_is(q, c.sub, e, c.is_superadmin))
                        },
                    },
                },
            },
        },
{
    let now = unix_now();
    let r = start_auth_at(path, authorization, secret, now);
    assert(auth_start_outcome(path@, header_view(authorization), secret@, now, r));
    r
}

/// A session token that verification accepts at `now` (signed with the
/// secret, its claims read, not expired) and that carries an email admits
/// the request as that session: its subject, its email and its superadmin
/// flag, whatever the flag is.
pub proof fn lemma_accepted_session_admitted(
    path: Seq<char>,
    authorization: Option<Seq<char>>,
    secret: Seq<char>,
    now: i64,
    r: AuthStart,
)
    requires
        !public_path(path),
        bearer_token_of(authorization) matches Some(t) && jwt_hs256_payload(secret, t) matches Some(p)
            && accepted_claims(p, now) matches Ok(c) && c.typ == TokenKind::Session && c.email is Some,
        auth_start_outcome(path, authorization, secret, now, r),
    ensures
        ({
            let c = accepted_claims(jwt_hs256_payload(secret, bearer_token_of(authorization)->0)->0, now)->Ok_0;
            r matches AuthStart::Session(AuthPrincipal::Session { user_id, email, is_superadmin }) && user_id@ == c.sub
                && email@ == c.email->0 && is_superadmin == c.is_superadmin
        }),
{
}

/// An API key token that verification accepts asks to look up the key it
/// names, at any instant (API key tokens do not expire); a verified session
/// token without an email is a 503.
pub proof fn lemma_accepted_key_and_emailless_session(
    path: Seq<char>,
    authorization: Option<Seq<char>>,
    secret: Seq<char>,
    now: i64,
    r: AuthStart,
)
    requires
        !public_path(path),
        bearer_token_of(authorization) matches Some(t) && jwt_hs256_payload(secret, t) matches Some(p)
            && accepted_claims(p, now) is Ok,
        auth_start_outcome(path, authorization, secret, now, r),
    ensures
        ({
            let c = accepted_claims(jwt_hs256_payload(secret, bearer_token_of(authorization)->0)->0, now)->Ok_0;
            &&& c.typ == TokenKind::Apikey ==> (r matches AuthStart::LookupApiKey(k) && k@ == c.sub)
            &&& (c.typ == TokenKind::Session && c.email is None) ==> r == AuthStart::Reject(503)
        }),
{
}

/// Public paths pass whatever the request carries.
pub proof fn lemma_public_paths_pass(path: Seq<char>, authorization: Option<Seq<char>>, secret: Seq<char>, now: i64, r: AuthStart)
    requires
        public_path(path),
        auth_start_outcome(path, authorization, secret, now, r),
    ensures
        r is Public,
{
}

/// A request to a protected path is refused with 401 only when it carries
/// no bearer token, or the token is not one that verification accepts at
/// `now` (not signed with the secret, claims that do not read, or a session
/// past its expiry).
pub proof fn lemma_unauthorized_only_when_unaccepted(
    path: Seq<char>,
    authorization: Option<Seq<char>>,
    secret: Seq<char>,
    now: i64,
    r: AuthStart,
)
    requires
        auth_start_outcome(path, authorization, secret, now, r),
        r == AuthStart::Reject(401),
    ensures
        !public_path(path),
        match bearer_token_of(authorization) {
            None => true,
            Some(t) => match jwt_hs256_payload(secret, t) {
                None => true,
                Some(p) => accepted_claims(p, now) is Err,
            },
        },
{
}

/// The principal of an API key token once the key was looked up: the
/// key's id and name, or a 401 when the key is gone (revoked).
pub fn api_key_principal(row: Option<(String, String)>) -> (r: Result<AuthPrincipal, u16>)
    ensures
        match row {
            Some((kid, kname)) => r matches Ok(p) && (p matches AuthPrincipal::ApiKey { key_id, name } && key_id@ == kid@ && name@ == kname@),
            None => r == Err::<AuthPrincipal, u16>(401),
        },
{
    match row {
        Some((key_id, name)) => Ok(AuthPrincipal::ApiKey { key_id, name }),
        None => Err(401),
    }
}

/// Whether the authenticated principal may make the request: writes to the
/// production plane are for API keys only (a 403 for sessions).
pub fn admit_request(path: &str, method: &str, principal: &AuthPrincipal) -> (r: Result<(), u16>)
    ensures
        (stage_plane_write(path@, method@) && principal is Session) ==> r == Err::<(), u16>(403),
        !(stage_plane_write(path@, method@) && principal is Session) ==> r is Ok,
{
    let api_key = match principal {
        AuthPrincipal::ApiKey { .. } => true,
        AuthPrincipal::Session { .. } => false,
    };
    if is_stage_plane_write(path, method) && !api_key {
        Err(403)
    } else {
        Ok(())
    }
}

} // verus!
