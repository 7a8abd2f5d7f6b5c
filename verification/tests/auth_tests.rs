use ragdoll::auth::bootstrap::{superadmin_step, validate_email, SuperadminStep};
use ragdoll::config::Config;
use ragdoll::auth::endpoint_permissions::endpoint_permission_map;
use ragdoll::auth::jwt::{
    accept_claims, api_key_claims, check_claims, claims_json_text, encode_api_key_token, encode_session_token,
    parse_claims, session_claims, sign_claims, verify_token, TokenError, TokenKind,
};
use ragdoll::auth::middleware::{
    admit_request, api_key_principal, start_auth, AuthStart, is_public_path, is_stage_plane_write, is_write_method, principal_error_status, require_superadmin, AuthContext,
    AuthPrincipal,
};
use ragdoll::auth::password::{hash_password, validate_password, verify_password};
use ragdoll::auth::permissions::{
    authorize, authorize_any, parse_and_validate_api_key_permissions, parse_and_validate_granted_permissions,
    parse_permissions, parse_permissions_with_forced, permission_from_name, permission_set_to_vec, permissions_to_json,
    with_forced_permissions, Permission, PermissionSet,
};
use ragdoll::auth::rate_limit::RateLimitStore;

fn ctx_with(perms: &[Permission]) -> AuthContext {
    let mut set = PermissionSet::new();
    for p in perms {
        set.insert(*p);
    }
    AuthContext {
        principal: AuthPrincipal::Session { user_id: "u1".into(), email: "a@b.com".into(), is_superadmin: false },
        permissions: set,
        rpm: None,
        rph: None,
    }
}

fn superadmin_ctx() -> AuthContext {
    AuthContext {
        principal: AuthPrincipal::Session { user_id: "u1".into(), email: "a@b.com".into(), is_superadmin: true },
        permissions: PermissionSet::new(),
        rpm: None,
        rph: None,
    }
}

#[test]
fn validate_email_accepts_common_addresses() {
    assert!(validate_email("admin@ragdoll.ai"));
    assert!(validate_email("user@example.com"));
}

#[test]
fn validate_email_rejects_invalid_addresses() {
    assert!(!validate_email("not-an-email"));
    assert!(!validate_email("@missing-local.com"));
    assert!(!validate_email("missing-domain@localhost"));
}

#[test]
fn every_permission_has_route_coverage_sample() {
    let covered: Vec<Permission> = endpoint_permission_map().iter().filter_map(|r| r.permission).collect();
    assert!(covered.contains(&Permission::QueriesRun));
    assert!(covered.contains(&Permission::WebhooksRead));
}

#[test]
fn permission_catalog_is_complete_count() {
    assert_eq!(Permission::all().len(), 45);
}

#[test]
fn is_public_path_allows_health_and_static() {
    assert!(is_public_path("/api/v1/health"));
    assert!(is_public_path("/api/v1/auth/login"));
    assert!(is_public_path("/api/v1/auth/info"));
    assert!(is_public_path("/assets/app.js"));
    assert!(is_public_path("/favicon.ico"));
    assert!(!is_public_path("/api/v1/releases"));
}

#[test]
fn is_write_method_detects_mutating_verbs() {
    assert!(is_write_method("POST"));
    assert!(is_write_method("DELETE"));
    assert!(!is_write_method("GET"));
}

#[test]
fn is_stage_plane_write_only_for_stage_subresources() {
    assert!(is_stage_plane_write("/api/v1/stages/prod/sources", "POST"));
    assert!(!is_stage_plane_write("/api/v1/releases/first-release/sources", "POST"));
    assert!(!is_stage_plane_write("/api/v1/stages/prod/sources", "GET"));
}

#[test]
fn principal_error_status_maps_known_messages() {
    assert_eq!(principal_error_status("api key revoked"), 401);
    assert_eq!(principal_error_status("database is locked"), 503);
}

#[test]
fn auth_context_flags() {
    let session = AuthContext {
        principal: AuthPrincipal::Session { user_id: "u1".into(), email: "a@b.com".into(), is_superadmin: true },
        permissions: PermissionSet::new(),
        rpm: None,
        rph: None,
    };
    assert!(session.is_superadmin());
    assert!(!session.is_api_key());

    let api = AuthContext {
        principal: AuthPrincipal::ApiKey { key_id: "k1".into(), name: "prod".into() },
        permissions: PermissionSet::new(),
        rpm: None,
        rph: None,
    };
    assert!(!api.is_superadmin());
    assert!(api.is_api_key());
}

#[test]
fn require_superadmin_refuses_others() {
    assert!(require_superadmin(&superadmin_ctx()).is_ok());
    let err = require_superadmin(&ctx_with(&[Permission::SourcesRead])).unwrap_err();
    assert_eq!(err.status, 403);
}

#[test]
fn hash_and_verify_password() {
    let hash = hash_password("ragdoll-test-password").unwrap();
    assert!(verify_password("ragdoll-test-password", &hash).unwrap());
    assert!(!verify_password("wrong-password", &hash).unwrap());
}

#[test]
fn validate_password_enforces_policy() {
    assert!(validate_password("Short1!").is_err());
    assert!(validate_password("longpassword1!").is_err());
    assert!(validate_password("LongPassword!!").is_err());
    assert!(validate_password("Secret123!@#Pass").is_ok());
}

#[test]
fn superadmin_allowed_everywhere() {
    let auth = superadmin_ctx();
    for perm in Permission::all().iter() {
        assert!(authorize(&auth, *perm).is_ok());
    }
}

#[test]
fn empty_permissions_denied() {
    let auth = ctx_with(&[]);
    assert!(authorize(&auth, Permission::SourcesRead).is_err());
}

#[test]
fn specific_permission_grants_access() {
    let auth = ctx_with(&[Permission::SourcesRead]);
    assert!(authorize(&auth, Permission::SourcesRead).is_ok());
    assert!(authorize(&auth, Permission::SourcesWrite).is_err());
}

#[test]
fn authorize_any_needs_one_of_them() {
    let auth = ctx_with(&[Permission::SourcesRead]);
    assert!(authorize_any(&auth, &[Permission::SourcesWrite, Permission::SourcesRead]).is_ok());
    assert!(authorize_any(&auth, &[Permission::SourcesWrite]).is_err());
}

#[test]
fn parse_permissions_does_not_force_releases_read() {
    let perms = parse_permissions(r#"["sources:read"]"#);
    assert!(!perms.contains(Permission::ReleasesRead));
    assert!(perms.contains(Permission::SourcesRead));
}

#[test]
fn user_parse_forces_releases_read() {
    let perms = parse_permissions_with_forced(r#"["sources:read"]"#);
    assert!(perms.contains(Permission::ReleasesRead));
    assert!(perms.contains(Permission::SourcesRead));
}

#[test]
fn user_grant_requires_additional_permission() {
    assert!(parse_and_validate_granted_permissions(&[]).is_err());
    assert!(parse_and_validate_granted_permissions(&["releases:read".to_string()]).is_err());
    let perms = parse_and_validate_granted_permissions(&["sources:read".to_string()]);
    assert!(perms.is_ok());
    let perms = perms.ok().unwrap();
    assert!(perms.contains(Permission::ReleasesRead));
    assert!(perms.contains(Permission::SourcesRead));
}

#[test]
fn api_key_grant_requires_one_permission_without_forcing() {
    assert!(parse_and_validate_api_key_permissions(&[]).is_err());
    let perms = parse_and_validate_api_key_permissions(&["sources:read".to_string()]);
    assert!(perms.is_ok());
    let perms = perms.ok().unwrap();
    assert!(!perms.contains(Permission::ReleasesRead));
    assert!(perms.contains(Permission::SourcesRead));
    assert_eq!(perms.len(), 1);
}

#[test]
fn permission_names_round_trip() {
    for p in Permission::all().iter() {
        assert_eq!(permission_from_name(p.as_str()), Some(*p));
    }
    assert_eq!(permission_from_name("nope"), None);
}

#[test]
fn permission_list_is_sorted_and_forced() {
    let mut set = PermissionSet::new();
    set.insert(Permission::SourcesRead);
    let forced = with_forced_permissions(set);
    let names = permission_set_to_vec(&forced);
    assert_eq!(names, vec!["releases:read".to_string(), "sources:read".to_string()]);
    assert_eq!(permissions_to_json(&forced), r#"["releases:read","sources:read"]"#);
}

#[test]
fn window_counter_enforces_limit() {
    let mut store = RateLimitStore::new();
    let key = "k1";
    for _ in 0..5 {
        assert!(!store.check(key, Some(5), None).limited);
    }
    assert!(store.check(key, Some(5), None).limited);
}

#[test]
fn status_reports_remaining_for_most_constraining_window() {
    let mut store = RateLimitStore::new();
    let key = "k2";
    let status = store.check(key, Some(10), Some(2));
    assert!(!status.limited);
    assert_eq!(status.limit, Some(2));
    assert_eq!(status.remaining, Some(1));
}

#[test]
fn rpm_one_blocks_second_request() {
    let mut store = RateLimitStore::new();
    let key = "k3";
    assert!(!store.check(key, Some(1), Some(1)).limited);
    assert!(store.check(key, Some(1), Some(1)).limited);
}

#[test]
fn rate_limit_window_resets_after_a_minute() {
    let mut store = RateLimitStore::new();
    assert!(!store.check_at("k", Some(1), None, 0).limited);
    assert!(store.check_at("k", Some(1), None, 1_000_000_000).limited);
    assert!(!store.check_at("k", Some(1), None, 60_000_000_000).limited);
}

#[test]
fn session_claims_expire_and_api_keys_do_not() {
    let s = session_claims("u1", "a@b.com", true, 1000, 60);
    assert_eq!(s.typ, TokenKind::Session);
    assert_eq!(s.exp, Some(1060));
    assert!(check_claims(s.clone(), 1060).is_ok());
    assert_eq!(check_claims(s, 1061).unwrap_err(), "session token expired");
    let k = api_key_claims("k1", "prod", 1000);
    assert_eq!(k.exp, None);
    assert!(check_claims(k, i64::MAX).is_ok());
}

#[test]
fn session_token_roundtrip() {
    let token = encode_session_token("secret", "user-1", "admin@ragdoll.ai", true, 3600).unwrap();
    let claims = verify_token("secret", &token).unwrap();
    assert_eq!(claims.sub, "user-1");
    assert_eq!(claims.typ, TokenKind::Session);
    assert!(claims.is_superadmin);
}

#[test]
fn api_key_token_has_no_expiry() {
    let token = encode_api_key_token("secret", "key-1", "prod", "2026-01-01").unwrap();
    let claims = verify_token("secret", &token).unwrap();
    assert_eq!(claims.typ, TokenKind::Apikey);
    assert!(claims.exp.is_none());
}

#[test]
fn wrong_secret_fails_verification() {
    let token = encode_session_token("secret", "user-1", "admin@ragdoll.ai", true, 3600).unwrap();
    assert!(verify_token("other-secret", &token).is_err());
}

#[test]
fn claims_are_written_in_field_order() {
    let s = session_claims("user-1", "a\"b@x.io", true, 1700000000, 60);
    assert_eq!(
        claims_json_text(&s),
        r#"{"sub":"user-1","typ":"session","email":"a\"b@x.io","is_superadmin":true,"name":null,"iat":1700000000,"exp":1700000060}"#
    );
    let k = api_key_claims("k1", "prod", -5);
    assert_eq!(
        claims_json_text(&k),
        r#"{"sub":"k1","typ":"apikey","email":null,"is_superadmin":false,"name":"prod","iat":-5,"exp":null}"#
    );
}

#[test]
fn signed_claims_verify_to_themselves() {
    let k = api_key_claims("k9", "ci \"bot\"", -7);
    let token = sign_claims("key", &k);
    let back = verify_token("key", &token).unwrap();
    assert_eq!(back.sub, "k9");
    assert_eq!(back.typ, TokenKind::Apikey);
    assert_eq!(back.name.as_deref(), Some("ci \"bot\""));
    assert_eq!(back.iat, -7);
    assert!(back.email.is_none() && back.exp.is_none() && !back.is_superadmin);
    assert_eq!(verify_token("other", &token).unwrap_err(), TokenError::Rejected);
    let s = session_claims("u", "e@x.io", true, 5, i64::MAX - 5);
    let back = verify_token("key", &sign_claims("key", &s)).unwrap();
    assert_eq!(back.exp, Some(i64::MAX));
    assert_eq!(back.email.as_deref(), Some("e@x.io"));
}

#[test]
fn claims_read_back_as_written() {
    let s = session_claims("user-1", "a@b.com", false, 10, 20);
    let text = claims_json_text(&s);
    let back = parse_claims(&text).unwrap();
    assert_eq!(back.sub, "user-1");
    assert_eq!(back.email.as_deref(), Some("a@b.com"));
    assert_eq!(back.exp, Some(30));
    assert_eq!(back.iat, 10);
    assert!(back.name.is_none());
}

#[test]
fn parse_claims_defaults_and_refusals() {
    let c = parse_claims(r#"{"sub":"k","typ":"apikey","iat":1,"extra":[1]}"#).unwrap();
    assert!(!c.is_superadmin);
    assert!(c.email.is_none() && c.name.is_none() && c.exp.is_none());
    assert!(parse_claims(r#"{"typ":"apikey","iat":1}"#).is_none());
    assert!(parse_claims(r#"{"sub":"k","typ":"robot","iat":1}"#).is_none());
    assert!(parse_claims(r#"{"sub":"k","typ":"apikey","iat":1.5}"#).is_none());
    assert!(parse_claims(r#"{"sub":"k","typ":"apikey","iat":1,"is_superadmin":null}"#).is_none());
    assert!(parse_claims(r#"{"sub":"k","typ":"apikey","iat":1,"email":3}"#).is_none());
    assert!(parse_claims("[1,2]").is_none());
}

#[test]
fn accept_claims_refuses_expired_sessions_only() {
    let payload = r#"{"sub":"u","typ":"session","iat":1,"exp":100}"#;
    assert!(accept_claims(payload, 100).is_ok());
    assert_eq!(accept_claims(payload, 101).unwrap_err(), TokenError::Expired);
    assert_eq!(TokenError::Expired.message(), "session token expired");
    let key = r#"{"sub":"k","typ":"apikey","iat":1,"exp":100}"#;
    assert!(accept_claims(key, 101).is_ok());
    assert_eq!(accept_claims("not json", 0).unwrap_err(), TokenError::Rejected);
}

#[test]
fn expired_session_token_is_refused() {
    let claims = session_claims("u", "e@x.io", false, 1000, 10);
    let token = sign_claims("s", &claims);
    assert_eq!(verify_token("s", &token).unwrap_err(), TokenError::Expired);
    assert_eq!(verify_token("s", "a.b.c").unwrap_err(), TokenError::Rejected);
    assert_eq!(
        encode_session_token("s", "u", "e@x.io", false, i64::MAX).unwrap_err(),
        TokenError::ExpiryOverflow
    );
}

#[test]
fn authentication_begins_with_the_bearer_token() {
    assert!(matches!(start_auth("/api/v1/health", None, "s"), AuthStart::Public));
    assert!(matches!(start_auth("/api/v1/releases", None, "s"), AuthStart::Reject(401)));
    assert!(matches!(start_auth("/api/v1/releases", Some("Basic abc"), "s"), AuthStart::Reject(401)));
    assert!(matches!(start_auth("/api/v1/releases", Some("Bearer not-a-token"), "s"), AuthStart::Reject(401)));

    let session = encode_session_token("s", "u1", "a@b.com", true, 3600).unwrap();
    match start_auth("/api/v1/releases", Some(&format!("Bearer {session}")), "s") {
        AuthStart::Session(AuthPrincipal::Session { user_id, email, is_superadmin }) => {
            assert_eq!(user_id, "u1");
            assert_eq!(email, "a@b.com");
            assert!(is_superadmin);
        }
        other => panic!("unexpected {other:?}"),
    }
    assert!(matches!(
        start_auth("/api/v1/releases", Some(&format!("Bearer {session}")), "other"),
        AuthStart::Reject(401)
    ));

    let key = encode_api_key_token("s", "k7", "prod", "2026-01-01").unwrap();
    match start_auth("/api/v1/releases", Some(&format!("Bearer {key}")), "s") {
        AuthStart::LookupApiKey(id) => assert_eq!(id, "k7"),
        other => panic!("unexpected {other:?}"),
    }

    let mut no_email = session_claims("u2", "x@y.z", false, 1, i64::MAX - 1);
    no_email.email = None;
    let token = sign_claims("s", &no_email);
    assert!(matches!(start_auth("/api/v1/releases", Some(&format!("Bearer {token}")), "s"), AuthStart::Reject(503)));
}

#[test]
fn api_keys_resolve_or_are_revoked() {
    match api_key_principal(Some(("k1".to_string(), "prod".to_string()))) {
        Ok(AuthPrincipal::ApiKey { key_id, name }) => {
            assert_eq!(key_id, "k1");
            assert_eq!(name, "prod");
        }
        other => panic!("unexpected {other:?}"),
    }
    assert_eq!(api_key_principal(None).unwrap_err(), 401);
}

#[test]
fn stage_plane_writes_are_for_api_keys() {
    let session = AuthPrincipal::Session { user_id: "u".into(), email: "e@x.io".into(), is_superadmin: true };
    let key = AuthPrincipal::ApiKey { key_id: "k".into(), name: "n".into() };
    assert_eq!(admit_request("/api/v1/stages/prod/sources", "POST", &session), Err(403));
    assert_eq!(admit_request("/api/v1/stages/prod/sources", "POST", &key), Ok(()));
    assert_eq!(admit_request("/api/v1/stages/prod/sources", "GET", &session), Ok(()));
    assert_eq!(admit_request("/api/v1/releases/r/sources", "POST", &session), Ok(()));
}

#[test]
fn superadmin_start_up_steps() {
    let mut config = Config::for_test("/tmp/x".to_string(), "s".to_string());
    match superadmin_step(Some("id1".to_string()), &config) {
        SuperadminStep::SetPassword { user_id, password } => {
            assert_eq!(user_id, "id1");
            assert_eq!(password, "admin");
        }
        other => panic!("unexpected {other:?}"),
    }
    config.superadmin_password = None;
    assert!(matches!(superadmin_step(Some("id1".to_string()), &config), SuperadminStep::MarkDefault { .. }));
    match superadmin_step(None, &config) {
        SuperadminStep::Create { email, password, password_is_default } => {
            assert_eq!(email, "admin@ragdoll.ai");
            assert_eq!(password, "admin");
            assert!(password_is_default);
        }
        other => panic!("unexpected {other:?}"),
    }
    config.superadmin_password = Some("pw".to_string());
    assert!(matches!(
        superadmin_step(None, &config),
        SuperadminStep::Create { password_is_default: false, .. }
    ));
}

#[test]
fn stored_permissions_read_back_as_written() {
    let mut set = PermissionSet::new();
    for p in [Permission::WebhooksDelete, Permission::AnalyticsRead, Permission::BackupsRestore, Permission::UsersRead] {
        set.insert(p);
    }
    let text = permissions_to_json(&set);
    assert_eq!(text, r#"["analytics:read","backups:restore","users:read","webhooks:delete"]"#);
    let back = parse_permissions(&text);
    assert_eq!(permission_set_to_vec(&back), permission_set_to_vec(&set));
    assert_eq!(permissions_to_json(&PermissionSet::new()), "[]");
    assert!(permission_set_to_vec(&parse_permissions("[]")).is_empty());
}

#[test]
fn permission_list_is_sorted_once_each() {
    let mut set = PermissionSet::new();
    for p in [Permission::WebhooksDelete, Permission::AnalyticsRead, Permission::ApiKeysWrite, Permission::ApiKeysDelete, Permission::DbRead] {
        set.insert(p);
    }
    set.insert(Permission::DbRead);
    let names = permission_set_to_vec(&set);
    assert_eq!(names.len(), 5);
    assert!(names.windows(2).all(|w| w[0] < w[1]));
    assert_eq!(names[0], "analytics:read");
    assert_eq!(names[4], "webhooks:delete");
    for n in &names {
        assert_eq!(n.matches(':').count(), 1);
    }
}
