//! The catalog of guarded API routes and the permission each requires.
use vstd::prelude::*;

use crate::auth::permissions::Permission;

verus! {

/// A guarded route: its method, its path below the API prefix, and the
/// permission it requires.
#[derive(Clone, Copy, Debug)]
pub struct RoutePermission {
    pub method: &'static str,
    pub path_suffix: &'static str,
    pub permission: Option<Permission>,
}

/// Entry `i` of the route catalog: method, path suffix and permission.
pub open spec fn route_entry(i: int) -> (Seq<char>, Seq<char>, Permission) {
    if i == 0 {
        ("GET"@, "/users"@, Permission::UsersRead)
    } else if i == 1 {
        ("POST"@, "/users"@, Permission::UsersWrite)
    } else if i == 2 {
        ("PATCH"@, "/users/{id}"@, Permission::UsersWrite)
    } else if i == 3 {
        ("DELETE"@, "/users/{id}"@, Permission::UsersDelete)
    } else if i == 4 {
        ("GET"@, "/api_keys"@, Permission::ApiKeysRead)
    } else if i == 5 {
        ("POST"@, "/api_keys"@, Permission::ApiKeysWrite)
    } else if i == 6 {
        ("PATCH"@, "/api_keys/{id}"@, Permission::ApiKeysWrite)
    } else if i == 7 {
        ("DELETE"@, "/api_keys/{id}"@, Permission::ApiKeysDelete)
    } else if i == 8 {
        ("GET"@, "/releases"@, Permission::ReleasesRead)
    } else if i == 9 {
        ("POST"@, "/releases"@, Permission::ReleasesWrite)
    } else if i == 10 {
        ("GET"@, "/releases/{tag}/sources"@, Permission::SourcesRead)
    } else if i == 11 {
        ("POST"@, "/releases/{tag}/queries"@, Permission::QueriesRun)
    } else if i == 12 {
        ("POST"@, "/playground/{tag}/queries"@, Permission::PlaygroundRun)
    } else if i == 13 {
        ("GET"@, "/releases/{tag}/webhooks"@, Permission::WebhooksRead)
    } else if i == 14 {
        ("POST"@, "/releases/{tag}/webhooks"@, Permission::WebhooksWrite)
    } else if i == 15 {
        ("GET"@, "/releases/{tag}/webhooks/{id}/secret"@, Permission::WebhooksRead)
    } else {
        ("POST"@, "/releases/{tag}/webhooks/{id}/test"@, Permission::WebhooksWrite)
    }
}

/// The number of guarded routes in the catalog.
pub open spec fn route_count() -> int {
    17
}

/// Catalog of guarded API routes. Public routes (health, login, static) are omitted.
pub fn endpoint_permission_map() -> (r: Vec<RoutePermission>)
    ensures
        r@.len() == route_count(),
        forall|i: int|
            0 <= i < route_count() ==> {
                let e = #[trigger] route_entry(i);
                &&& r@[i].method@ == e.0
                &&& r@[i].path_suffix@ == e.1
                &&& r@[i].permission == Some(e.2)
            },
{
    let mut r: Vec<RoutePermission> = Vec::new();
    r.push(RoutePermission { method: "GET", path_suffix: "/users", permission: Some(Permission::UsersRead) });
    r.push(RoutePermission { method: "POST", path_suffix: "/users", permission: Some(Permission::UsersWrite) });
    r.push(RoutePermission { method: "PATCH", path_suffix: "/users/{id}", permission: Some(Permission::UsersWrite) });
    r.push(RoutePermission { method: "DELETE", path_suffix: "/users/{id}", permission: Some(Permission::UsersDelete) });
    r.push(RoutePermission { method: "GET", path_suffix: "/api_keys", permission: Some(Permission::ApiKeysRead) });
    r.push(RoutePermission { method: "POST", path_suffix: "/api_keys", permission: Some(Permission::ApiKeysWrite) });
    r.push(RoutePermission { method: "PATCH", path_suffix: "/api_keys/{id}", permission: Some(Permission::ApiKeysWrite) });
    r.push(RoutePermission { method: "DELETE", path_suffix: "/api_keys/{id}", permission: Some(Permission::ApiKeysDelete) });
    r.push(RoutePermission { method: "GET", path_suffix: "/releases", permission: Some(Permission::ReleasesRead) });
    r.push(RoutePermission { method: "POST", path_suffix: "/releases", permission: Some(Permission::ReleasesWrite) });
    r.push(RoutePermission { method: "GET", path_suffix: "/releases/{tag}/sources", permission: Some(Permission::SourcesRead) });
    r.push(RoutePermission { method: "POST", path_suffix: "/releases/{tag}/queries", permission: Some(Permission::QueriesRun) });
    r.push(RoutePermission { method: "POST", path_suffix: "/playground/{tag}/queries", permission: Some(Permission::PlaygroundRun) });
    r.push(RoutePermission { method: "GET", path_suffix: "/releases/{tag}/webhooks", permission: Some(Permission::WebhooksRead) });
    r.push(RoutePermission { method: "POST", path_suffix: "/releases/{tag}/webhooks", permission: Some(Permission::WebhooksWrite) });
    r.push(RoutePermission { method: "GET", path_suffix: "/releases/{tag}/webhooks/{id}/secret", permission: Some(Permission::WebhooksRead) });
    r.push(RoutePermission { method: "POST", path_suffix: "/releases/{tag}/webhooks/{id}/test", permission: Some(Permission::WebhooksWrite) });
    r
}

} // verus!
