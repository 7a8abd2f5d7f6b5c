//! Permissions granted to users and API keys, and the checks that guard routes.
use vstd::prelude::*;

use crate::api::batch::{is_api_error, ApiError};
use crate::auth::middleware::AuthContext;
use crate::backup::text_lt;
use crate::json::{as_string_items, json_array_items, json_string_list, read_json_array_items, string_views, write_json_string_list};
use crate::text::{chars_eq, chars_of, push_str, string_from_chars};





verus! {

/// A capability that a route requires.
#[derive(Clone, Copy, Debug, PartialEq, Eq, Structural, Hash)]
pub enum Permission {
    SourcesRead,
    SourcesWrite,
    SourcesDelete,
    ChunksRead,
    ChunksWrite,
    ChunksDelete,
    QueriesRun,
    QueriesRead,
    QueriesDelete,
    PlaygroundRun,
    PlaygroundRead,
    DbRead,
    SettingsRead,
    SettingsWrite,
    LlmModelsRead,
    LlmModelsWrite,
    LlmModelsDelete,
    LlmCredentialsRead,
    LlmCredentialsWrite,
    LlmCredentialsDelete,
    AnalyticsRead,
    ReleasesRead,
    ReleasesWrite,
    ReleasesDelete,
    StagesRead,
    StagesWrite,
    StagesDelete,
    ModelsRead,
    ModelsDownload,
    ModelsDelete,
    BackupsRead,
    BackupsCreate,
    BackupsUpload,
    BackupsDownload,
    BackupsRestore,
    BackupsDelete,
    UsersRead,
    UsersWrite,
    UsersDelete,
    ApiKeysRead,
    ApiKeysWrite,
    ApiKeysDelete,
    WebhooksRead,
    WebhooksWrite,
    WebhooksDelete,
}

/// The number of permissions.
pub const PERMISSION_COUNT: usize = 45;

/// The position of `p` in the permission catalog.
pub open spec fn perm_index(p: Permission) -> int {
    match p {
        Permission::SourcesRead => 0,
        Permission::SourcesWrite => 1,
        Permission::SourcesDelete => 2,
        Permission::ChunksRead => 3,
        Permission::ChunksWrite => 4,
        Permission::ChunksDelete => 5,
        Permission::QueriesRun => 6,
        Permission::QueriesRead => 7,
        Permission::QueriesDelete => 8,
        Permission::PlaygroundRun => 9,
        Permission::PlaygroundRead => 10,
        Permission::DbRead => 11,
        Permission::SettingsRead => 12,
        Permission::SettingsWrite => 13,
        Permission::LlmModelsRead => 14,
        Permission::LlmModelsWrite => 15,
        Permission::LlmModelsDelete => 16,
        Permission::LlmCredentialsRead => 17,
        Permission::LlmCredentialsWrite => 18,
        Permission::LlmCredentialsDelete => 19,
        Permission::AnalyticsRead => 20,
        Permission::ReleasesRead => 21,
        Permission::ReleasesWrite => 22,
        Permission::ReleasesDelete => 23,
        Permission::StagesRead => 24,
        Permission::StagesWrite => 25,
        Permission::StagesDelete => 26,
        Permission::ModelsRead => 27,
        Permission::ModelsDownload => 28,
        Permission::ModelsDelete => 29,
        Permission::BackupsRead => 30,
        Permission::BackupsCreate => 31,
        Permission::BackupsUpload => 32,
        Permission::BackupsDownload => 33,
        Permission::BackupsRestore => 34,
        Permission::BackupsDelete => 35,
        Permission::UsersRead => 36,
        Permission::UsersWrite => 37,
        Permission::UsersDelete => 38,
        Permission::ApiKeysRead => 39,
        Permission::ApiKeysWrite => 40,
        Permission::ApiKeysDelete => 41,
        Permission::WebhooksRead => 42,
        Permission::WebhooksWrite => 43,
        Permission::WebhooksDelete => 44,
    }
}

/// The permission at position `i` of the catalog.
pub open spec fn perm_at(i: int) -> Permission {
    if i == 0 {
        Permission::SourcesRead
    } else if i == 1 {
        Permission::SourcesWrite
    } else if i == 2 {
        Permission::SourcesDelete
    } else if i == 3 {
        Permission::ChunksRead
    } else if i == 4 {
        Permission::ChunksWrite
    } else if i == 5 {
        Permission::ChunksDelete
    } else if i == 6 {
        Permission::QueriesRun
    } else if i == 7 {
        Permission::QueriesRead
    } else if i == 8 {
        Permission::QueriesDelete
    } else if i == 9 {
        Permission::PlaygroundRun
    } else if i == 10 {
        Permission::PlaygroundRead
    } else if i == 11 {
        Permission::DbRead
    } else if i == 12 {
        Permission::SettingsRead
    } else if i == 13 {
        Permission::SettingsWrite
    } else if i == 14 {
        Permission::LlmModelsRead
    } else if i == 15 {
        Permission::LlmModelsWrite
    } else if i == 16 {
        Permission::LlmModelsDelete
    } else if i == 17 {
        Permission::LlmCredentialsRead
    } else if i == 18 {
        Permission::LlmCredentialsWrite
    } else if i == 19 {
        Permission::LlmCredentialsDelete
    } else if i == 20 {
        Permission::AnalyticsRead
    } else if i == 21 {
        Permission::ReleasesRead
    } else if i == 22 {
        Permission::ReleasesWrite
    } else if i == 23 {
        Permission::ReleasesDelete
    } else if i == 24 {
        Permission::StagesRead
    } else if i == 25 {
        Permission::StagesWrite
    } else if i == 26 {
        Permission::StagesDelete
    } else if i == 27 {
        Permission::ModelsRead
    } else if i == 28 {
        Permission::ModelsDownload
    } else if i == 29 {
        Permission::ModelsDelete
    } else if i == 30 {
        Permission::BackupsRead
    } else if i == 31 {
        Permission::BackupsCreate
    } else if i == 32 {
        Permission::BackupsUpload
    } else if i == 33 {
        Permission::BackupsDownload
    } else if i == 34 {
        Permission::BackupsRestore
    } else if i == 35 {
        Permission::BackupsDelete
    } else if i == 36 {
        Permission::UsersRead
    } else if i == 37 {
        Permission::UsersWrite
    } else if i == 38 {
        Permission::UsersDelete
    } else if i == 39 {
        Permission::ApiKeysRead
    } else if i == 40 {
        Permission::ApiKeysWrite
    } else if i == 41 {
        Permission::ApiKeysDelete
    } else if i == 42 {
        Permission::WebhooksRead
    } else if i == 43 {
        Permission::WebhooksWrite
    } else {
        Permission::WebhooksDelete
    }
}

/// The name of `p` as stored and shown (`resource:action`).
pub open spec fn perm_name(p: Permission) -> Seq<char> {
    match p {
        Permission::SourcesRead => "sources:read"@,
        Permission::SourcesWrite => "sources:write"@,
        Permission::SourcesDelete => "sources:delete"@,
        Permission::ChunksRead => "chunks:read"@,
        Permission::ChunksWrite => "chunks:write"@,
        Permission::ChunksDelete => "chunks:delete"@,
        Permission::QueriesRun => "queries:run"@,
        Permission::QueriesRead => "queries:read"@,
        Permission::QueriesDelete => "queries:delete"@,
        Permission::PlaygroundRun => "playground:run"@,
        Permission::PlaygroundRead => "playground:read"@,
        Permission::DbRead => "db:read"@,
        Permission::SettingsRead => "settings:read"@,
        Permission::SettingsWrite => "settings:write"@,
        Permission::LlmModelsRead => "llm_models:read"@,
        Permission::LlmModelsWrite => "llm_models:write"@,
        Permission::LlmModelsDelete => "llm_models:delete"@,
        Permission::LlmCredentialsRead => "llm_credentials:read"@,
        Permission::LlmCredentialsWrite => "llm_credentials:write"@,
        Permission::LlmCredentialsDelete => "llm_credentials:delete"@,
        Permission::AnalyticsRead => "analytics:read"@,
        Permission::ReleasesRead => "releases:read"@,
        Permission::ReleasesWrite => "releases:write"@,
        Permission::ReleasesDelete => "releases:delete"@,
        Permission::StagesRead => "stages:read"@,
        Permission::StagesWrite => "stages:write"@,
        Permission::StagesDelete => "stages:delete"@,
        Permission::ModelsRead => "models:read"@,
        Permission::ModelsDownload => "models:download"@,
        Permission::ModelsDelete => "models:delete"@,
        Permission::BackupsRead => "backups:read"@,
        Permission::BackupsCreate => "backups:create"@,
        Permission::BackupsUpload => "backups:upload"@,
        Permission::BackupsDownload => "backups:download"@,
        Permission::BackupsRestore => "backups:restore"@,
        Permission::BackupsDelete => "backups:delete"@,
        Permission::UsersRead => "users:read"@,
        Permission::UsersWrite => "users:write"@,
        Permission::UsersDelete => "users:delete"@,
        Permission::ApiKeysRead => "api_keys:read"@,
        Permission::ApiKeysWrite => "api_keys:write"@,
        Permission::ApiKeysDelete => "api_keys:delete"@,
        Permission::WebhooksRead => "webhooks:read"@,
        Permission::WebhooksWrite => "webhooks:write"@,
        Permission::WebhooksDelete => "webhooks:delete"@,
    }
}

/// The text is `resource:action`: exactly one colon, with text before and
/// after it.
pub open spec fn resource_action_form(s: Seq<char>) -> bool {
    exists|k: int|
        0 < k < s.len() - 1 && #[trigger] s[k] == ':' && forall|i: int| 0 <= i < s.len() && i != k ==> s[i] != ':'
}

proof fn lemma_colon_at(s: Seq<char>, k: int)
    requires
        0 < k < s.len() - 1,
        s[k] == ':',
        forall|i: int| 0 <= i < s.len() && i != k ==> s[i] != ':',
    ensures
        resource_action_form(s),
{
}

/// Every permission name has the form `resource:action`.
pub proof fn lemma_perm_name_form(p: Permission)
    ensures
        resource_action_form(perm_name(p)),
{
    match p {
        Permission::SourcesRead => {
            reveal_strlit("sources:read");
            lemma_colon_at("sources:read"@, 7);
        },
        Permission::SourcesWrite => {
            reveal_strlit("sources:write");
            lemma_colon_at("sources:write"@, 7);
        },
        Permission::SourcesDelete => {
            reveal_strlit("sources:delete");
            lemma_colon_at("sources:delete"@, 7);
        },
        Permission::ChunksRead => {
            reveal_strlit("chunks:read");
            lemma_colon_at("chunks:read"@, 6);
        },
        Permission::ChunksWrite => {
            reveal_strlit("chunks:write");
            lemma_colon_at("chunks:write"@, 6);
        },
        Permission::ChunksDelete => {
            reveal_strlit("chunks:delete");
            lemma_colon_at("chunks:delete"@, 6);
        },
        Permission::QueriesRun => {
            reveal_strlit("queries:run");
            lemma_colon_at("queries:run"@, 7);
        },
        Permission::QueriesRead => {
            reveal_strlit("queries:read");
            lemma_colon_at("queries:read"@, 7);
        },
        Permission::QueriesDelete => {
            reveal_strlit("queries:delete");
            lemma_colon_at("queries:delete"@, 7);
        },
        Permission::PlaygroundRun => {
            reveal_strlit("playground:run");
            lemma_colon_at("playground:run"@, 10);
        },
        Permission::PlaygroundRead => {
            reveal_strlit("playground:read");
            lemma_colon_at("playground:read"@, 10);
        },
        Permission::DbRead => {
            reveal_strlit("db:read");
            lemma_colon_at("db:read"@, 2);
        },
        Permission::SettingsRead => {
            reveal_strlit("settings:read");
            lemma_colon_at("settings:read"@, 8);
        },
        Permission::SettingsWrite => {
            reveal_strlit("settings:write");
            lemma_colon_at("settings:write"@, 8);
        },
        Permission::LlmModelsRead => {
            reveal_strlit("llm_models:read");
            lemma_colon_at("llm_models:read"@, 10);
        },
        Permission::LlmModelsWrite => {
            reveal_strlit("llm_models:write");
            lemma_colon_at("llm_models:write"@, 10);
        },
        Permission::LlmModelsDelete => {
            reveal_strlit("llm_models:delete");
            lemma_colon_at("llm_models:delete"@, 10);
        },
        Permission::LlmCredentialsRead => {
            reveal_strlit("llm_credentials:read");
            lemma_colon_at("llm_credentials:read"@, 15);
        },
        Permission::LlmCredentialsWrite => {
            reveal_strlit("llm_credentials:write");
            lemma_colon_at("llm_credentials:write"@, 15);
        },
        Permission::LlmCredentialsDelete => {
            reveal_strlit("llm_credentials:delete");
            lemma_colon_at("llm_credentials:delete"@, 15);
        },
        Permission::AnalyticsRead => {
            reveal_strlit("analytics:read");
            lemma_colon_at("analytics:read"@, 9);
        },
        Permission::ReleasesRead => {
            reveal_strlit("releases:read");
            lemma_colon_at("releases:read"@, 8);
        },
        Permission::ReleasesWrite => {
            reveal_strlit("releases:write");
            lemma_colon_at("releases:write"@, 8);
        },
        Permission::ReleasesDelete => {
            reveal_strlit("releases:delete");
            lemma_colon_at("releases:delete"@, 8);
        },
        Permission::StagesRead => {
            reveal_strlit("stages:read");
            lemma_colon_at("stages:read"@, 6);
        },
        Permission::StagesWrite => {
            reveal_strlit("stages:write");
            lemma_colon_at("stages:write"@, 6);
        },
        Permission::StagesDelete => {
            reveal_strlit("stages:delete");
            lemma_colon_at("stages:delete"@, 6);
        },
        Permission::ModelsRead => {
            reveal_strlit("models:read");
            lemma_colon_at("models:read"@, 6);
        },
        Permission::ModelsDownload => {
            reveal_strlit("models:download");
            lemma_colon_at("models:download"@, 6);
        },
        Permission::ModelsDelete => {
            reveal_strlit("models:delete");
            lemma_colon_at("models:delete"@, 6);
        },
        Permission::BackupsRead => {
            reveal_strlit("backups:read");
            lemma_colon_at("backups:read"@, 7);
        },
        Permission::BackupsCreate => {
            reveal_strlit("backups:create");
            lemma_colon_at("backups:create"@, 7);
        },
        Permission::BackupsUpload => {
            reveal_strlit("backups:upload");
            lemma_colon_at("backups:upload"@, 7);
        },
        Permission::BackupsDownload => {
            reveal_strlit("backups:download");
            lemma_colon_at("backups:download"@, 7);
        },
        Permission::BackupsRestore => {
            reveal_strlit("backups:restore");
            lemma_colon_at("backups:restore"@, 7);
        },
        Permission::BackupsDelete => {
            reveal_strlit("backups:delete");
            lemma_colon_at("backups:delete"@, 7);
        },
        Permission::UsersRead => {
            reveal_strlit("users:read");
            lemma_colon_at("users:read"@, 5);
        },
        Permission::UsersWrite => {
            reveal_strlit("users:write");
            lemma_colon_at("users:write"@, 5);
        },
        Permission::UsersDelete => {
            reveal_strlit("users:delete");
            lemma_colon_at("users:delete"@, 5);
        },
        Permission::ApiKeysRead => {
            reveal_strlit("api_keys:read");
            lemma_colon_at("api_keys:read"@, 8);
        },
        Permission::ApiKeysWrite => {
            reveal_strlit("api_keys:write");
            lemma_colon_at("api_keys:write"@, 8);
        },
        Permission::ApiKeysDelete => {
            reveal_strlit("api_keys:delete");
            lemma_colon_at("api_keys:delete"@, 8);
        },
        Permission::WebhooksRead => {
            reveal_strlit("webhooks:read");
            lemma_colon_at("webhooks:read"@, 8);
        },
        Permission::WebhooksWrite => {
            reveal_strlit("webhooks:write");
            lemma_colon_at("webhooks:write"@, 8);
        },
        Permission::WebhooksDelete => {
            reveal_strlit("webhooks:delete");
            lemma_colon_at("webhooks:delete"@, 8);
        },
    }
}

/// Reads back a permission from the length and two characters of its name;
/// on the names of the catalog this is the inverse of `perm_name`.
spec fn perm_of_name(s: Seq<char>) -> Permission {
    if s.len() == 12 && s[4] == 'c' && s[8] == 'r' {
        Permission::SourcesRead
    } else if s.len() == 13 && s[4] == 'c' && s[8] == 'w' {
        Permission::SourcesWrite
    } else if s.len() == 14 && s[4] == 'c' && s[8] == 'd' {
        Permission::SourcesDelete
    } else if s.len() == 11 && s[4] == 'k' && s[8] == 'e' {
        Permission::ChunksRead
    } else if s.len() == 12 && s[4] == 'k' && s[8] == 'r' {
        Permission::ChunksWrite
    } else if s.len() == 13 && s[4] == 'k' && s[8] == 'e' {
        Permission::ChunksDelete
    } else if s.len() == 11 && s[4] == 'i' && s[8] == 'r' {
        Permission::QueriesRun
    } else if s.len() == 12 && s[4] == 'i' && s[8] == 'r' {
        Permission::QueriesRead
    } else if s.len() == 14 && s[4] == 'i' && s[8] == 'd' {
        Permission::QueriesDelete
    } else if s.len() == 14 && s[4] == 'g' && s[8] == 'n' {
        Permission::PlaygroundRun
    } else if s.len() == 15 && s[4] == 'g' && s[8] == 'n' {
        Permission::PlaygroundRead
    } else if s.len() == 7 && s[4] == 'e' {
        Permission::DbRead
    } else if s.len() == 13 && s[4] == 'i' && s[8] == ':' {
        Permission::SettingsRead
    } else if s.len() == 14 && s[4] == 'i' && s[8] == ':' {
        Permission::SettingsWrite
    } else if s.len() == 15 && s[4] == 'm' && s[8] == 'l' {
        Permission::LlmModelsRead
    } else if s.len() == 16 && s[4] == 'm' && s[8] == 'l' {
        Permission::LlmModelsWrite
    } else if s.len() == 17 && s[4] == 'm' && s[8] == 'l' {
        Permission::LlmModelsDelete
    } else if s.len() == 20 && s[4] == 'c' && s[8] == 'e' {
        Permission::LlmCredentialsRead
    } else if s.len() == 21 && s[4] == 'c' && s[8] == 'e' {
        Permission::LlmCredentialsWrite
    } else if s.len() == 22 && s[4] == 'c' && s[8] == 'e' {
        Permission::LlmCredentialsDelete
    } else if s.len() == 14 && s[4] == 'y' && s[8] == 's' {
        Permission::AnalyticsRead
    } else if s.len() == 13 && s[4] == 'a' && s[8] == ':' {
        Permission::ReleasesRead
    } else if s.len() == 14 && s[4] == 'a' && s[8] == ':' {
        Permission::ReleasesWrite
    } else if s.len() == 15 && s[4] == 'a' && s[8] == ':' {
        Permission::ReleasesDelete
    } else if s.len() == 11 && s[4] == 'e' && s[8] == 'e' {
        Permission::StagesRead
    } else if s.len() == 12 && s[4] == 'e' && s[8] == 'r' {
        Permission::StagesWrite
    } else if s.len() == 13 && s[4] == 'e' && s[8] == 'e' {
        Permission::StagesDelete
    } else if s.len() == 11 && s[4] == 'l' && s[8] == 'e' {
        Permission::ModelsRead
    } else if s.len() == 15 && s[4] == 'l' && s[8] == 'o' {
        Permission::ModelsDownload
    } else if s.len() == 13 && s[4] == 'l' && s[8] == 'e' {
        Permission::ModelsDelete
    } else if s.len() == 12 && s[4] == 'u' && s[8] == 'r' {
        Permission::BackupsRead
    } else if s.len() == 14 && s[4] == 'u' && s[8] == 'c' {
        Permission::BackupsCreate
    } else if s.len() == 14 && s[4] == 'u' && s[8] == 'u' {
        Permission::BackupsUpload
    } else if s.len() == 16 && s[4] == 'u' && s[8] == 'd' {
        Permission::BackupsDownload
    } else if s.len() == 15 && s[4] == 'u' && s[8] == 'r' {
        Permission::BackupsRestore
    } else if s.len() == 14 && s[4] == 'u' && s[8] == 'd' {
        Permission::BackupsDelete
    } else if s.len() == 10 && s[4] == 's' && s[8] == 'a' {
        Permission::UsersRead
    } else if s.len() == 11 && s[4] == 's' && s[8] == 'i' {
        Permission::UsersWrite
    } else if s.len() == 12 && s[4] == 's' && s[8] == 'l' {
        Permission::UsersDelete
    } else if s.len() == 13 && s[4] == 'k' && s[8] == ':' {
        Permission::ApiKeysRead
    } else if s.len() == 14 && s[4] == 'k' && s[8] == ':' {
        Permission::ApiKeysWrite
    } else if s.len() == 15 && s[4] == 'k' && s[8] == ':' {
        Permission::ApiKeysDelete
    } else if s.len() == 13 && s[4] == 'o' && s[8] == ':' {
        Permission::WebhooksRead
    } else if s.len() == 14 && s[4] == 'o' && s[8] == ':' {
        Permission::WebhooksWrite
    } else {
        Permission::WebhooksDelete
    }
}

proof fn lemma_perm_of_name(p: Permission)
    ensures
        perm_of_name(perm_name(p)) == p,
{
    match p {
        Permission::SourcesRead => {
            reveal_strlit("sources:read");
            assert("sources:read"@.len() == 12);
            assert("sources:read"@[4] == 'c');
            assert("sources:read"@[8] == 'r');
        },
        Permission::SourcesWrite => {
            reveal_strlit("sources:write");
            assert("sources:write"@.len() == 13);
            assert("sources:write"@[4] == 'c');
            assert("sources:write"@[8] == 'w');
        },
        Permission::SourcesDelete => {
            reveal_strlit("sources:delete");
            assert("sources:delete"@.len() == 14);
            assert("sources:delete"@[4] == 'c');
            assert("sources:delete"@[8] == 'd');
        },
        Permission::ChunksRead => {
            reveal_strlit("chunks:read");
            assert("chunks:read"@.len() == 11);
            assert("chunks:read"@[4] == 'k');
            assert("chunks:read"@[8] == 'e');
        },
        Permission::ChunksWrite => {
            reveal_strlit("chunks:write");
            assert("chunks:write"@.len() == 12);
            assert("chunks:write"@[4] == 'k');
            assert("chunks:write"@[8] == 'r');
        },
        Permission::ChunksDelete => {
            reveal_strlit("chunks:delete");
            assert("chunks:delete"@.len() == 13);
            assert("chunks:delete"@[4] == 'k');
            assert("chunks:delete"@[8] == 'e');
        },
        Permission::QueriesRun => {
            reveal_strlit("queries:run");
            assert("queries:run"@.len() == 11);
            assert("queries:run"@[4] == 'i');
            assert("queries:run"@[8] == 'r');
        },
        Permission::QueriesRead => {
            reveal_strlit("queries:read");
            assert("queries:read"@.len() == 12);
            assert("queries:read"@[4] == 'i');
            assert("queries:read"@[8] == 'r');
        },
        Permission::QueriesDelete => {
            reveal_strlit("queries:delete");
            assert("queries:delete"@.len() == 14);
            assert("queries:delete"@[4] == 'i');
            assert("queries:delete"@[8] == 'd');
        },
        Permission::PlaygroundRun => {
            reveal_strlit("playground:run");
            assert("playground:run"@.len() == 14);
            assert("playground:run"@[4] == 'g');
            assert("playground:run"@[8] == 'n');
        },
        Permission::PlaygroundRead => {
            reveal_strlit("playground:read");
            assert("playground:read"@.len() == 15);
            assert("playground:read"@[4] == 'g');
            assert("playground:read"@[8] == 'n');
        },
        Permission::DbRead => {
            reveal_strlit("db:read");
            assert("db:read"@.len() == 7);
            assert("db:read"@[4] == 'e');
        },
        Permission::SettingsRead => {
            reveal_strlit("settings:read");
            assert("settings:read"@.len() == 13);
            assert("settings:read"@[4] == 'i');
            assert("settings:read"@[8] == ':');
        },
        Permission::SettingsWrite => {
            reveal_strlit("settings:write");
            assert("settings:write"@.len() == 14);
            assert("settings:write"@[4] == 'i');
            assert("settings:write"@[8] == ':');
        },
        Permission::LlmModelsRead => {
            reveal_strlit("llm_models:read");
            assert("llm_models:read"@.len() == 15);
            assert("llm_models:read"@[4] == 'm');
            assert("llm_models:read"@[8] == 'l');
        },
        Permission::LlmModelsWrite => {
            reveal_strlit("llm_models:write");
            assert("llm_models:write"@.len() == 16);
            assert("llm_models:write"@[4] == 'm');
            assert("llm_models:write"@[8] == 'l');
        },
        Permission::LlmModelsDelete => {
            reveal_strlit("llm_models:delete");
            assert("llm_models:delete"@.len() == 17);
            assert("llm_models:delete"@[4] == 'm');
            assert("llm_models:delete"@[8] == 'l');
        },
        Permission::LlmCredentialsRead => {
            reveal_strlit("llm_credentials:read");
            assert("llm_credentials:read"@.len() == 20);
            assert("llm_credentials:read"@[4] == 'c');
            assert("llm_credentials:read"@[8] == 'e');
        },
        Permission::LlmCredentialsWrite => {
            reveal_strlit("llm_credentials:write");
            assert("llm_credentials:write"@.len() == 21);
            assert("llm_credentials:write"@[4] == 'c');
            assert("llm_credentials:write"@[8] == 'e');
        },
        Permission::LlmCredentialsDelete => {
            reveal_strlit("llm_credentials:delete");
            assert("llm_credentials:delete"@.len() == 22);
            assert("llm_credentials:delete"@[4] == 'c');
            assert("llm_credentials:delete"@[8] == 'e');
        },
        Permission::AnalyticsRead => {
            reveal_strlit("analytics:read");
            assert("analytics:read"@.len() == 14);
            assert("analytics:read"@[4] == 'y');
            assert("analytics:read"@[8] == 's');
        },
        Permission::ReleasesRead => {
            reveal_strlit("releases:read");
            assert("releases:read"@.len() == 13);
            assert("releases:read"@[4] == 'a');
            assert("releases:read"@[8] == ':');
        },
        Permission::ReleasesWrite => {
            reveal_strlit("releases:write");
            assert("releases:write"@.len() == 14);
            assert("releases:write"@[4] == 'a');
            assert("releases:write"@[8] == ':');
        },
        Permission::ReleasesDelete => {
            reveal_strlit("releases:delete");
            assert("releases:delete"@.len() == 15);
            assert("releases:delete"@[4] == 'a');
            assert("releases:delete"@[8] == ':');
        },
        Permission::StagesRead => {
            reveal_strlit("stages:read");
            assert("stages:read"@.len() == 11);
            assert("stages:read"@[4] == 'e');
            assert("stages:read"@[8] == 'e');
        },
        Permission::StagesWrite => {
            reveal_strlit("stages:write");
            assert("stages:write"@.len() == 12);
            assert("stages:write"@[4] == 'e');
            assert("stages:write"@[8] == 'r');
        },
        Permission::StagesDelete => {
            reveal_strlit("stages:delete");
            assert("stages:delete"@.len() == 13);
            assert("stages:delete"@[4] == 'e');
            assert("stages:delete"@[8] == 'e');
        },
        Permission::ModelsRead => {
            reveal_strlit("models:read");
            assert("models:read"@.len() == 11);
            assert("models:read"@[4] == 'l');
            assert("models:read"@[8] == 'e');
        },
        Permission::ModelsDownload => {
            reveal_strlit("models:download");
            assert("models:download"@.len() == 15);
            assert("models:download"@[4] == 'l');
            assert("models:download"@[8] == 'o');
        },
        Permission::ModelsDelete => {
            reveal_strlit("models:delete");
            assert("models:delete"@.len() == 13);
            assert("models:delete"@[4] == 'l');
            assert("models:delete"@[8] == 'e');
        },
        Permission::BackupsRead => {
            reveal_strlit("backups:read");
            assert("backups:read"@.len() == 12);
            assert("backups:read"@[4] == 'u');
            assert("backups:read"@[8] == 'r');
        },
        Permission::BackupsCreate => {
            reveal_strlit("backups:create");
            assert("backups:create"@.len() == 14);
            assert("backups:create"@[4] == 'u');
            assert("backups:create"@[8] == 'c');
        },
        Permission::BackupsUpload => {
            reveal_strlit("backups:upload");
            assert("backups:upload"@.len() == 14);
            assert("backups:upload"@[4] == 'u');
            assert("backups:upload"@[8] == 'u');
        },
        Permission::BackupsDownload => {
            reveal_strlit("backups:download");
            assert("backups:download"@.len() == 16);
            assert("backups:download"@[4] == 'u');
            assert("backups:download"@[8] == 'd');
        },
        Permission::BackupsRestore => {
            reveal_strlit("backups:restore");
            assert("backups:restore"@.len() == 15);
            assert("backups:restore"@[4] == 'u');
            assert("backups:restore"@[8] == 'r');
        },
        Permission::BackupsDelete => {
            reveal_strlit("backups:delete");
            assert("backups:delete"@.len() == 14);
            assert("backups:delete"@[4] == 'u');
            assert("backups:delete"@[8] == 'd');
        },
        Permission::UsersRead => {
            reveal_strlit("users:read");
            assert("users:read"@.len() == 10);
            assert("users:read"@[4] == 's');
            assert("users:read"@[8] == 'a');
        },
        Permission::UsersWrite => {
            reveal_strlit("users:write");
            assert("users:write"@.len() == 11);
            assert("users:write"@[4] == 's');
            assert("users:write"@[8] == 'i');
        },
        Permission::UsersDelete => {
            reveal_strlit("users:delete");
            assert("users:delete"@.len() == 12);
            assert("users:delete"@[4] == 's');
            assert("users:delete"@[8] == 'l');
        },
        Permission::ApiKeysRead => {
            reveal_strlit("api_keys:read");
            assert("api_keys:read"@.len() == 13);
            assert("api_keys:read"@[4] == 'k');
            assert("api_keys:read"@[8] == ':');
        },
        Permission::ApiKeysWrite => {
            reveal_strlit("api_keys:write");
            assert("api_keys:write"@.len() == 14);
            assert("api_keys:write"@[4] == 'k');
            assert("api_keys:write"@[8] == ':');
        },
        Permission::ApiKeysDelete => {
            reveal_strlit("api_keys:delete");
            assert("api_keys:delete"@.len() == 15);
            assert("api_keys:delete"@[4] == 'k');
            assert("api_keys:delete"@[8] == ':');
        },
        Permission::WebhooksRead => {
            reveal_strlit("webhooks:read");
            assert("webhooks:read"@.len() == 13);
            assert("webhooks:read"@[4] == 'o');
            assert("webhooks:read"@[8] == ':');
        },
        Permission::WebhooksWrite => {
            reveal_strlit("webhooks:write");
            assert("webhooks:write"@.len() == 14);
            assert("webhooks:write"@[4] == 'o');
            assert("webhooks:write"@[8] == ':');
        },
        Permission::WebhooksDelete => {
            reveal_strlit("webhooks:delete");
            assert("webhooks:delete"@.len() == 15);
            assert("webhooks:delete"@[4] == 'o');
            assert("webhooks:delete"@[8] == ':');
        },
    }
}

/// Distinct permissions have distinct names.
pub proof fn lemma_perm_name_injective(p: Permission, q: Permission)
    ensures
        perm_name(p) == perm_name(q) ==> p == q,
{
    lemma_perm_of_name(p);
    lemma_perm_of_name(q);
}

/// `perm_index` and `perm_at` are inverse bijections between the permissions
/// and `0..PERMISSION_COUNT`.
pub proof fn lemma_perm_index(p: Permission)
    ensures
        0 <= perm_index(p) < 45,
        perm_at(perm_index(p)) == p,
{
}

pub proof fn lemma_perm_at(i: int)
    requires
        0 <= i < 45,
    ensures
        perm_index(perm_at(i)) == i,
{
}

/// The catalog order of the names, sorted by name: position `k` holds the
/// index of the `k`-th smallest name.
pub open spec fn sorted_perm_index(k: int) -> int {
    if k == 0 {
        20
    } else if k == 1 {
        41
    } else if k == 2 {
        39
    } else if k == 3 {
        40
    } else if k == 4 {
        31
    } else if k == 5 {
        35
    } else if k == 6 {
        33
    } else if k == 7 {
        30
    } else if k == 8 {
        34
    } else if k == 9 {
        32
    } else if k == 10 {
        5
    } else if k == 11 {
        3
    } else if k == 12 {
        4
    } else if k == 13 {
        11
    } else if k == 14 {
        19
    } else if k == 15 {
        17
    } else if k == 16 {
        18
    } else if k == 17 {
        16
    } else if k == 18 {
        14
    } else if k == 19 {
        15
    } else if k == 20 {
        29
    } else if k == 21 {
        28
    } else if k == 22 {
        27
    } else if k == 23 {
        10
    } else if k == 24 {
        9
    } else if k == 25 {
        8
    } else if k == 26 {
        7
    } else if k == 27 {
        6
    } else if k == 28 {
        23
    } else if k == 29 {
        21
    } else if k == 30 {
        22
    } else if k == 31 {
        12
    } else if k == 32 {
        13
    } else if k == 33 {
        2
    } else if k == 34 {
        0
    } else if k == 35 {
        1
    } else if k == 36 {
        26
    } else if k == 37 {
        24
    } else if k == 38 {
        25
    } else if k == 39 {
        38
    } else if k == 40 {
        36
    } else if k == 41 {
        37
    } else if k == 42 {
        44
    } else if k == 43 {
        42
    } else {
        43
    }
}

impl Permission {
    pub fn as_str(self) -> (r: &'static str)
        ensures
            r@ == perm_name(self),
    {
        match self {
            Permission::SourcesRead => "sources:read",
            Permission::SourcesWrite => "sources:write",
            Permission::SourcesDelete => "sources:delete",
            Permission::ChunksRead => "chunks:read",
            Permission::ChunksWrite => "chunks:write",
            Permission::ChunksDelete => "chunks:delete",
            Permission::QueriesRun => "queries:run",
            Permission::QueriesRead => "queries:read",
            Permission::QueriesDelete => "queries:delete",
            Permission::PlaygroundRun => "playground:run",
            Permission::PlaygroundRead => "playground:read",
            Permission::DbRead => "db:read",
            Permission::SettingsRead => "settings:read",
            Permission::SettingsWrite => "settings:write",
            Permission::LlmModelsRead => "llm_models:read",
            Permission::LlmModelsWrite => "llm_models:write",
            Permission::LlmModelsDelete => "llm_models:delete",
            Permission::LlmCredentialsRead => "llm_credentials:read",
            Permission::LlmCredentialsWrite => "llm_credentials:write",
            Permission::LlmCredentialsDelete => "llm_credentials:delete",
            Permission::AnalyticsRead => "analytics:read",
            Permission::ReleasesRead => "releases:read",
            Permission::ReleasesWrite => "releases:write",
            Permission::ReleasesDelete => "releases:delete",
            Permission::StagesRead => "stages:read",
            Permission::StagesWrite => "stages:write",
            Permission::StagesDelete => "stages:delete",
            Permission::ModelsRead => "models:read",
            Permission::ModelsDownload => "models:download",
            Permission::ModelsDelete => "models:delete",
            Permission::BackupsRead => "backups:read",
            Permission::BackupsCreate => "backups:create",
            Permission::BackupsUpload => "backups:upload",
            Permission::BackupsDownload => "backups:download",
            Permission::BackupsRestore => "backups:restore",
            Permission::BackupsDelete => "backups:delete",
            Permission::UsersRead => "users:read",
            Permission::UsersWrite => "users:write",
            Permission::UsersDelete => "users:delete",
            Permission::ApiKeysRead => "api_keys:read",
            Permission::ApiKeysWrite => "api_keys:write",
            Permission::ApiKeysDelete => "api_keys:delete",
            Permission::WebhooksRead => "webhooks:read",
            Permission::WebhooksWrite => "webhooks:write",
            Permission::WebhooksDelete => "webhooks:delete",
        }
    }

    /// The position of the permission in the catalog.
    pub fn index(self) -> (r: usize)
        ensures
            r == perm_index(self),
    {
        match self {
            Permission::SourcesRead => 0,
            Permission::SourcesWrite => 1,
            Permission::SourcesDelete => 2,
            Permission::ChunksRead => 3,
            Permission::ChunksWrite => 4,
            Permission::ChunksDelete => 5,
            Permission::QueriesRun => 6,
            Permission::QueriesRead => 7,
            Permission::QueriesDelete => 8,
            Permission::PlaygroundRun => 9,
            Permission::PlaygroundRead => 10,
            Permission::DbRead => 11,
            Permission::SettingsRead => 12,
            Permission::SettingsWrite => 13,
            Permission::LlmModelsRead => 14,
            Permission::LlmModelsWrite => 15,
            Permission::LlmModelsDelete => 16,
            Permission::LlmCredentialsRead => 17,
            Permission::LlmCredentialsWrite => 18,
            Permission::LlmCredentialsDelete => 19,
            Permission::AnalyticsRead => 20,
            Permission::ReleasesRead => 21,
            Permission::ReleasesWrite => 22,
            Permission::ReleasesDelete => 23,
            Permission::StagesRead => 24,
            Permission::StagesWrite => 25,
            Permission::StagesDelete => 26,
            Permission::ModelsRead => 27,
            Permission::ModelsDownload => 28,
            Permission::ModelsDelete => 29,
            Permission::BackupsRead => 30,
            Permission::BackupsCreate => 31,
            Permission::BackupsUpload => 32,
            Permission::BackupsDownload => 33,
            Permission::BackupsRestore => 34,
            Permission::BackupsDelete => 35,
            Permission::UsersRead => 36,
            Permission::UsersWrite => 37,
            Permission::UsersDelete => 38,
            Permission::ApiKeysRead => 39,
            Permission::ApiKeysWrite => 40,
            Permission::ApiKeysDelete => 41,
            Permission::WebhooksRead => 42,
            Permission::WebhooksWrite => 43,
            Permission::WebhooksDelete => 44,
        }
    }

    /// Every permission, in catalog order.
    pub fn all() -> (v: Vec<Permission>)
        ensures
            v@.len() == PERMISSION_COUNT,
            forall|i: int| 0 <= i < 45 ==> #[trigger] v@[i] == perm_at(i),
    {
        let mut v: Vec<Permission> = Vec::new();
        v.push(Permission::SourcesRead);
        v.push(Permission::SourcesWrite);
        v.push(Permission::SourcesDelete);
        v.push(Permission::ChunksRead);
        v.push(Permission::ChunksWrite);
        v.push(Permission::ChunksDelete);
        v.push(Permission::QueriesRun);
        v.push(Permission::QueriesRead);
        v.push(Permission::QueriesDelete);
        v.push(Permission::PlaygroundRun);
        v.push(Permission::PlaygroundRead);
        v.push(Permission::DbRead);
        v.push(Permission::SettingsRead);
        v.push(Permission::SettingsWrite);
        v.push(Permission::LlmModelsRead);
        v.push(Permission::LlmModelsWrite);
        v.push(Permission::LlmModelsDelete);
        v.push(Permission::LlmCredentialsRead);
        v.push(Permission::LlmCredentialsWrite);
        v.push(Permission::LlmCredentialsDelete);
        v.push(Permission::AnalyticsRead);
        v.push(Permission::ReleasesRead);
        v.push(Permission::ReleasesWrite);
        v.push(Permission::ReleasesDelete);
        v.push(Permission::StagesRead);
        v.push(Permission::StagesWrite);
        v.push(Permission::StagesDelete);
        v.push(Permission::ModelsRead);
        v.push(Permission::ModelsDownload);
        v.push(Permission::ModelsDelete);
        v.push(Permission::BackupsRead);
        v.push(Permission::BackupsCreate);
        v.push(Permission::BackupsUpload);
        v.push(Permission::BackupsDownload);
        v.push(Permission::BackupsRestore);
        v.push(Permission::BackupsDelete);
        v.push(Permission::UsersRead);
        v.push(Permission::UsersWrite);
        v.push(Permission::UsersDelete);
        v.push(Permission::ApiKeysRead);
        v.push(Permission::ApiKeysWrite);
        v.push(Permission::ApiKeysDelete);
        v.push(Permission::WebhooksRead);
        v.push(Permission::WebhooksWrite);
        v.push(Permission::WebhooksDelete);
        v
    }
}

/// A name that some permission carries.
pub open spec fn is_permission_name(s: Seq<char>) -> bool {
    exists|p: Permission| perm_name(p) == s
}

/// Reads the permission whose name is `s`: a permission's own name reads
/// back as that permission.
pub fn permission_from_name(s: &str) -> (r: Option<Permission>)
    ensures
        match r {
            Some(p) => perm_name(p) == s@,
            None => !is_permission_name(s@),
        },
        forall|p: Permission| #[trigger] perm_name(p) == s@ ==> r == Some(p),
{
    let all = Permission::all();
    let target = chars_of(s);
    for i in 0..all.len()
        invariant
            all@.len() == 45,
            target@ == s@,
            forall|k: int| 0 <= k < 45 ==> #[trigger] all@[k] == perm_at(k),
            forall|k: int| 0 <= k < i ==> perm_name(#[trigger] perm_at(k)) != s@,
    {
        let p = all[i];
        let name = chars_of(p.as_str());
        if chars_eq(&name, &target) {
            proof {
                assert forall|q: Permission| #[trigger] perm_name(q) == s@ implies Some(p) == Some(q) by {
                    lemma_perm_name_injective(p, q);
                }
            }
            return Some(p);
        }
    }
    proof {
        assert forall|p: Permission| perm_name(p) != s@ by {
            lemma_perm_index(p);
            let k = perm_index(p);
            assert(perm_name(perm_at(k)) != s@);
        }
    }
    None
}

impl core::str::FromStr for Permission {
    type Err = ();

    fn from_str(s: &str) -> (r: Result<Self, Self::Err>)
        ensures
            match r {
                Ok(p) => perm_name(p) == s@,
                Err(_) => !is_permission_name(s@),
            },
            forall|p: Permission| #[trigger] perm_name(p) == s@ ==> r == Ok::<Permission, ()>(p),
    {
        match permission_from_name(s) {
            Some(p) => Ok(p),
            None => Err(()),
        }
    }
}

/// The permissions granted at catalog positions `0..i` of `flags`.
pub open spec fn granted_upto(flags: Seq<bool>, i: int) -> Set<Permission> {
    Set::new(|p: Permission| perm_index(p) < i && flags[perm_index(p)])
}

/// How many of the first `i` flags are set.
pub open spec fn count_granted(flags: Seq<bool>, i: int) -> nat
    decreases i,
{
    if i <= 0 {
        0
    } else {
        count_granted(flags, i - 1) + if flags[i - 1] { 1nat } else { 0nat }
    }
}

proof fn lemma_granted_upto(flags: Seq<bool>, i: int)
    requires
        0 <= i <= 45,
    ensures
        granted_upto(flags, i).finite(),
        granted_upto(flags, i).len() == count_granted(flags, i),
    decreases i,
{
    if i == 0 {
        assert(granted_upto(flags, 0) =~= Set::<Permission>::empty());
    } else {
        lemma_granted_upto(flags, i - 1);
        let q = perm_at(i - 1);
        lemma_perm_at(i - 1);
        if flags[i - 1] {
            assert forall|p: Permission| #[trigger] granted_upto(flags, i).contains(p) <==> granted_upto(flags, i - 1).insert(q).contains(p) by {
                lemma_perm_index(p);
            }
            assert(granted_upto(flags, i) =~= granted_upto(flags, i - 1).insert(q));
        } else {
            assert forall|p: Permission| #[trigger] granted_upto(flags, i).contains(p) <==> granted_upto(flags, i - 1).contains(p) by {
                lemma_perm_index(p);
            }
            assert(granted_upto(flags, i) =~= granted_upto(flags, i - 1));
        }
    }
}

/// A set of permissions.
#[derive(Debug)]
pub struct PermissionSet {
    granted: Vec<bool>,
}

impl View for PermissionSet {
    type V = Set<Permission>;

    closed spec fn view(&self) -> Set<Permission> {
        Set::new(|p: Permission| self.granted@[perm_index(p)])
    }
}

impl PermissionSet {
    #[verifier::type_invariant]
    spec fn well_formed(self) -> bool {
        self.granted@.len() == 45
    }

    /// Every set of permissions is finite.
    pub proof fn lemma_finite(&self)
        ensures
            self@.finite(),
            self@.len() <= 45,
    {
        lemma_granted_upto(self.granted@, 45);
        assert forall|p: Permission| #[trigger] self@.contains(p) <==> granted_upto(self.granted@, 45).contains(p) by {
            lemma_perm_index(p);
        }
        assert(self@ =~= granted_upto(self.granted@, 45));
        lemma_count_granted_bound(self.granted@, 45);
    }

    pub fn new() -> (r: Self)
        ensures
            r@ == Set::<Permission>::empty(),
    {
        let mut granted: Vec<bool> = Vec::new();
        for _i in 0..45usize
            invariant
                forall|k: int| 0 <= k < granted@.len() ==> !#[trigger] granted@[k],
                granted@.len() == _i,
        {
            granted.push(false);
        }
        let r = PermissionSet { granted };
        assert(r@ =~= Set::<Permission>::empty()) by {
            assert forall|p: Permission| !#[trigger] r@.contains(p) by {
                lemma_perm_index(p);
            }
        }
        r
    }

    pub fn contains(&self, p: Permission) -> (r: bool)
        ensures
            r == self@.contains(p),
    {
        proof {
            use_type_invariant(self);
            lemma_perm_index(p);
        }
        self.granted[p.index()]
    }

    pub fn insert(&mut self, p: Permission)
        ensures
            final(self)@ == old(self)@.insert(p),
    {
        proof {
            use_type_invariant(&*self);
            lemma_perm_index(p);
        }
        let ghost before = self@;
        let mut granted = self.granted.clone();
        assert(granted@ =~= self.granted@);
        granted.set(p.index(), true);
        *self = PermissionSet { granted };
        proof {
            assert forall|q: Permission| #[trigger] self@.contains(q) <==> before.insert(p).contains(q) by {
                lemma_perm_index(q);
                if q != p {
                    assert(perm_index(q) != perm_index(p)) by {
                        lemma_perm_index(p);
                    }
                }
            }
            assert(self@ =~= before.insert(p));
        }
    }

    pub fn len(&self) -> (r: usize)
        ensures
            r == self@.len(),
    {
        proof {
            use_type_invariant(self);
            self.lemma_finite();
            lemma_granted_upto(self.granted@, 45);
            assert forall|p: Permission| #[trigger] self@.contains(p) <==> granted_upto(self.granted@, 45).contains(p) by {
                lemma_perm_index(p);
            }
            assert(self@ =~= granted_upto(self.granted@, 45));
        }
        let mut n: usize = 0;
        for i in 0..45usize
            invariant
                self.granted@.len() == 45,
                n == count_granted(self.granted@, i as int),
                n <= i,
        {
            if self.granted[i] {
                n += 1;
            }
        }
        n
    }

    pub fn is_empty(&self) -> (r: bool)
        ensures
            r == (self@.len() == 0),
    {
        self.len() == 0
    }
}

proof fn lemma_count_granted_bound(flags: Seq<bool>, i: int)
    requires
        0 <= i,
    ensures
        count_granted(flags, i) <= i,
    decreases i,
{
    if i > 0 {
        lemma_count_granted_bound(flags, i - 1);
    }
}

/// The views of a list of strings.
pub open spec fn views_of(items: Seq<String>) -> Seq<Seq<char>> {
    items.map_values(|s: String| s@)
}

/// The permissions named in `names` (names that are no permission are ignored).
pub open spec fn named_permissions(names: Seq<Seq<char>>) -> Set<Permission> {
    Set::new(|p: Permission| exists|i: int| 0 <= i < names.len() && names[i] == perm_name(p))
}

/// Every entry of `names` is the name of a permission.
pub open spec fn all_permission_names(names: Seq<Seq<char>>) -> bool {
    forall|i: int| 0 <= i < names.len() ==> is_permission_name(#[trigger] names[i])
}

/// `i` is the first entry of `names` that names no permission.
pub open spec fn first_unknown_name(names: Seq<Seq<char>>, i: int) -> bool {
    &&& 0 <= i < names.len()
    &&& !is_permission_name(names[i])
    &&& forall|j: int| 0 <= j < i ==> is_permission_name(#[trigger] names[j])
}

/// The outcome of reading a requested list of permission names: the set they
/// name when all are known, and otherwise a 400 naming the first unknown one.
pub open spec fn permission_list_result(names: Seq<Seq<char>>, r: Result<PermissionSet, ApiError>) -> bool {
    match r {
        Ok(set) => all_permission_names(names) && set@ == named_permissions(names),
        Err(e) => exists|i: int|
            first_unknown_name(names, i) && is_api_error(
                e,
                400,
                "Bad Request"@,
                "unknown permission: "@ + names[i],
            ),
    }
}

fn parse_permission_list(raw: &[String]) -> (r: Result<PermissionSet, ApiError>)
    ensures
        permission_list_result(views_of(raw@), r),
{
    let ghost names = views_of(raw@);
    let mut set = PermissionSet::new();
    for i in 0..raw.len()
        invariant
            names == views_of(raw@),
            names.len() == raw@.len(),
            all_permission_names(names.subrange(0, i as int)),
            set@ == named_permissions(names.subrange(0, i as int)),
    {
        let item = &raw[i];
        match permission_from_name(item.as_str()) {
            Some(perm) => {
                let ghost before = set@;
                set.insert(perm);
                proof {
                    let prev = names.subrange(0, i as int);
                    let next = names.subrange(0, i + 1);
                    assert(next == prev.push(names[i as int]));
                    assert forall|j: int| 0 <= j < next.len() implies is_permission_name(#[trigger] next[j]) by {
                        if j == i {
                            assert(perm_name(perm) == next[j]);
                        } else {
                            assert(next[j] == prev[j]);
                        }
                    }
                    assert forall|p: Permission| #[trigger] set@.contains(p) <==> named_permissions(next).contains(p) by {
                        if named_permissions(next).contains(p) {
                            let j = choose|j: int| 0 <= j < next.len() && next[j] == perm_name(p);
                            if j < i {
                                assert(prev[j] == next[j]);
                                assert(named_permissions(prev).contains(p));
                            } else {
                                lemma_perm_name_injective(p, perm);
                            }
                        }
                        if set@.contains(p) {
                            if p == perm {
                                assert(next[i as int] == perm_name(p));
                            } else {
                                assert(before.contains(p));
                                let j = choose|j: int| 0 <= j < prev.len() && prev[j] == perm_name(p);
                                assert(next[j] == prev[j]);
                            }
                        }
                    }
                    assert(set@ =~= named_permissions(next));
                }
            },
            None => {
                let mut detail = String::new();
                push_str(&mut detail, "unknown permission: ");
                push_str(&mut detail, item.as_str());
                proof {
                    assert(names[i as int] == item@);
                    let prev = names.subrange(0, i as int);
                    assert forall|j: int| 0 <= j < i implies is_permission_name(#[trigger] names[j]) by {
                        assert(prev[j] == names[j]);
                    }
                    assert(first_unknown_name(names, i as int));
                }
                return Err(ApiError::bad_request(detail));
            },
        }
    }
    assert(names.subrange(0, raw@.len() as int) == names);
    Ok(set)
}

/// The permission every user holds (API keys do not get it implicitly).
pub const FORCED_PERMISSION: Permission = Permission::ReleasesRead;

/// Adds the permission every user holds.
pub fn with_forced_permissions(perms: PermissionSet) -> (r: PermissionSet)
    ensures
        r@ == perms@.insert(Permission::ReleasesRead),
{
    let mut perms = perms;
    perms.insert(FORCED_PERMISSION);
    perms
}

/// User permissions: `releases:read` is always granted, plus at least one more.
pub fn parse_and_validate_granted_permissions(raw: &[String]) -> (r: Result<PermissionSet, ApiError>)
    ensures
        match r {
            Ok(set) => {
                &&& all_permission_names(views_of(raw@))
                &&& set@ == named_permissions(views_of(raw@)).insert(Permission::ReleasesRead)
                &&& set@.len() > 1
            },
            Err(e) => {
                ||| (exists|i: int|
                    first_unknown_name(views_of(raw@), i) && is_api_error(
                        e,
                        400,
                        "Bad Request"@,
                        "unknown permission: "@ + views_of(raw@)[i],
                    ))
                ||| (all_permission_names(views_of(raw@)) && named_permissions(views_of(raw@)).insert(
                    Permission::ReleasesRead,
                ).len() <= 1 && is_api_error(
                    e,
                    400,
                    "Bad Request"@,
                    "at least one permission besides releases:read is required"@,
                ))
            },
        },
{
    let set = match parse_permission_list(raw) {
        Ok(set) => set,
        Err(e) => return Err(e),
    };
    let set = with_forced_permissions(set);
    if set.len() <= 1 {
        return Err(ApiError::bad_request(String::from_str("at least one permission besides releases:read is required")));
    }
    Ok(set)
}

/// API key permissions: nothing is forced, but at least one is required.
pub fn parse_and_validate_api_key_permissions(raw: &[String]) -> (r: Result<PermissionSet, ApiError>)
    ensures
        match r {
            Ok(set) => {
                &&& all_permission_names(views_of(raw@))
                &&& set@ == named_permissions(views_of(raw@))
                &&& set@.len() > 0
            },
            Err(e) => {
                ||| (exists|i: int|
                    first_unknown_name(views_of(raw@), i) && is_api_error(
                        e,
                        400,
                        "Bad Request"@,
                        "unknown permission: "@ + views_of(raw@)[i],
                    ))
                ||| (all_permission_names(views_of(raw@)) && named_permissions(views_of(raw@)).len()
                    == 0 && is_api_error(
                    e,
                    400,
                    "Bad Request"@,
                    "at least one permission is required"@,
                ))
            },
        },
{
    let set = match parse_permission_list(raw) {
        Ok(set) => set,
        Err(e) => return Err(e),
    };
    if set.is_empty() {
        return Err(ApiError::bad_request(String::from_str("at least one permission is required")));
    }
    Ok(set)
}

/// `auth` may use `permission`: superadmins may use every permission, others
/// those granted to them.
pub open spec fn may_use(auth: AuthContext, permission: Permission) -> bool {
    crate::auth::middleware::principal_is_superadmin(auth.principal) || auth.permissions@.contains(permission)
}

/// Succeeds when the caller may use `permission`; a 403 naming it otherwise.
pub fn authorize(auth: &AuthContext, permission: Permission) -> (r: Result<(), ApiError>)
    ensures
        r is Ok <==> may_use(*auth, permission),
        r matches Err(e) ==> is_api_error(e, 403, "Forbidden"@, "permission required: "@ + perm_name(permission)),
{
    if auth.is_superadmin() {
        return Ok(());
    }
    if auth.permissions.contains(permission) {
        Ok(())
    } else {
        let mut detail = String::new();
        push_str(&mut detail, "permission required: ");
        push_str(&mut detail, permission.as_str());
        Err(ApiError::forbidden(detail))
    }
}

/// Succeeds when the caller may use at least one of `permissions`.
pub fn authorize_any(auth: &AuthContext, permissions: &[Permission]) -> (r: Result<(), ApiError>)
    ensures
        r is Ok <==> (crate::auth::middleware::principal_is_superadmin(auth.principal) || exists|i: int|
            0 <= i < permissions@.len() && auth.permissions@.contains(#[trigger] permissions@[i])),
        r matches Err(e) ==> is_api_error(e, 403, "Forbidden"@, "insufficient permissions"@),
{
    if auth.is_superadmin() {
        return Ok(());
    }
    for i in 0..permissions.len()
        invariant
            forall|j: int| 0 <= j < i ==> !auth.permissions@.contains(#[trigger] permissions@[j]),
    {
        if auth.permissions.contains(permissions[i]) {
            return Ok(());
        }
    }
    Err(ApiError::forbidden(String::from_str("insufficient permissions")))
}

/// The permissions named by the string elements of a stored JSON array;
/// empty when the text is no JSON array.
pub open spec fn stored_permissions(text: Seq<char>) -> Set<Permission> {
    match json_array_items(text) {
        Some(items) => Set::new(|p: Permission| exists|i: int| 0 <= i < items.len() && items[i] == Some(perm_name(p))),
        None => Set::empty(),
    }
}

/// Parses a stored JSON permission array. No permission is forced here;
/// elements that are no known permission name are skipped.
pub fn parse_permissions(raw: &str) -> (r: PermissionSet)
    ensures
        r@ == stored_permissions(raw@),
{
    let mut set = PermissionSet::new();
    let items = match read_json_array_items(raw) {
        Some(items) => items,
        None => {
            assert(set@ =~= stored_permissions(raw@));
            return set;
        },
    };
    let ghost views = crate::json::optional_views(items@);
    for i in 0..items.len()
        invariant
            views == crate::json::optional_views(items@),
            views.len() == items@.len(),
            json_array_items(raw@) == Some(views),
            set@ == Set::new(|p: Permission| exists|j: int| 0 <= j < i && views[j] == Some(perm_name(p))),
    {
        let ghost before = set@;
        match &items[i] {
            Some(s) => {
                match permission_from_name(s.as_str()) {
                    Some(perm) => {
                        set.insert(perm);
                        proof {
                            assert(views[i as int] == Some(perm_name(perm)));
                            assert forall|p: Permission| #[trigger] set@.contains(p) <==> (exists|j: int| 0 <= j < i + 1 && views[j] == Some(perm_name(p))) by {
                                if exists|j: int| 0 <= j < i + 1 && views[j] == Some(perm_name(p)) {
                                    let j = choose|j: int| 0 <= j < i + 1 && views[j] == Some(perm_name(p));
                                    if j == i {
                                        lemma_perm_name_injective(p, perm);
                                    }
                                }
                            }
                        }
                    },
                    None => {
                        proof {
                            assert forall|p: Permission| #[trigger] set@.contains(p) <==> (exists|j: int| 0 <= j < i + 1 && views[j] == Some(perm_name(p))) by {
                                if exists|j: int| 0 <= j < i + 1 && views[j] == Some(perm_name(p)) {
                                    let j = choose|j: int| 0 <= j < i + 1 && views[j] == Some(perm_name(p));
                                    if j == i {
                                        assert(views[j] == Some(s@));
                                    }
                                }
                            }
                        }
                    },
                }
            },
            None => {
                proof {
                    assert forall|p: Permission| #[trigger] set@.contains(p) <==> (exists|j: int| 0 <= j < i + 1 && views[j] == Some(perm_name(p))) by {
                        if exists|j: int| 0 <= j < i + 1 && views[j] == Some(perm_name(p)) {
                            let j = choose|j: int| 0 <= j < i + 1 && views[j] == Some(perm_name(p));
                            if j == i {
                                assert(views[j] is None);
                            }
                        }
                    }
                }
            },
        }
        assert(set@ =~= Set::new(|p: Permission| exists|j: int| 0 <= j < i + 1 && views[j] == Some(perm_name(p))));
    }
    assert(set@ =~= stored_permissions(raw@));
    set
}

/// Like `parse_permissions`, but always includes the permission every user holds.
pub fn parse_permissions_with_forced(raw: &str) -> (r: PermissionSet)
    ensures
        r@ == stored_permissions(raw@).insert(Permission::ReleasesRead),
{
    with_forced_permissions(parse_permissions(raw))
}

/// The permission at position `k` of the catalog sorted by name.
pub open spec fn perm_by_name_rank(k: int) -> Permission {
    perm_at(sorted_perm_index(k))
}

/// The names of the members of `set` among the first `k` permissions in
/// name order.
pub open spec fn sorted_member_names(set: Set<Permission>, k: int) -> Seq<Seq<char>>
    decreases k,
{
    if k <= 0 {
        Seq::empty()
    } else {
        let rest = sorted_member_names(set, k - 1);
        if set.contains(perm_by_name_rank(k - 1)) {
            rest.push(perm_name(perm_by_name_rank(k - 1)))
        } else {
            rest
        }
    }
}

fn sorted_index(k: usize) -> (r: usize)
    requires
        k < 45,
    ensures
        r == sorted_perm_index(k as int),
        r < 45,
{
    if k == 0 {
        20
    } else if k == 1 {
        41
    } else if k == 2 {
        39
    } else if k == 3 {
        40
    } else if k == 4 {
        31
    } else if k == 5 {
        35
    } else if k == 6 {
        33
    } else if k == 7 {
        30
    } else if k == 8 {
        34
    } else if k == 9 {
        32
    } else if k == 10 {
        5
    } else if k == 11 {
        3
    } else if k == 12 {
        4
    } else if k == 13 {
        11
    } else if k == 14 {
        19
    } else if k == 15 {
        17
    } else if k == 16 {
        18
    } else if k == 17 {
        16
    } else if k == 18 {
        14
    } else if k == 19 {
        15
    } else if k == 20 {
        29
    } else if k == 21 {
        28
    } else if k == 22 {
        27
    } else if k == 23 {
        10
    } else if k == 24 {
        9
    } else if k == 25 {
        8
    } else if k == 26 {
        7
    } else if k == 27 {
        6
    } else if k == 28 {
        23
    } else if k == 29 {
        21
    } else if k == 30 {
        22
    } else if k == 31 {
        12
    } else if k == 32 {
        13
    } else if k == 33 {
        2
    } else if k == 34 {
        0
    } else if k == 35 {
        1
    } else if k == 36 {
        26
    } else if k == 37 {
        24
    } else if k == 38 {
        25
    } else if k == 39 {
        38
    } else if k == 40 {
        36
    } else if k == 41 {
        37
    } else if k == 42 {
        44
    } else if k == 43 {
        42
    } else {
        43
    }
}

/// The names of the permissions in `perms`, in increasing name order:
/// each member's name once, and nothing else.
pub fn permission_set_to_vec(perms: &PermissionSet) -> (r: Vec<String>)
    ensures
        string_views(r@) == sorted_member_names(perms@, 45),
        r.len() == perms@.len(),
        forall|i: int, j: int| 0 <= i < j < r.len() ==> text_lt(#[trigger] r@[i]@, #[trigger] r@[j]@),
        forall|p: Permission| perms@.contains(p) <==> string_views(r@).contains(#[trigger] perm_name(p)),
{
    proof {
        perms.lemma_finite();
        crate::auth::permission_order::lemma_permission_list_sorted(perms@);
        crate::auth::permission_order::lemma_permission_list_len(perms@);
    }
    let all = Permission::all();
    let mut items: Vec<String> = Vec::new();
    for k in 0..45usize
        invariant
            all@.len() == 45,
            forall|i: int| 0 <= i < 45 ==> #[trigger] all@[i] == perm_at(i),
            string_views(items@) == sorted_member_names(perms@, k as int),
    {
        let p = all[sorted_index(k)];
        if perms.contains(p) {
            let name = String::from_str(p.as_str());
            let ghost before = items@;
            items.push(name);
            assert(string_views(items@) =~= string_views(before).push(name@));
        }
    }
    assert forall|i: int, j: int| 0 <= i < j < items.len() implies text_lt(#[trigger] items@[i]@, #[trigger] items@[j]@) by {
        assert(string_views(items@)[i] == items@[i]@ && string_views(items@)[j] == items@[j]@);
    }
    items
}

/// The stored form of `perms`: a JSON array of their names in increasing
/// order. Reading it back gives the same permissions.
pub fn permissions_to_json(perms: &PermissionSet) -> (r: String)
    ensures
        json_string_list(sorted_member_names(perms@, 45)) == Some(r@),
        stored_permissions(r@) == perms@,
{
    let items = permission_set_to_vec(perms);
    match write_json_string_list(&items) {
        Some(text) => {
            proof {
                lemma_stored_list_reads_back(perms@, text@);
            }
            text
        },
        None => String::from_str("[]"),
    }
}

proof fn lemma_stored_list_reads_back(set: Set<Permission>, text: Seq<char>)
    requires
        json_array_items(text) == Some(as_string_items(sorted_member_names(set, 45))),
    ensures
        stored_permissions(text) == set,
{
    crate::auth::permission_order::lemma_permission_list_sorted(set);
    let names = sorted_member_names(set, 45);
    let items = as_string_items(names);
    assert forall|p: Permission| stored_permissions(text).contains(p) <==> set.contains(p) by {
        if set.contains(p) {
            assert(names.contains(perm_name(p)));
            let i = choose|i: int| 0 <= i < names.len() && names[i] == perm_name(p);
            assert(items[i] == Some(perm_name(p)));
        }
        if stored_permissions(text).contains(p) {
            let i = choose|i: int| 0 <= i < items.len() && items[i] == Some(perm_name(p));
            assert(names[i] == perm_name(p));
            assert(names.contains(perm_name(p)));
        }
    }
    assert(stored_permissions(text) =~= set);
}

} // verus!
