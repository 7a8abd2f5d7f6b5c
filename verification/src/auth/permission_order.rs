//! The order in which permission names are listed: by name, each member
//! of a set once.
use vstd::prelude::*;

use crate::auth::permissions::{perm_at, perm_by_name_rank, perm_index, perm_name, sorted_member_names, sorted_perm_index, Permission};
use crate::backup::{lemma_text_lt_strict_total, text_lt};

verus! {

/// The position of a permission's name among all names, sorted.
pub open spec fn name_rank(p: Permission) -> int {
    match p {
        Permission::SourcesRead => 34,
        Permission::SourcesWrite => 35,
        Permission::SourcesDelete => 33,
        Permission::ChunksRead => 11,
        Permission::ChunksWrite => 12,
        Permission::ChunksDelete => 10,
        Permission::QueriesRun => 27,
        Permission::QueriesRead => 26,
        Permission::QueriesDelete => 25,
        Permission::PlaygroundRun => 24,
        Permission::PlaygroundRead => 23,
        Permission::DbRead => 13,
        Permission::SettingsRead => 31,
        Permission::SettingsWrite => 32,
        Permission::LlmModelsRead => 18,
        Permission::LlmModelsWrite => 19,
        Permission::LlmModelsDelete => 17,
        Permission::LlmCredentialsRead => 15,
        Permission::LlmCredentialsWrite => 16,
        Permission::LlmCredentialsDelete => 14,
        Permission::AnalyticsRead => 0,
        Permission::ReleasesRead => 29,
        Permission::ReleasesWrite => 30,
        Permission::ReleasesDelete => 28,
        Permission::StagesRead => 37,
        Permission::StagesWrite => 38,
        Permission::StagesDelete => 36,
        Permission::ModelsRead => 22,
        Permission::ModelsDownload => 21,
        Permission::ModelsDelete => 20,
        Permission::BackupsRead => 7,
        Permission::BackupsCreate => 4,
        Permission::BackupsUpload => 9,
        Permission::BackupsDownload => 6,
        Permission::BackupsRestore => 8,
        Permission::BackupsDelete => 5,
        Permission::UsersRead => 40,
        Permission::UsersWrite => 41,
        Permission::UsersDelete => 39,
        Permission::ApiKeysRead => 2,
        Permission::ApiKeysWrite => 3,
        Permission::ApiKeysDelete => 1,
        Permission::WebhooksRead => 43,
        Permission::WebhooksWrite => 44,
        Permission::WebhooksDelete => 42,
    }
}

proof fn lemma_name_rank(p: Permission)
    ensures
        0 <= name_rank(p) < 45,
        perm_by_name_rank(name_rank(p)) == p,
{
}

proof fn lemma_names_ordered_0()
    ensures
        text_lt(perm_name(perm_by_name_rank(0)), perm_name(perm_by_name_rank(1))),
{
    reveal_with_fuel(text_lt, 24);
    reveal_strlit("analytics:read");
    reveal_strlit("api_keys:delete");
}

proof fn lemma_names_ordered_1()
    ensures
        text_lt(perm_name(perm_by_name_rank(1)), perm_name(perm_by_name_rank(2))),
{
    reveal_with_fuel(text_lt, 24);
    reveal_strlit("api_keys:delete");
    reveal_strlit("api_keys:read");
}

proof fn lemma_names_ordered_2()
    ensures
        text_lt(perm_name(perm_by_name_rank(2)), perm_name(perm_by_name_rank(3))),
{
    reveal_with_fuel(text_lt, 24);
    reveal_strlit("api_keys:read");
    reveal_strlit("api_keys:write");
}

proof fn lemma_names_ordered_3()
    ensures
        text_lt(perm_name(perm_by_name_rank(3)), perm_name(perm_by_name_rank(4))),
{
    reveal_with_fuel(text_lt, 24);
    reveal_strlit("api_keys:write");
    reveal_strlit("backups:create");
}

proof fn lemma_names_ordered_4()
    ensures
        text_lt(perm_name(perm_by_name_rank(4)), perm_name(perm_by_name_rank(5))),
{
    reveal_with_fuel(text_lt, 24);
    reveal_strlit("backups:create");
    reveal_strlit("backups:delete");
}

proof fn lemma_names_ordered_5()
    ensures
        text_lt(perm_name(perm_by_name_rank(5)), perm_name(perm_by_name_rank(6))),
{
    reveal_with_fuel(text_lt, 24);
    reveal_strlit("backups:delete");
    reveal_strlit("backups:download");
}

proof fn lemma_names_ordered_6()
    ensures
        text_lt(perm_name(perm_by_name_rank(6)), perm_name(perm_by_name_rank(7))),
{
    reveal_with_fuel(text_lt, 24);
    reveal_strlit("backups:download");
    reveal_strlit("backups:read");
}

proof fn lemma_names_ordered_7()
    ensures
        text_lt(perm_name(perm_by_name_rank(7)), perm_name(perm_by_name_rank(8))),
{
    reveal_with_fuel(text_lt, 24);
    reveal_strlit("backups:read");
    reveal_strlit("backups:restore");
}

proof fn lemma_names_ordered_8()
    ensures
        text_lt(perm_name(perm_by_name_rank(8)), perm_name(perm_by_name_rank(9))),
{
    reveal_with_fuel(text_lt, 24);
    reveal_strlit("backups:restore");
    reveal_strlit("backups:upload");
}

proof fn lemma_names_ordered_9()
    ensures
        text_lt(perm_name(perm_by_name_rank(9)), perm_name(perm_by_name_rank(10))),
{
    reveal_with_fuel(text_lt, 24);
    reveal_strlit("backups:upload");
    reveal_strlit("chunks:delete");
}

proof fn lemma_names_ordered_10()
    ensures
        text_lt(perm_name(perm_by_name_rank(10)), perm_name(perm_by_name_rank(11))),
{
    reveal_with_fuel(text_lt, 24);
    reveal_strlit("chunks:delete");
    reveal_strlit("chunks:read");
}

proof fn lemma_names_ordered_11()
    ensures
        text_lt(perm_name(perm_by_name_rank(11)), perm_name(perm_by_name_rank(12))),
{
    reveal_with_fuel(text_lt, 24);
    reveal_strlit("chunks:read");
    reveal_strlit("chunks:write");
}

proof fn lemma_names_ordered_12()
    ensures
        text_lt(perm_name(perm_by_name_rank(12)), perm_name(perm_by_name_rank(13))),
{
    reveal_with_fuel(text_lt, 24);
    reveal_strlit("chunks:write");
    reveal_strlit("db:read");
}

proof fn lemma_names_ordered_13()
    ensures
        text_lt(perm_name(perm_by_name_rank(13)), perm_name(perm_by_name_rank(14))),
{
    reveal_with_fuel(text_lt, 24);
    reveal_strlit("db:read");
    reveal_strlit("llm_credentials:delete");
}

proof fn lemma_names_ordered_14()
    ensures
        text_lt(perm_name(perm_by_name_rank(14)), perm_name(perm_by_name_rank(15))),
{
    reveal_with_fuel(text_lt, 24);
    reveal_strlit("llm_credentials:delete");
    reveal_strlit("llm_credentials:read");
}

proof fn lemma_names_ordered_15()
    ensures
        text_lt(perm_name(perm_by_name_rank(15)), perm_name(perm_by_name_rank(16))),
{
    reveal_with_fuel(text_lt, 24);
    reveal_strlit("llm_credentials:read");
    reveal_strlit("llm_credentials:write");
}

proof fn lemma_names_ordered_16()
    ensures
        text_lt(perm_name(perm_by_name_rank(16)), perm_name(perm_by_name_rank(17))),
{
    reveal_with_fuel(text_lt, 24);
    reveal_strlit("llm_credentials:write");
    reveal_strlit("llm_models:delete");
}

proof fn lemma_names_ordered_17()
    ensures
        text_lt(perm_name(perm_by_name_rank(17)), perm_name(perm_by_name_rank(18))),
{
    reveal_with_fuel(text_lt, 24);
    reveal_strlit("llm_models:delete");
    reveal_strlit("llm_models:read");
}

proof fn lemma_names_ordered_18()
    ensures
        text_lt(perm_name(perm_by_name_rank(18)), perm_name(perm_by_name_rank(19))),
{
    reveal_with_fuel(text_lt, 24);
    reveal_strlit("llm_models:read");
    reveal_strlit("llm_models:write");
}

proof fn lemma_names_ordered_19()
    ensures
        text_lt(perm_name(perm_by_name_rank(19)), perm_name(perm_by_name_rank(20))),
{
    reveal_with_fuel(text_lt, 24);
    reveal_strlit("llm_models:write");
    reveal_strlit("models:delete");
}

proof fn lemma_names_ordered_20()
    ensures
        text_lt(perm_name(perm_by_name_rank(20)), perm_name(perm_by_name_rank(21))),
{
    reveal_with_fuel(text_lt, 24);
    reveal_strlit("models:delete");
    reveal_strlit("models:download");
}

proof fn lemma_names_ordered_21()
    ensures
        text_lt(perm_name(perm_by_name_rank(21)), perm_name(perm_by_name_rank(22))),
{
    reveal_with_fuel(text_lt, 24);
    reveal_strlit("models:download");
    reveal_strlit("models:read");
}

proof fn lemma_names_ordered_22()
    ensures
        text_lt(perm_name(perm_by_name_rank(22)), perm_name(perm_by_name_rank(23))),
{
    reveal_with_fuel(text_lt, 24);
    reveal_strlit("models:read");
    reveal_strlit("playground:read");
}

proof fn lemma_names_ordered_23()
    ensures
        text_lt(perm_name(perm_by_name_rank(23)), perm_name(perm_by_name_rank(24))),
{
    reveal_with_fuel(text_lt, 24);
    reveal_strlit("playground:read");
    reveal_strlit("playground:run");
}

proof fn lemma_names_ordered_24()
    ensures
        text_lt(perm_name(perm_by_name_rank(24)), perm_name(perm_by_name_rank(25))),
{
    reveal_with_fuel(text_lt, 24);
    reveal_strlit("playground:run");
    reveal_strlit("queries:delete");
}

proof fn lemma_names_ordered_25()
    ensures
        text_lt(perm_name(perm_by_name_rank(25)), perm_name(perm_by_name_rank(26))),
{
    reveal_with_fuel(text_lt, 24);
    reveal_strlit("queries:delete");
    reveal_strlit("queries:read");
}

proof fn lemma_names_ordered_26()
    ensures
        text_lt(perm_name(perm_by_name_rank(26)), perm_name(perm_by_name_rank(27))),
{
    reveal_with_fuel(text_lt, 24);
    reveal_strlit("queries:read");
    reveal_strlit("queries:run");
}

proof fn lemma_names_ordered_27()
    ensures
        text_lt(perm_name(perm_by_name_rank(27)), perm_name(perm_by_name_rank(28))),
{
    reveal_with_fuel(text_lt, 24);
    reveal_strlit("queries:run");
    reveal_strlit("releases:delete");
}

proof fn lemma_names_ordered_28()
    ensures
        text_lt(perm_name(perm_by_name_rank(28)), perm_name(perm_by_name_rank(29))),
{
    reveal_with_fuel(text_lt, 24);
    reveal_strlit("releases:delete");
    reveal_strlit("releases:read");
}

proof fn lemma_names_ordered_29()
    ensures
        text_lt(perm_name(perm_by_name_rank(29)), perm_name(perm_by_name_rank(30))),
{
    reveal_with_fuel(text_lt, 24);
    reveal_strlit("releases:read");
    reveal_strlit("releases:write");
}

proof fn lemma_names_ordered_30()
    ensures
        text_lt(perm_name(perm_by_name_rank(30)), perm_name(perm_by_name_rank(31))),
{
    reveal_with_fuel(text_lt, 24);
    reveal_strlit("releases:write");
    reveal_strlit("settings:read");
}

proof fn lemma_names_ordered_31()
    ensures
        text_lt(perm_name(perm_by_name_rank(31)), perm_name(perm_by_name_rank(32))),
{
    reveal_with_fuel(text_lt, 24);
    reveal_strlit("settings:read");
    reveal_strlit("settings:write");
}

proof fn lemma_names_ordered_32()
    ensures
        text_lt(perm_name(perm_by_name_rank(32)), perm_name(perm_by_name_rank(33))),
{
    reveal_with_fuel(text_lt, 24);
    reveal_strlit("settings:write");
    reveal_strlit("sources:delete");
}

proof fn lemma_names_ordered_33()
    ensures
        text_lt(perm_name(perm_by_name_rank(33)), perm_name(perm_by_name_rank(34))),
{
    reveal_with_fuel(text_lt, 24);
    reveal_strlit("sources:delete");
    reveal_strlit("sources:read");
}

proof fn lemma_names_ordered_34()
    ensures
        text_lt(perm_name(perm_by_name_rank(34)), perm_name(perm_by_name_rank(35))),
{
    reveal_with_fuel(text_lt, 24);
    reveal_strlit("sources:read");
    reveal_strlit("sources:write");
}

proof fn lemma_names_ordered_35()
    ensures
        text_lt(perm_name(perm_by_name_rank(35)), perm_name(perm_by_name_rank(36))),
{
    reveal_with_fuel(text_lt, 24);
    reveal_strlit("sources:write");
    reveal_strlit("stages:delete");
}

proof fn lemma_names_ordered_36()
    ensures
        text_lt(perm_name(perm_by_name_rank(36)), perm_name(perm_by_name_rank(37))),
{
    reveal_with_fuel(text_lt, 24);
    reveal_strlit("stages:delete");
    reveal_strlit("stages:read");
}

proof fn lemma_names_ordered_37()
    ensures
        text_lt(perm_name(perm_by_name_rank(37)), perm_name(perm_by_name_rank(38))),
{
    reveal_with_fuel(text_lt, 24);
    reveal_strlit("stages:read");
    reveal_strlit("stages:write");
}

proof fn lemma_names_ordered_38()
    ensures
        text_lt(perm_name(perm_by_name_rank(38)), perm_name(perm_by_name_rank(39))),
{
    reveal_with_fuel(text_lt, 24);
    reveal_strlit("stages:write");
    reveal_strlit("users:delete");
}

proof fn lemma_names_ordered_39()
    ensures
        text_lt(perm_name(perm_by_name_rank(39)), perm_name(perm_by_name_rank(40))),
{
    reveal_with_fuel(text_lt, 24);
    reveal_strlit("users:delete");
    reveal_strlit("users:read");
}

proof fn lemma_names_ordered_40()
    ensures
        text_lt(perm_name(perm_by_name_rank(40)), perm_name(perm_by_name_rank(41))),
{
    reveal_with_fuel(text_lt, 24);
    reveal_strlit("users:read");
    reveal_strlit("users:write");
}

proof fn lemma_names_ordered_41()
    ensures
        text_lt(perm_name(perm_by_name_rank(41)), perm_name(perm_by_name_rank(42))),
{
    reveal_with_fuel(text_lt, 24);
    reveal_strlit("users:write");
    reveal_strlit("webhooks:delete");
}

proof fn lemma_names_ordered_42()
    ensures
        text_lt(perm_name(perm_by_name_rank(42)), perm_name(perm_by_name_rank(43))),
{
    reveal_with_fuel(text_lt, 24);
    reveal_strlit("webhooks:delete");
    reveal_strlit("webhooks:read");
}

proof fn lemma_names_ordered_43()
    ensures
        text_lt(perm_name(perm_by_name_rank(43)), perm_name(perm_by_name_rank(44))),
{
    reveal_with_fuel(text_lt, 24);
    reveal_strlit("webhooks:read");
    reveal_strlit("webhooks:write");
}

proof fn lemma_adjacent_names_ordered(k: int)
    requires
        0 <= k < 44,
    ensures
        text_lt(perm_name(perm_by_name_rank(k)), perm_name(perm_by_name_rank(k + 1))),
{
    if k == 0 {
        lemma_names_ordered_0();
    } else if k == 1 {
        lemma_names_ordered_1();
    } else if k == 2 {
        lemma_names_ordered_2();
    } else if k == 3 {
        lemma_names_ordered_3();
    } else if k == 4 {
        lemma_names_ordered_4();
    } else if k == 5 {
        lemma_names_ordered_5();
    } else if k == 6 {
        lemma_names_ordered_6();
    } else if k == 7 {
        lemma_names_ordered_7();
    } else if k == 8 {
        lemma_names_ordered_8();
    } else if k == 9 {
        lemma_names_ordered_9();
    } else if k == 10 {
        lemma_names_ordered_10();
    } else if k == 11 {
        lemma_names_ordered_11();
    } else if k == 12 {
        lemma_names_ordered_12();
    } else if k == 13 {
        lemma_names_ordered_13();
    } else if k == 14 {
        lemma_names_ordered_14();
    } else if k == 15 {
        lemma_names_ordered_15();
    } else if k == 16 {
        lemma_names_ordered_16();
    } else if k == 17 {
        lemma_names_ordered_17();
    } else if k == 18 {
        lemma_names_ordered_18();
    } else if k == 19 {
        lemma_names_ordered_19();
    } else if k == 20 {
        lemma_names_ordered_20();
    } else if k == 21 {
        lemma_names_ordered_21();
    } else if k == 22 {
        lemma_names_ordered_22();
    } else if k == 23 {
        lemma_names_ordered_23();
    } else if k == 24 {
        lemma_names_ordered_24();
    } else if k == 25 {
        lemma_names_ordered_25();
    } else if k == 26 {
        lemma_names_ordered_26();
    } else if k == 27 {
        lemma_names_ordered_27();
    } else if k == 28 {
        lemma_names_ordered_28();
    } else if k == 29 {
        lemma_names_ordered_29();
    } else if k == 30 {
        lemma_names_ordered_30();
    } else if k == 31 {
        lemma_names_ordered_31();
    } else if k == 32 {
        lemma_names_ordered_32();
    } else if k == 33 {
        lemma_names_ordered_33();
    } else if k == 34 {
        lemma_names_ordered_34();
    } else if k == 35 {
        lemma_names_ordered_35();
    } else if k == 36 {
        lemma_names_ordered_36();
    } else if k == 37 {
        lemma_names_ordered_37();
    } else if k == 38 {
        lemma_names_ordered_38();
    } else if k == 39 {
        lemma_names_ordered_39();
    } else if k == 40 {
        lemma_names_ordered_40();
    } else if k == 41 {
        lemma_names_ordered_41();
    } else if k == 42 {
        lemma_names_ordered_42();
    } else if k == 43 {
        lemma_names_ordered_43();
    }
}

/// `text_lt` is transitive.
pub proof fn lemma_text_lt_transitive(a: Seq<char>, b: Seq<char>, c: Seq<char>)
    requires
        text_lt(a, b),
        text_lt(b, c),
    ensures
        text_lt(a, c),
    decreases a.len(),
{
    if a.len() > 0 && b.len() > 0 && c.len() > 0 {
        vstd::utf8::char_u32_cast(a[0], a[0] as u32);
        vstd::utf8::char_u32_cast(b[0], b[0] as u32);
        vstd::utf8::char_u32_cast(c[0], c[0] as u32);
        if a[0] == b[0] && b[0] == c[0] {
            lemma_text_lt_transitive(a.drop_first(), b.drop_first(), c.drop_first());
        }
    }
}

proof fn lemma_ranks_ordered(j: int, k: int)
    requires
        0 <= j < k < 45,
    ensures
        text_lt(perm_name(perm_by_name_rank(j)), perm_name(perm_by_name_rank(k))),
    decreases k - j,
{
    lemma_adjacent_names_ordered(k - 1);
    if j < k - 1 {
        lemma_ranks_ordered(j, k - 1);
        lemma_text_lt_transitive(
            perm_name(perm_by_name_rank(j)),
            perm_name(perm_by_name_rank(k - 1)),
            perm_name(perm_by_name_rank(k)),
        );
    }
}

/// `x` is the name of a member of `set` among the first `k` names.
spec fn named_member(set: Set<Permission>, k: int, x: Seq<char>) -> bool {
    exists|r: int| 0 <= r < k && set.contains(perm_by_name_rank(r)) && x == perm_name(#[trigger] perm_by_name_rank(r))
}

proof fn lemma_sorted_member_names(set: Set<Permission>, k: int)
    requires
        0 <= k <= 45,
    ensures
        forall|i: int|
            0 <= i < sorted_member_names(set, k).len() ==> named_member(set, k, #[trigger] sorted_member_names(set, k)[i]),
        forall|r: int|
            0 <= r < k && set.contains(#[trigger] perm_by_name_rank(r)) ==> sorted_member_names(set, k).contains(
                perm_name(perm_by_name_rank(r)),
            ),
        forall|i: int, j: int|
            0 <= i < j < sorted_member_names(set, k).len() ==> text_lt(
                #[trigger] sorted_member_names(set, k)[i],
                #[trigger] sorted_member_names(set, k)[j],
            ),
    decreases k,
{
    if k > 0 {
        lemma_sorted_member_names(set, k - 1);
        let rest = sorted_member_names(set, k - 1);
        let p = perm_by_name_rank(k - 1);
        assert forall|i: int| 0 <= i < rest.len() implies named_member(set, k, #[trigger] rest[i]) by {
            assert(named_member(set, k - 1, rest[i]));
            let r = choose|r: int| 0 <= r < k - 1 && set.contains(perm_by_name_rank(r)) && rest[i] == perm_name(#[trigger] perm_by_name_rank(r));
            assert(0 <= r < k && set.contains(perm_by_name_rank(r)) && rest[i] == perm_name(perm_by_name_rank(r)));
        }
        if set.contains(p) {
            let s = rest.push(perm_name(p));
            assert(s == sorted_member_names(set, k));
            assert forall|i: int| 0 <= i < s.len() implies named_member(set, k, #[trigger] s[i]) by {
                if i == rest.len() {
                    assert(s[i] == perm_name(perm_by_name_rank(k - 1)));
                    assert(0 <= k - 1 < k && set.contains(perm_by_name_rank(k - 1)));
                } else {
                    assert(s[i] == rest[i]);
                }
            }
            assert forall|r: int| 0 <= r < k && set.contains(#[trigger] perm_by_name_rank(r)) implies s.contains(
                perm_name(perm_by_name_rank(r)),
            ) by {
                if r == k - 1 {
                    assert(s[rest.len() as int] == perm_name(p));
                } else {
                    assert(rest.contains(perm_name(perm_by_name_rank(r))));
                    let i = choose|i: int| 0 <= i < rest.len() && rest[i] == perm_name(perm_by_name_rank(r));
                    assert(s[i] == rest[i]);
                }
            }
            assert forall|i: int, j: int| 0 <= i < j < s.len() implies text_lt(#[trigger] s[i], #[trigger] s[j]) by {
                if j == rest.len() {
                    assert(named_member(set, k - 1, rest[i]));
                    let r = choose|r: int|
                        0 <= r < k - 1 && set.contains(perm_by_name_rank(r)) && rest[i] == perm_name(#[trigger] perm_by_name_rank(r));
                    lemma_ranks_ordered(r, k - 1);
                    assert(s[i] == rest[i]);
                } else {
                    assert(s[i] == rest[i] && s[j] == rest[j]);
                }
            }
        } else {
            assert(rest == sorted_member_names(set, k));
            assert forall|r: int| 0 <= r < k && set.contains(#[trigger] perm_by_name_rank(r)) implies rest.contains(
                perm_name(perm_by_name_rank(r)),
            ) by {
                if r == k - 1 {
                    assert(false);
                }
            }
        }
    }
}

/// The permission list names exactly the set's members, each once, in
/// increasing order of the names.
pub proof fn lemma_permission_list_sorted(set: Set<Permission>)
    ensures
        forall|p: Permission| set.contains(p) <==> sorted_member_names(set, 45).contains(#[trigger] perm_name(p)),
        forall|i: int, j: int|
            0 <= i < j < sorted_member_names(set, 45).len() ==> text_lt(
                #[trigger] sorted_member_names(set, 45)[i],
                #[trigger] sorted_member_names(set, 45)[j],
            ),
{
    lemma_sorted_member_names(set, 45);
    let s = sorted_member_names(set, 45);
    assert forall|p: Permission| set.contains(p) <==> s.contains(#[trigger] perm_name(p)) by {
        lemma_name_rank(p);
        if set.contains(p) {
            assert(set.contains(perm_by_name_rank(name_rank(p))));
        }
        if s.contains(perm_name(p)) {
            let i = choose|i: int| 0 <= i < s.len() && s[i] == perm_name(p);
            assert(named_member(set, 45, s[i]));
            let r = choose|r: int| 0 <= r < 45 && set.contains(perm_by_name_rank(r)) && s[i] == perm_name(#[trigger] perm_by_name_rank(r));
            crate::auth::permissions::lemma_perm_name_injective(p, perm_by_name_rank(r));
        }
    }
}

/// The permission list of a set holds one name per member: as many names
/// as the set has members.
pub proof fn lemma_permission_list_len(set: Set<Permission>)
    requires
        set.finite(),
    ensures
        sorted_member_names(set, 45).len() == set.len(),
{
    lemma_permission_list_sorted(set);
    lemma_sorted_member_names(set, 45);
    let s = sorted_member_names(set, 45);
    assert(s.no_duplicates()) by {
        assert forall|i: int, j: int| 0 <= i < s.len() && 0 <= j < s.len() && i != j implies s[i] != s[j] by {
            lemma_text_lt_strict_total(s[i], s[j]);
            if i < j {
                assert(text_lt(s[i], s[j]));
            } else {
                assert(text_lt(s[j], s[i]));
                lemma_text_lt_strict_total(s[j], s[i]);
            }
        }
    }
    s.unique_seq_to_set();
    let f = |p: Permission| perm_name(p);
    assert(s.to_set() =~= set.map(f)) by {
        assert forall|x: Seq<char>| s.to_set().contains(x) implies set.map(f).contains(x) by {
            let i = choose|i: int| 0 <= i < s.len() && s[i] == x;
            assert(named_member(set, 45, s[i]));
            let r = choose|r: int| 0 <= r < 45 && set.contains(perm_by_name_rank(r)) && s[i] == perm_name(#[trigger] perm_by_name_rank(r));
            assert(set.contains(perm_by_name_rank(r)) && f(perm_by_name_rank(r)) == x);
        }
        assert forall|x: Seq<char>| set.map(f).contains(x) implies s.to_set().contains(x) by {
            let p = choose|p: Permission| set.contains(p) && f(p) == x;
            assert(s.contains(perm_name(p)));
        }
    }
    assert(vstd::relations::injective_on(f, set)) by {
        assert forall|a: Permission, b: Permission| set.contains(a) && set.contains(b) && #[trigger] f(a) == #[trigger] f(b) implies a == b by {
            crate::auth::permissions::lemma_perm_name_injective(a, b);
        }
    }
    vstd::set_lib::lemma_map_size(set, s.to_set(), f);
}

} // verus!
