//! The migrations directory: which of its files are migrations, the order
//! in which they run, and the version each one names. Applying them is the
//! caller's part; it asks here for each file in turn.
use vstd::prelude::*;

use crate::backup::{lemma_text_lt_strict_total, text_less, text_lt};
use crate::db::error::DbError;
use crate::json::string_views;
use crate::text::{chars_of, chars_slice, parse_uint, parsed_uint, push_str, str_eq, string_from_chars};

verus! {

/// The position of the last `.` in `name`, or -1.
pub open spec fn last_dot(name: Seq<char>) -> int
    decreases name.len(),
{
    if name.len() == 0 {
        -1
    } else if name.last() == '.' {
        name.len() - 1
    } else {
        last_dot(name.drop_last())
    }
}

/// The extension of a file name, as `Path::extension` reads it: what
/// follows the last `.`, unless there is none, the name is `..`, or the
/// only `.` opens the name.
pub open spec fn name_extension(name: Seq<char>) -> Option<Seq<char>> {
    let i = last_dot(name);
    if name == ".."@ || i <= 0 {
        None
    } else {
        Some(name.subrange(i + 1, name.len() as int))
    }
}

/// The stem of a file name, as `Path::file_stem` reads it: what precedes
/// the last `.`, or the whole name where there is no extension.
pub open spec fn name_stem(name: Seq<char>) -> Seq<char> {
    let i = last_dot(name);
    if name == ".."@ || i <= 0 {
        name
    } else {
        name.subrange(0, i)
    }
}

/// A migration is a file with the extension `sql`.
pub open spec fn is_migration_name(name: Seq<char>) -> bool {
    name_extension(name) == Some("sql"@)
}

/// The migrations among `names`, in their order there.
pub open spec fn migration_names(names: Seq<Seq<char>>) -> Seq<Seq<char>>
    decreases names.len(),
{
    if names.len() == 0 {
        names
    } else if is_migration_name(names.last()) {
        migration_names(names.drop_last()).push(names.last())
    } else {
        migration_names(names.drop_last())
    }
}

/// `s` with `x` put before the first name greater than it.
pub open spec fn insert_ascending(s: Seq<Seq<char>>, x: Seq<char>) -> Seq<Seq<char>>
    decreases s.len(),
{
    if s.len() == 0 {
        seq![x]
    } else if text_lt(x, s[0]) {
        seq![x] + s
    } else {
        seq![s[0]] + insert_ascending(s.drop_first(), x)
    }
}

/// `s` sorted from the smallest name to the largest.
pub open spec fn sort_ascending(s: Seq<Seq<char>>) -> Seq<Seq<char>>
    decreases s.len(),
{
    if s.len() == 0 {
        s
    } else {
        insert_ascending(sort_ascending(s.drop_last()), s.last())
    }
}

/// No name in `s` is greater than the one after it.
pub open spec fn ascending(s: Seq<Seq<char>>) -> bool {
    forall|i: int| 0 <= i < s.len() - 1 ==> !text_lt(s[i + 1], #[trigger] s[i])
}

proof fn lemma_last_dot_range(name: Seq<char>)
    ensures
        -1 <= last_dot(name) < name.len(),
        last_dot(name) >= 0 ==> name[last_dot(name)] == '.',
    decreases name.len(),
{
    if name.len() > 0 && name.last() != '.' {
        lemma_last_dot_range(name.drop_last());
    }
}

fn last_dot_of(v: &Vec<char>) -> (r: i64)
    requires
        v@.len() < i64::MAX,
    ensures
        r == last_dot(v@),
        -1 <= r < v@.len(),
{
    proof {
        lemma_last_dot_range(v@);
    }
    assert(v@.subrange(0, v@.len() as int) == v@);
    let mut i: usize = v.len();
    while i > 0
        invariant
            i <= v@.len(),
            v@.len() < i64::MAX,
            last_dot(v@) == last_dot(v@.subrange(0, i as int)),
        decreases i,
    {
        let ghost prefix = v@.subrange(0, i as int);
        if v[i - 1] == '.' {
            return (i - 1) as i64;
        }
        assert(prefix.drop_last() == v@.subrange(0, i - 1));
        i -= 1;
    }
    -1
}

/// Whether the file name is a migration's.
pub fn is_migration_file(name: &str) -> (r: bool)
    requires
        name@.len() < i64::MAX,
    ensures
        r == is_migration_name(name@),
{
    let v = chars_of(name);
    let i = last_dot_of(&v);
    if str_eq(name, "..") || i <= 0 {
        return false;
    }
    let ext = string_from_chars(&chars_slice(&v, (i + 1) as usize, v.len()));
    str_eq(ext.as_str(), "sql")
}

/// The stem of the file name.
pub fn file_stem_of(name: &str) -> (r: String)
    requires
        name@.len() < i64::MAX,
    ensures
        r@ == name_stem(name@),
{
    let v = chars_of(name);
    let i = last_dot_of(&v);
    if str_eq(name, "..") || i <= 0 {
        return string_from_chars(&v);
    }
    assert(0 < i < v@.len());
    let end = i as usize;
    assert(end as int == last_dot(name@));
    string_from_chars(&chars_slice(&v, 0, end))
}

fn insert_name(sorted: &mut Vec<String>, x: String)
    ensures
        string_views(final(sorted)@) == insert_ascending(string_views(old(sorted)@), x@),
{
    let ghost s0 = string_views(sorted@);
    assert(s0.subrange(0, s0.len() as int) == s0);
    assert(s0.subrange(0, 0) + insert_ascending(s0, x@) == insert_ascending(s0, x@));
    let mut i: usize = 0;
    while i < sorted.len() && !text_less(x.as_str(), sorted[i].as_str())
        invariant
            i <= sorted@.len(),
            string_views(sorted@) == s0,
            insert_ascending(s0, x@) == s0.subrange(0, i as int) + insert_ascending(s0.subrange(i as int, s0.len() as int), x@),
        decreases sorted@.len() - i,
    {
        proof {
            let rest = s0.subrange(i as int, s0.len() as int);
            assert(rest[0] == s0[i as int]);
            assert(rest.drop_first() == s0.subrange(i + 1, s0.len() as int));
            assert(s0.subrange(0, i + 1) == s0.subrange(0, i as int) + seq![rest[0]]);
        }
        i += 1;
    }
    proof {
        let rest = s0.subrange(i as int, s0.len() as int);
        if i < s0.len() {
            assert(rest[0] == s0[i as int]);
        }
    }
    sorted.insert(i, x);
    proof {
        assert(string_views(sorted@) == s0.subrange(0, i as int) + seq![x@] + s0.subrange(i as int, s0.len() as int));
    }
}

/// The migrations among the directory's file names, in the order in which
/// they run: by name, smallest first.
pub fn migration_files(names: &Vec<String>) -> (r: Vec<String>)
    requires
        forall|i: int| 0 <= i < names@.len() ==> (#[trigger] names@[i])@.len() < i64::MAX,
    ensures
        string_views(r@) == sort_ascending(migration_names(string_views(names@))),
{
    let mut r: Vec<String> = Vec::new();
    let mut n: usize = 0;
    while n < names.len()
        invariant
            n <= names@.len(),
            forall|i: int| 0 <= i < names@.len() ==> (#[trigger] names@[i])@.len() < i64::MAX,
            string_views(r@) == sort_ascending(migration_names(string_views(names@.subrange(0, n as int)))),
        decreases names@.len() - n,
    {
        let ghost before = string_views(names@.subrange(0, n as int));
        let ghost after = string_views(names@.subrange(0, n + 1));
        assert(after.drop_last() == before);
        assert(after.last() == names@[n as int]@);
        if is_migration_file(names[n].as_str()) {
            insert_name(&mut r, names[n].clone());
        }
        proof {
            if is_migration_name(after.last()) {
                assert(migration_names(after) == migration_names(before).push(after.last()));
                assert(migration_names(after).drop_last() == migration_names(before));
            }
        }
        n += 1;
    }
    assert(names@.subrange(0, names@.len() as int) == names@);
    r
}

/// The version a migration's stem names: its text up to the first `_`.
pub open spec fn version_text(stem: Seq<char>) -> Seq<char>
    decreases stem.len(),
{
    if stem.len() == 0 {
        stem
    } else if stem[0] == '_' {
        Seq::empty()
    } else {
        seq![stem[0]] + version_text(stem.drop_first())
    }
}

/// What `str::parse::<i64>` reads: an optional sign and at least one ASCII
/// digit, in range.
pub open spec fn parsed_i64(s: Seq<char>) -> Option<int> {
    if s.len() > 0 && s[0] == '-' {
        let d = s.drop_first();
        if d.len() > 0 && d[0] == '+' {
            None
        } else {
            match parsed_uint(d, 9223372036854775808) {
                Some(n) => Some(-n),
                None => None,
            }
        }
    } else {
        match parsed_uint(s, 9223372036854775807) {
            Some(n) => Some(n as int),
            None => None,
        }
    }
}

/// Reads an `i64` as `str::parse` does.
pub fn parse_i64(s: &str) -> (r: Option<i64>)
    ensures
        match parsed_i64(s@) {
            Some(n) => r == Some(n as i64),
            None => r is None,
        },
{
    let v = chars_of(s);
    if v.len() > 0 && v[0] == '-' {
        let rest = chars_slice(&v, 1, v.len());
        assert(rest@ == s@.drop_first());
        if rest.len() > 0 && rest[0] == '+' {
            return None;
        }
        let d = string_from_chars(&rest);
        match parse_uint(d.as_str(), 9223372036854775808) {
            Some(n) => {
                if n == 9223372036854775808 {
                    Some(i64::MIN)
                } else {
                    Some(-(n as i64))
                }
            },
            None => None,
        }
    } else {
        match parse_uint(s, 9223372036854775807) {
            Some(n) => Some(n as i64),
            None => None,
        }
    }
}

fn version_text_of(stem: &str) -> (r: String)
    ensures
        r@ == version_text(stem@),
{
    let v = chars_of(stem);
    assert(v@.subrange(0, v@.len() as int) == v@);
    assert(v@.subrange(0, 0) + version_text(v@) == version_text(v@));
    let mut i: usize = 0;
    while i < v.len() && v[i] != '_'
        invariant
            i <= v@.len(),
            v@ == stem@,
            version_text(stem@) == v@.subrange(0, i as int) + version_text(v@.subrange(i as int, v@.len() as int)),
        decreases v@.len() - i,
    {
        proof {
            let rest = v@.subrange(i as int, v@.len() as int);
            assert(rest[0] == v@[i as int]);
            assert(rest.drop_first() == v@.subrange(i + 1, v@.len() as int));
            assert(v@.subrange(0, i + 1) == v@.subrange(0, i as int) + seq![rest[0]]);
        }
        i += 1;
    }
    proof {
        let rest = v@.subrange(i as int, v@.len() as int);
        if i < v@.len() {
            assert(rest[0] == '_');
        }
        assert(version_text(rest) == Seq::<char>::empty());
    }
    string_from_chars(&chars_slice(&v, 0, i))
}

/// The version of the migration with this stem, or the error that stops
/// the run at it.
pub fn migration_version(stem: &str) -> (r: Result<i64, DbError>)
    ensures
        match parsed_i64(version_text(stem@)) {
            Some(n) => r == Ok::<i64, DbError>(n as i64),
            None => r matches Err(DbError::Migration(m)) && m@ == "invalid migration version: "@ + stem@,
        },
{
    let text = version_text_of(stem);
    match parse_i64(text.as_str()) {
        Some(n) => Ok(n),
        None => {
            let mut m = String::new();
            push_str(&mut m, "invalid migration version: ");
            push_str(&mut m, stem);
            Err(DbError::Migration(m))
        },
    }
}

proof fn lemma_insert_ascending(s: Seq<Seq<char>>, x: Seq<char>)
    requires
        ascending(s),
    ensures
        ascending(insert_ascending(s, x)),
        insert_ascending(s, x).to_multiset() == s.to_multiset().insert(x),
        insert_ascending(s, x).len() == s.len() + 1,
        insert_ascending(s, x)[0] == x || insert_ascending(s, x)[0] == s[0],
    decreases s.len(),
{
    broadcast use vstd::seq_lib::group_to_multiset_ensures;

    let r = insert_ascending(s, x);
    if s.len() == 0 {
        assert(r =~= seq![x]);
        assert(seq![x] =~= Seq::<Seq<char>>::empty().push(x));
    } else if text_lt(x, s[0]) {
        lemma_text_lt_strict_total(x, s[0]);
        assert(r =~= s.insert(0, x));
        assert forall|i: int| 0 <= i < r.len() - 1 implies !text_lt(r[i + 1], #[trigger] r[i]) by {
            if i > 0 {
                assert(r[i] == s[i - 1] && r[i + 1] == s[i]);
            } else {
                assert(r[0] == x && r[1] == s[0]);
            }
        }
    } else {
        let rest = s.drop_first();
        assert(ascending(rest)) by {
            assert forall|i: int| 0 <= i < rest.len() - 1 implies !text_lt(rest[i + 1], #[trigger] rest[i]) by {
                assert(rest[i] == s[i + 1] && rest[i + 1] == s[i + 2]);
            }
        }
        lemma_insert_ascending(rest, x);
        let ri = insert_ascending(rest, x);
        assert(r == seq![s[0]] + ri);
        assert forall|i: int| 0 <= i < r.len() - 1 implies !text_lt(r[i + 1], #[trigger] r[i]) by {
            if i == 0 {
                assert(r[1] == ri[0]);
                if ri[0] != x {
                    assert(ri[0] == rest[0] && rest[0] == s[1]);
                }
            } else {
                assert(r[i] == ri[i - 1] && r[i + 1] == ri[i]);
            }
        }
        assert(s == seq![s[0]] + rest);
        assert(r.to_multiset() =~= s.to_multiset().insert(x)) by {
            vstd::seq_lib::lemma_multiset_commutative(seq![s[0]], ri);
            vstd::seq_lib::lemma_multiset_commutative(seq![s[0]], rest);
        }
    }
}

proof fn lemma_migration_names(names: Seq<Seq<char>>)
    ensures
        forall|i: int| 0 <= i < migration_names(names).len() ==> is_migration_name(#[trigger] migration_names(names)[i]),
        forall|i: int| 0 <= i < names.len() && is_migration_name(#[trigger] names[i]) ==> migration_names(names).contains(names[i]),
    decreases names.len(),
{
    if names.len() > 0 {
        let rest = names.drop_last();
        lemma_migration_names(rest);
        let m = migration_names(names);
        let mr = migration_names(rest);
        assert forall|i: int| 0 <= i < names.len() && is_migration_name(#[trigger] names[i]) implies m.contains(names[i]) by {
            if i < names.len() - 1 {
                assert(names[i] == rest[i]);
                let j = choose|j: int| 0 <= j < mr.len() && mr[j] == rest[i];
                if is_migration_name(names.last()) {
                    assert(m[j] == mr[j]);
                }
            } else {
                assert(m[m.len() - 1] == names.last());
            }
        }
    }
}

/// The migrations run in order of their names: `migration_files` hands out
/// exactly the directory's files with the extension `sql`, each as often as
/// it is there, from the smallest name to the largest.
pub proof fn lemma_migration_order(names: Seq<Seq<char>>)
    ensures
        ascending(sort_ascending(migration_names(names))),
        sort_ascending(migration_names(names)).to_multiset() == migration_names(names).to_multiset(),
        forall|n: Seq<char>| #[trigger] sort_ascending(migration_names(names)).contains(n) <==> (names.contains(n) && is_migration_name(n)),
{
    broadcast use vstd::seq_lib::group_to_multiset_ensures;

    lemma_sort_ascending(migration_names(names));
    lemma_migration_names(names);
    lemma_migration_names_within(names);
    let sorted = sort_ascending(migration_names(names));
    let m = migration_names(names);
    assert forall|n: Seq<char>| #[trigger] sort_ascending(migration_names(names)).contains(n) <==> (names.contains(n) && is_migration_name(n)) by {
        assert(sorted.to_multiset().count(n) == m.to_multiset().count(n));
        if names.contains(n) && is_migration_name(n) {
            let i = choose|i: int| 0 <= i < names.len() && names[i] == n;
            assert(m.contains(names[i]));
        }
        if sorted.contains(n) {
            assert(m.contains(n));
            let i = choose|i: int| 0 <= i < m.len() && m[i] == n;
            assert(is_migration_name(m[i]));
        }
    }
}

proof fn lemma_migration_names_within(names: Seq<Seq<char>>)
    ensures
        forall|n: Seq<char>| migration_names(names).contains(n) ==> names.contains(n),
    decreases names.len(),
{
    if names.len() > 0 {
        let rest = names.drop_last();
        lemma_migration_names_within(rest);
        let m = migration_names(names);
        let mr = migration_names(rest);
        assert forall|n: Seq<char>| m.contains(n) implies names.contains(n) by {
            let i = choose|i: int| 0 <= i < m.len() && m[i] == n;
            if i < mr.len() {
                assert(m[i] == mr[i]);
                assert(mr.contains(n));
                assert(rest.contains(n));
                let j = choose|j: int| 0 <= j < rest.len() && rest[j] == n;
                assert(names[j] == rest[j]);
                assert(names.contains(n));
            } else {
                assert(is_migration_name(names.last()));
                assert(m == mr.push(names.last()));
                assert(m[i] == names.last());
                assert(names[names.len() - 1] == n);
            }
        }
    }
}

proof fn lemma_sort_ascending(s: Seq<Seq<char>>)
    ensures
        ascending(sort_ascending(s)),
        sort_ascending(s).to_multiset() == s.to_multiset(),
    decreases s.len(),
{
    broadcast use vstd::seq_lib::group_to_multiset_ensures;

    if s.len() > 0 {
        lemma_sort_ascending(s.drop_last());
        lemma_insert_ascending(sort_ascending(s.drop_last()), s.last());
        assert(s == s.drop_last().push(s.last()));
    } else {
        assert(sort_ascending(s).to_multiset() =~= s.to_multiset());
    }
}

} // verus!
