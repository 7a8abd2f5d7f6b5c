//! Character-level string helpers shared by the library.
//!
//! Strings are reasoned about through their views (`Seq<char>`); the
//! executable helpers here convert between `&str`/`String` and `Vec<char>`
//! and implement the prefix, suffix and search operations the rest of the
//! crate needs, each with an exact contract over those views.
use vstd::prelude::*;

verus! {

/// `s` begins with `prefix`.
pub open spec fn has_prefix(s: Seq<char>, prefix: Seq<char>) -> bool {
    prefix.len() <= s.len() && s.subrange(0, prefix.len() as int) == prefix
}

/// `s` ends with `suffix`.
pub open spec fn has_suffix(s: Seq<char>, suffix: Seq<char>) -> bool {
    suffix.len() <= s.len() && s.subrange(s.len() - suffix.len(), s.len() as int) == suffix
}

/// `needle` occurs in `s` starting at position `i`.
pub open spec fn occurs_at(s: Seq<char>, needle: Seq<char>, i: int) -> bool {
    0 <= i && i + needle.len() <= s.len() && s.subrange(i, i + needle.len()) == needle
}

/// `needle` occurs somewhere in `s`.
pub open spec fn has_infix(s: Seq<char>, needle: Seq<char>) -> bool {
    exists|i: int| occurs_at(s, needle, i)
}

/// The characters of `s`, in order.
pub fn chars_of(s: &str) -> (v: Vec<char>)
    ensures
        v@ == s@,
{
    let mut v: Vec<char> = Vec::new();
    for c in it: s.chars()
        invariant
            v@ == it.seq().take(it.index() as int),
            it.seq() == s@,
    {
        v.push(c);
    }
    v
}

/// Whether two character sequences are equal.
pub fn chars_eq(a: &Vec<char>, b: &Vec<char>) -> (r: bool)
    ensures
        r == (a@ == b@),
{
    if a.len() != b.len() {
        return false;
    }
    for i in 0..a.len()
        invariant
            a@.len() == b@.len(),
            forall|j: int| 0 <= j < i ==> a@[j] == b@[j],
    {
        if a[i] != b[i] {
            return false;
        }
    }
    assert(a@ =~= b@);
    true
}

/// Whether two strings are equal.
pub fn str_eq(a: &str, b: &str) -> (r: bool)
    ensures
        r == (a@ == b@),
{
    chars_eq(&chars_of(a), &chars_of(b))
}

/// Appends `c` to `s` (`String::push`).
#[verifier::external_body]
pub(crate) fn push_char(s: &mut String, c: char)
    ensures
        final(s)@ == old(s)@.push(c),
{
    s.push(c)
}

/// A string holding the characters of `v`.
pub fn string_from_chars(v: &Vec<char>) -> (r: String)
    ensures
        r@ == v@,
{
    let mut s = String::new();
    for i in 0..v.len()
        invariant
            s@ == v@.subrange(0, i as int),
    {
        push_char(&mut s, v[i]);
        assert(v@.subrange(0, i + 1) == v@.subrange(0, i as int).push(v@[i as int]));
    }
    assert(v@.subrange(0, v@.len() as int) == v@);
    s
}

/// Appends the characters of `t` to `s`.
pub fn push_str(s: &mut String, t: &str)
    ensures
        final(s)@ == old(s)@ + t@,
{
    let ghost start = s@;
    let v = chars_of(t);
    for i in 0..v.len()
        invariant
            s@ == start + v@.subrange(0, i as int),
    {
        push_char(s, v[i]);
        assert(v@.subrange(0, i + 1) == v@.subrange(0, i as int).push(v@[i as int]));
    }
    assert(v@.subrange(0, v@.len() as int) == v@);
}

/// Appends the characters of `t` to `s`.
pub fn push_string(s: &mut String, t: &String)
    ensures
        final(s)@ == old(s)@ + t@,
{
    push_str(s, t.as_str());
}

/// Whether `v` begins with `prefix`.
pub fn chars_starts_with(v: &Vec<char>, prefix: &Vec<char>) -> (r: bool)
    ensures
        r == has_prefix(v@, prefix@),
{
    if prefix.len() > v.len() {
        return false;
    }
    for i in 0..prefix.len()
        invariant
            prefix@.len() <= v@.len(),
            forall|j: int| 0 <= j < i ==> v@[j] == prefix@[j],
    {
        if v[i] != prefix[i] {
            assert(v@.subrange(0, prefix@.len() as int)[i as int] != prefix@[i as int]);
            return false;
        }
    }
    assert(v@.subrange(0, prefix@.len() as int) =~= prefix@);
    true
}

/// Whether `v` ends with `suffix`.
pub fn chars_ends_with(v: &Vec<char>, suffix: &Vec<char>) -> (r: bool)
    ensures
        r == has_suffix(v@, suffix@),
{
    if suffix.len() > v.len() {
        return false;
    }
    let off = v.len() - suffix.len();
    let n = suffix.len();
    let vlen = v.len();
    for i in 0..n
        invariant
            n == suffix@.len(),
            vlen == v@.len(),
            suffix@.len() <= v@.len(),
            off == v@.len() - suffix@.len(),
            forall|j: int| 0 <= j < i ==> v@[off + j] == suffix@[j],
    {
        let pos: usize = off + i;
        if v[pos] != suffix[i] {
            assert(v@.subrange(off as int, v@.len() as int)[i as int] != suffix@[i as int]);
            return false;
        }
    }
    assert(v@.subrange(off as int, v@.len() as int) =~= suffix@);
    true
}

/// Whether `needle` occurs in `v` at position `i`.
pub fn chars_occurs_at(v: &Vec<char>, needle: &Vec<char>, i: usize) -> (r: bool)
    ensures
        r == occurs_at(v@, needle@, i as int),
{
    if i > v.len() || needle.len() > v.len() - i {
        return false;
    }
    let n = needle.len();
    let vlen = v.len();
    for k in 0..n
        invariant
            n == needle@.len(),
            vlen == v@.len(),
            i + needle@.len() <= v@.len(),
            forall|j: int| 0 <= j < k ==> v@[i + j] == needle@[j],
    {
        let pos: usize = i + k;
        if v[pos] != needle[k] {
            assert(v@.subrange(i as int, i + needle@.len())[k as int] != needle@[k as int]);
            return false;
        }
    }
    assert(v@.subrange(i as int, i + needle@.len()) =~= needle@);
    true
}

/// Whether `needle` occurs anywhere in `v`.
pub fn chars_contains(v: &Vec<char>, needle: &Vec<char>) -> (r: bool)
    ensures
        r == has_infix(v@, needle@),
{
    if needle.len() > v.len() {
        return false;
    }
    if needle.len() == 0 {
        assert(v@.subrange(0, 0) =~= needle@);
        assert(occurs_at(v@, needle@, 0));
        return true;
    }
    let last = v.len() - needle.len();
    let mut i: usize = 0;
    while i <= last
        invariant
            last == v@.len() - needle@.len(),
            needle@.len() >= 1,
            v@.len() == v.len(),
            i <= last + 1,
            forall|j: int| 0 <= j < i ==> !occurs_at(v@, needle@, j),
        decreases last + 1 - i,
    {
        if chars_occurs_at(v, needle, i) {
            return true;
        }
        i += 1;
    }
    assert forall|j: int| !occurs_at(v@, needle@, j) by {
        if 0 <= j && j + needle@.len() <= v@.len() {
            assert(j < i);
        }
    }
    false
}

/// Whether `c` occurs in `v`.
pub fn chars_has(v: &Vec<char>, c: char) -> (r: bool)
    ensures
        r == v@.contains(c),
{
    for i in 0..v.len()
        invariant
            forall|j: int| 0 <= j < i ==> v@[j] != c,
    {
        if v[i] == c {
            return true;
        }
    }
    false
}

/// The characters of `v` from `start` to `end`.
pub fn chars_slice(v: &Vec<char>, start: usize, end: usize) -> (r: Vec<char>)
    requires
        start <= end <= v@.len(),
    ensures
        r@ == v@.subrange(start as int, end as int),
{
    let mut r: Vec<char> = Vec::new();
    for i in start..end
        invariant
            start <= end <= v@.len(),
            r@ == v@.subrange(start as int, i as int),
    {
        r.push(v[i]);
        assert(v@.subrange(start as int, i + 1) == v@.subrange(start as int, i as int).push(v@[i as int]));
    }
    r
}

/// The decimal digit for `d < 10`.
pub open spec fn digit_char(d: nat) -> char {
    if d == 0 {
        '0'
    } else if d == 1 {
        '1'
    } else if d == 2 {
        '2'
    } else if d == 3 {
        '3'
    } else if d == 4 {
        '4'
    } else if d == 5 {
        '5'
    } else if d == 6 {
        '6'
    } else if d == 7 {
        '7'
    } else if d == 8 {
        '8'
    } else {
        '9'
    }
}

/// The decimal notation of `n`, without leading zeros.
pub open spec fn decimal(n: nat) -> Seq<char>
    decreases n,
{
    if n < 10 {
        seq![digit_char(n)]
    } else {
        decimal(n / 10).push(digit_char(n % 10))
    }
}

/// The decimal notation of a signed integer.
pub open spec fn signed_decimal(n: int) -> Seq<char> {
    if n < 0 {
        seq!['-'] + decimal((-n) as nat)
    } else {
        decimal(n as nat)
    }
}

fn digit(d: u64) -> (c: char)
    requires
        d < 10,
    ensures
        c == digit_char(d as nat),
{
    if d == 0 {
        '0'
    } else if d == 1 {
        '1'
    } else if d == 2 {
        '2'
    } else if d == 3 {
        '3'
    } else if d == 4 {
        '4'
    } else if d == 5 {
        '5'
    } else if d == 6 {
        '6'
    } else if d == 7 {
        '7'
    } else if d == 8 {
        '8'
    } else {
        '9'
    }
}

/// Appends the decimal notation of `n` to `s`.
pub fn push_decimal(s: &mut String, n: u64)
    ensures
        final(s)@ == old(s)@ + decimal(n as nat),
    decreases n,
{
    if n >= 10 {
        push_decimal(s, n / 10);
    }
    push_char(s, digit(n % 10));
    proof {
        if n >= 10 {
            assert(old(s)@ + decimal(n as nat) == (old(s)@ + decimal((n / 10) as nat)).push(digit_char((n % 10) as nat)));
        } else {
            assert(old(s)@ + decimal(n as nat) == old(s)@.push(digit_char((n % 10) as nat)));
        }
    }
}

/// Appends the decimal notation of `n` (with a leading `-` when negative) to `s`.
pub fn push_signed_decimal(s: &mut String, n: i64)
    ensures
        final(s)@ == old(s)@ + signed_decimal(n as int),
{
    if n < 0 {
        push_char(s, '-');
        let m: u64 = if n == i64::MIN { 9223372036854775808u64 } else { (-n) as u64 };
        assert(m == -(n as int));
        push_decimal(s, m);
        assert(old(s)@ + signed_decimal(n as int) == old(s)@.push('-') + decimal(m as nat));
    } else {
        push_decimal(s, n as u64);
    }
}

/// `parts` joined by `sep`, as `[T]::join` does.
pub open spec fn joined(parts: Seq<Seq<char>>, sep: Seq<char>) -> Seq<char>
    decreases parts.len(),
{
    if parts.len() == 0 {
        Seq::empty()
    } else if parts.len() == 1 {
        parts[0]
    } else {
        joined(parts.drop_last(), sep) + sep + parts.last()
    }
}

/// Appends `parts` joined by `sep` to `s`.
pub fn push_joined(s: &mut String, parts: &Vec<String>, sep: &str)
    ensures
        final(s)@ == old(s)@ + joined(parts@.map_values(|p: String| p@), sep@),
{
    let ghost views = parts@.map_values(|p: String| p@);
    let ghost start = s@;
    for i in 0..parts.len()
        invariant
            views == parts@.map_values(|p: String| p@),
            s@ == start + joined(views.subrange(0, i as int), sep@),
    {
        let ghost before = s@;
        if i > 0 {
            push_str(s, sep);
        }
        push_str(s, parts[i].as_str());
        proof {
            let prev = views.subrange(0, i as int);
            let next = views.subrange(0, i + 1);
            assert(next.drop_last() == prev);
            assert(next.last() == parts@[i as int]@);
            if i == 0 {
                assert(joined(prev, sep@) == Seq::<char>::empty());
                assert(s@ == start + joined(next, sep@));
            } else {
                assert(s@ == start + joined(prev, sep@) + sep@ + parts@[i as int]@);
            }
        }
    }
    assert(views.subrange(0, parts@.len() as int) == views);
}

/// Characters with the Unicode `White_Space` property: tab, line feed,
/// vertical tab, form feed, carriage return, space, next line, no-break
/// space, Ogham space mark, the spaces U+2000 to U+200A, the line and
/// paragraph separators, narrow no-break space, medium mathematical space
/// and ideographic space.
pub open spec fn is_white_space(c: char) -> bool {
    let u = c as u32;
    ||| 0x9 <= u <= 0xD
    ||| u == 0x20
    ||| u == 0x85
    ||| u == 0xA0
    ||| u == 0x1680
    ||| 0x2000 <= u <= 0x200A
    ||| u == 0x2028
    ||| u == 0x2029
    ||| u == 0x202F
    ||| u == 0x205F
    ||| u == 0x3000
}

/// `char::is_whitespace`. Trusted: as its documentation says, the result is
/// whether the character has the Unicode `White_Space` property, the list
/// that `is_white_space` spells out.
#[verifier::external_body]
pub(crate) fn char_is_whitespace(c: char) -> (r: bool)
    ensures
        r == is_white_space(c),
{
    c.is_whitespace()
}

/// The number of white-space characters `s` begins with.
pub open spec fn leading_white(s: Seq<char>) -> nat
    decreases s.len(),
{
    if s.len() > 0 && is_white_space(s[0]) {
        1 + leading_white(s.subrange(1, s.len() as int))
    } else {
        0
    }
}

/// The number of white-space characters `s` ends with.
pub open spec fn trailing_white(s: Seq<char>) -> nat
    decreases s.len(),
{
    if s.len() > 0 && is_white_space(s.last()) {
        1 + trailing_white(s.drop_last())
    } else {
        0
    }
}

/// `s` without leading white space (`str::trim_start`).
pub open spec fn trim_start(s: Seq<char>) -> Seq<char> {
    s.subrange(leading_white(s) as int, s.len() as int)
}

/// `s` without trailing white space (`str::trim_end`).
pub open spec fn trim_end(s: Seq<char>) -> Seq<char> {
    s.subrange(0, s.len() - trailing_white(s))
}

/// `s` without leading and trailing white space (`str::trim`).
pub open spec fn trim(s: Seq<char>) -> Seq<char> {
    trim_end(trim_start(s))
}

proof fn lemma_leading_white(s: Seq<char>, k: int)
    requires
        0 <= k <= s.len(),
        forall|j: int| 0 <= j < k ==> is_white_space(#[trigger] s[j]),
        k == s.len() || !is_white_space(s[k]),
    ensures
        leading_white(s) == k,
    decreases k,
{
    if k > 0 {
        let t = s.subrange(1, s.len() as int);
        assert forall|j: int| 0 <= j < k - 1 implies is_white_space(#[trigger] t[j]) by {
            assert(t[j] == s[j + 1]);
        }
        if k < s.len() {
            assert(t[k - 1] == s[k]);
        }
        lemma_leading_white(t, k - 1);
    } else {
        assert(s.len() == 0 || !is_white_space(s[0]));
    }
}

proof fn lemma_trailing_white(s: Seq<char>, k: int)
    requires
        0 <= k <= s.len(),
        forall|j: int| s.len() - k <= j < s.len() ==> is_white_space(#[trigger] s[j]),
        k == s.len() || !is_white_space(s[s.len() - k - 1]),
    ensures
        trailing_white(s) == k,
    decreases k,
{
    if k > 0 {
        let t = s.drop_last();
        assert forall|j: int| t.len() - (k - 1) <= j < t.len() implies is_white_space(#[trigger] t[j]) by {
            assert(t[j] == s[j]);
        }
        if k < s.len() {
            assert(t[t.len() - (k - 1) - 1] == s[s.len() - k - 1]);
        }
        lemma_trailing_white(t, k - 1);
    } else {
        assert(s.len() == 0 || !is_white_space(s.last()));
    }
}

/// `v` without leading white space.
pub fn chars_trim_start(v: &Vec<char>) -> (r: Vec<char>)
    ensures
        r@ == trim_start(v@),
{
    let mut k: usize = 0;
    while k < v.len()
        invariant
            k <= v@.len(),
            forall|j: int| 0 <= j < k ==> is_white_space(#[trigger] v@[j]),
        ensures
            k <= v@.len(),
            forall|j: int| 0 <= j < k ==> is_white_space(#[trigger] v@[j]),
            k == v@.len() || !is_white_space(v@[k as int]),
        decreases v@.len() - k,
    {
        if !char_is_whitespace(v[k]) {
            break;
        }
        k += 1;
    }
    proof {
        lemma_leading_white(v@, k as int);
    }
    chars_slice(v, k, v.len())
}

/// `v` without trailing white space.
pub fn chars_trim_end(v: &Vec<char>) -> (r: Vec<char>)
    ensures
        r@ == trim_end(v@),
{
    let mut k: usize = 0;
    while k < v.len()
        invariant
            k <= v@.len(),
            forall|j: int| v@.len() - k <= j < v@.len() ==> is_white_space(#[trigger] v@[j]),
        ensures
            k <= v@.len(),
            forall|j: int| v@.len() - k <= j < v@.len() ==> is_white_space(#[trigger] v@[j]),
            k == v@.len() || !is_white_space(v@[v@.len() - k - 1]),
        decreases v@.len() - k,
    {
        if !char_is_whitespace(v[v.len() - k - 1]) {
            break;
        }
        k += 1;
    }
    proof {
        lemma_trailing_white(v@, k as int);
    }
    chars_slice(v, 0, v.len() - k)
}

/// `v` without leading and trailing white space.
pub fn chars_trim(v: &Vec<char>) -> (r: Vec<char>)
    ensures
        r@ == trim(v@),
{
    chars_trim_end(&chars_trim_start(v))
}

/// `n` zeros.
pub open spec fn zeros(n: nat) -> Seq<char> {
    Seq::new(n, |_i: int| '0')
}

/// The decimal notation of `n`, zero-padded on the left to `width`
/// characters (as `{:0width}` formats an unsigned integer).
pub open spec fn zero_padded(n: nat, width: nat) -> Seq<char> {
    let d = decimal(n);
    if d.len() >= width {
        d
    } else {
        zeros((width - d.len()) as nat) + d
    }
}

/// `{:0width}` of a signed integer: the sign counts toward the width.
pub open spec fn signed_zero_padded(n: int, width: nat) -> Seq<char> {
    if n < 0 {
        seq!['-'] + zero_padded((-n) as nat, if width >= 1 { (width - 1) as nat } else { 0 })
    } else {
        zero_padded(n as nat, width)
    }
}

/// Appends `n` zero-padded to `width`.
pub fn push_zero_padded(s: &mut String, n: u64, width: usize)
    ensures
        final(s)@ == old(s)@ + zero_padded(n as nat, width as nat),
{
    let mut digits = String::new();
    push_decimal(&mut digits, n);
    let dv = chars_of(digits.as_str());
    assert(dv@ == decimal(n as nat));
    let ghost start = s@;
    if dv.len() < width {
        let pad = width - dv.len();
        for i in 0..pad
            invariant
                s@ == start + zeros(i as nat),
        {
            push_char(s, '0');
            assert(zeros((i + 1) as nat) == zeros(i as nat).push('0'));
        }
    }
    push_string(s, &digits);
    proof {
        if dv@.len() >= width {
            assert(zeros(0) =~= Seq::<char>::empty());
        }
    }
}

/// Appends a signed `n` zero-padded to `width` (sign included).
pub fn push_signed_zero_padded(s: &mut String, n: i64, width: usize)
    ensures
        final(s)@ == old(s)@ + signed_zero_padded(n as int, width as nat),
{
    if n < 0 {
        push_char(s, '-');
        let m: u64 = if n == i64::MIN { 9223372036854775808u64 } else { (-n) as u64 };
        assert(m == -(n as int));
        let ghost mid = s@;
        push_zero_padded(s, m, if width >= 1 { width - 1 } else { 0 });
        assert(s@ == old(s)@ + signed_zero_padded(n as int, width as nat));
    } else {
        push_zero_padded(s, n as u64, width);
    }
}

/// The pieces of `s` between occurrences of `sep`, as `str::split` yields
/// them (an empty `s` gives one empty piece).
pub open spec fn split_on(s: Seq<char>, sep: char) -> Seq<Seq<char>>
    decreases s.len(),
{
    if s.len() == 0 {
        seq![Seq::empty()]
    } else {
        let p = split_on(s.drop_last(), sep);
        if s.last() == sep {
            p.push(Seq::empty())
        } else {
            p.update(p.len() - 1, p.last().push(s.last()))
        }
    }
}

proof fn lemma_split_on_nonempty(s: Seq<char>, sep: char)
    ensures
        split_on(s, sep).len() >= 1,
    decreases s.len(),
{
    if s.len() > 0 {
        lemma_split_on_nonempty(s.drop_last(), sep);
    }
}

/// Splits the characters `v` at each `sep`.
pub fn chars_split(v: &Vec<char>, sep: char) -> (r: Vec<Vec<char>>)
    ensures
        r@.map_values(|p: Vec<char>| p@) == split_on(v@, sep),
{
    let mut r: Vec<Vec<char>> = Vec::new();
    let mut cur: Vec<char> = Vec::new();
    let mut i: usize = 0;
    assert(v@.subrange(0, 0) == Seq::<char>::empty());
    while i < v.len()
        invariant
            i <= v@.len(),
            r@.map_values(|p: Vec<char>| p@).push(cur@) == split_on(v@.subrange(0, i as int), sep),
        decreases v@.len() - i,
    {
        let ghost before = v@.subrange(0, i as int);
        assert(v@.subrange(0, i + 1).drop_last() == before);
        proof {
            lemma_split_on_nonempty(before, sep);
        }
        let c = v[i];
        if c == sep {
            let ghost rv = r@;
            let done = cur;
            r.push(done);
            cur = Vec::new();
            assert(r@.map_values(|p: Vec<char>| p@) =~= rv.map_values(|p: Vec<char>| p@).push(done@));
            assert(r@.map_values(|p: Vec<char>| p@).push(cur@) =~= split_on(before, sep).push(Seq::empty()));
        } else {
            let ghost old_cur = cur@;
            cur.push(c);
            assert(r@.map_values(|p: Vec<char>| p@).push(cur@) =~= split_on(before, sep).update(
                split_on(before, sep).len() - 1,
                old_cur.push(c),
            ));
        }
        i += 1;
    }
    assert(v@.subrange(0, v@.len() as int) == v@);
    let ghost rv = r@;
    r.push(cur);
    assert(r@.map_values(|p: Vec<char>| p@) =~= rv.map_values(|p: Vec<char>| p@).push(cur@));
    r
}

/// Whether `c` is an ASCII digit.
pub open spec fn is_ascii_digit(c: char) -> bool {
    48 <= (c as u32) <= 57
}

/// The value of the decimal digits `s`.
pub open spec fn digits_num(s: Seq<char>) -> nat
    decreases s.len(),
{
    if s.len() == 0 {
        0
    } else {
        digits_num(s.drop_last()) * 10 + ((s.last() as u32) - 48) as nat
    }
}

/// The digits of an unsigned integer's text: without a leading `+`.
pub open spec fn uint_digits(s: Seq<char>) -> Seq<char> {
    if s.len() > 0 && s[0] == '+' {
        s.drop_first()
    } else {
        s
    }
}

/// The unsigned integer `str::parse` reads from `s`, before its range is
/// checked: an optional `+` and at least one ASCII digit, nothing else.
pub open spec fn uint_text(s: Seq<char>) -> Option<nat> {
    let d = uint_digits(s);
    if d.len() == 0 || exists|i: int| 0 <= i < d.len() && !is_ascii_digit(#[trigger] d[i]) {
        None
    } else {
        Some(digits_num(d))
    }
}

/// What `str::parse` gives for an unsigned type whose largest value is `max`.
pub open spec fn parsed_uint(s: Seq<char>, max: nat) -> Option<nat> {
    match uint_text(s) {
        Some(n) => if n <= max { Some(n) } else { None },
        None => None,
    }
}

proof fn lemma_digits_num_prefix(d: Seq<char>, k: int)
    requires
        0 <= k <= d.len(),
        forall|i: int| 0 <= i < d.len() ==> is_ascii_digit(#[trigger] d[i]),
    ensures
        digits_num(d) >= digits_num(d.subrange(0, k)),
    decreases d.len(),
{
    if k < d.len() {
        assert(d.drop_last().subrange(0, k) == d.subrange(0, k));
        lemma_digits_num_prefix(d.drop_last(), k);
    } else {
        assert(d.subrange(0, k) == d);
    }
}

/// Reads an unsigned integer no larger than `max`, as `str::parse` does
/// for the type whose largest value `max` is.
pub fn parse_uint(s: &str, max: u64) -> (r: Option<u64>)
    ensures
        match parsed_uint(s@, max as nat) {
            Some(n) => r == Some(n as u64),
            None => r is None,
        },
{
    let v = chars_of(s);
    let start: usize = if v.len() > 0 && v[0] == '+' { 1 } else { 0 };
    let ghost d = uint_digits(s@);
    assert(d == v@.subrange(start as int, v@.len() as int));
    if start == v.len() {
        return None;
    }
    let mut value: u64 = 0;
    let mut i: usize = start;
    while i < v.len()
        invariant
            start <= i <= v@.len(),
            v@ == s@,
            d == uint_digits(s@),
            d.len() > 0,
            d == v@.subrange(start as int, v@.len() as int),
            forall|k: int| 0 <= k < i - start ==> is_ascii_digit(#[trigger] d[k]),
            value as nat == digits_num(d.subrange(0, i - start)),
            value <= max,
        decreases v@.len() - i,
    {
        let c = v[i];
        let code = c as u32;
        assert(d[i - start] == v@[i as int]);
        if code < 48 || code > 57 {
            assert(!is_ascii_digit(d[i - start]));
            return None;
        }
        let digit = (code - 48) as u64;
        let ghost prev = d.subrange(0, i - start);
        assert(d.subrange(0, i + 1 - start).drop_last() == prev);
        if digit > max || value > (max - digit) / 10 {
            proof {
                assert(digits_num(d.subrange(0, i + 1 - start)) == value * 10 + digit);
                assert(value * 10 + digit > max) by (nonlinear_arith)
                    requires
                        digit > max || value > (max - digit) / 10,
                        digit <= 9,
                ;
                if forall|k: int| 0 <= k < d.len() ==> is_ascii_digit(#[trigger] d[k]) {
                    lemma_digits_num_prefix(d, i + 1 - start);
                }
            }
            return None;
        }
        value = value * 10 + digit;
        i += 1;
    }
    assert(d.subrange(0, d.len() as int) == d);
    Some(value)
}

} // verus!
