//! Backup files: their names (`ragdoll-<timestamp>-<trigger>.db`), how a name
//! is read back, and which backups retention keeps.
use vstd::prelude::*;
use vstd::utf8::{encode_utf8, is_ascii_chars, is_ascii_chars_encode_utf8};

use crate::text::{decimal, digit_char, zeros, push_char, chars_ends_with, chars_eq, chars_has, chars_of, chars_slice, chars_starts_with, has_prefix, has_suffix, string_from_chars, push_signed_zero_padded, push_str, push_string, push_zero_padded, signed_zero_padded, str_eq, zero_padded};

verus! {

/// Every backup file name starts with this.
pub const BACKUP_PREFIX: &'static str = "ragdoll-";
/// Every backup file name ends with this.
pub const BACKUP_SUFFIX: &'static str = ".db";

/// What made a backup.
#[derive(Clone, Copy, Debug, PartialEq, Eq, Structural)]
pub enum BackupTrigger {
    Manual,
    Daily,
}

pub open spec fn trigger_name(t: BackupTrigger) -> Seq<char> {
    match t {
        BackupTrigger::Manual => "manual"@,
        BackupTrigger::Daily => "daily"@,
    }
}

pub open spec fn trigger_from_name(s: Seq<char>) -> Option<BackupTrigger> {
    if s == "manual"@ {
        Some(BackupTrigger::Manual)
    } else if s == "daily"@ {
        Some(BackupTrigger::Daily)
    } else {
        None
    }
}

impl BackupTrigger {
    pub fn as_str(self) -> (r: &'static str)
        ensures
            r@ == trigger_name(self),
    {
        match self {
            BackupTrigger::Manual => "manual",
            BackupTrigger::Daily => "daily",
        }
    }

    pub fn parse(s: &str) -> (r: Option<Self>)
        ensures
            r == trigger_from_name(s@),
    {
        let v = chars_of(s);
        if chars_eq(&v, &chars_of("manual")) {
            Some(BackupTrigger::Manual)
        } else if chars_eq(&v, &chars_of("daily")) {
            Some(BackupTrigger::Daily)
        } else {
            None
        }
    }
}

/// A UTC calendar instant with millisecond precision.
#[derive(Clone, Copy, Debug, PartialEq, Eq, Structural)]
pub struct Timestamp {
    pub year: i32,
    pub month: u8,
    pub day: u8,
    pub hour: u8,
    pub minute: u8,
    pub second: u8,
    pub millisecond: u16,
}

/// `YYYYMMDDThhmmssmmmZ`, each field zero-padded.
pub open spec fn timestamp_text(t: Timestamp) -> Seq<char> {
    signed_zero_padded(t.year as int, 4) + zero_padded(t.month as nat, 2) + zero_padded(t.day as nat, 2) + "T"@
        + zero_padded(t.hour as nat, 2) + zero_padded(t.minute as nat, 2) + zero_padded(t.second as nat, 2)
        + zero_padded(t.millisecond as nat, 3) + "Z"@
}

pub fn format_timestamp(now: &Timestamp) -> (r: String)
    ensures
        r@ == timestamp_text(*now),
{
    let mut s = String::new();
    push_signed_zero_padded(&mut s, now.year as i64, 4);
    push_zero_padded(&mut s, now.month as u64, 2);
    push_zero_padded(&mut s, now.day as u64, 2);
    push_str(&mut s, "T");
    push_zero_padded(&mut s, now.hour as u64, 2);
    push_zero_padded(&mut s, now.minute as u64, 2);
    push_zero_padded(&mut s, now.second as u64, 2);
    push_zero_padded(&mut s, now.millisecond as u64, 3);
    push_str(&mut s, "Z");
    s
}

/// The file name of a backup made by `trigger` at `now`.
pub open spec fn backup_name(trigger: BackupTrigger, now: Timestamp) -> Seq<char> {
    "ragdoll-"@ + timestamp_text(now) + "-"@ + trigger_name(trigger) + ".db"@
}

pub fn backup_file_name(trigger: BackupTrigger, now: &Timestamp) -> (r: String)
    ensures
        r@ == backup_name(trigger, *now),
{
    let mut s = String::new();
    push_str(&mut s, BACKUP_PREFIX);
    let ts = format_timestamp(now);
    push_string(&mut s, &ts);
    push_str(&mut s, "-");
    push_str(&mut s, trigger.as_str());
    push_str(&mut s, BACKUP_SUFFIX);
    s
}

/// Whether `y` is a leap year of the proleptic Gregorian calendar.
pub open spec fn is_leap_year(y: int) -> bool {
    (y % 4 == 0 && y % 100 != 0) || y % 400 == 0
}

/// Days in month `m` (1 to 12) of year `y`.
pub open spec fn days_in_month(y: int, m: int) -> int {
    if m == 2 {
        if is_leap_year(y) { 29 } else { 28 }
    } else if m == 4 || m == 6 || m == 9 || m == 11 {
        30
    } else {
        31
    }
}

/// A date the calendar holds, within the years `time` supports (±9999).
pub open spec fn calendar_date_valid(y: int, m: int, d: int) -> bool {
    -9999 <= y <= 9999 && 1 <= m <= 12 && 1 <= d <= days_in_month(y, m)
}

/// Whether `time::Month::try_from(month)` and then
/// `time::Date::from_calendar_date(year, month, day)` succeed. Trusted: as
/// the crate documents, exactly when the month is 1 to 12, the year within
/// ±9999 and the day within the month.
#[verifier::external_body]
fn calendar_date_exists(year: i32, month: u8, day: u8) -> (r: bool)
    ensures
        r == calendar_date_valid(year as int, month as int, day as int),
{
    time::Month::try_from(month).ok().and_then(|m| time::Date::from_calendar_date(year, m, day).ok()).is_some()
}

/// Whether `time::Time::from_hms_milli(hour, minute, second, millisecond)`
/// succeeds. Trusted: as the crate documents, exactly when each component
/// is in range (milliseconds below 1000 are required here).
#[verifier::external_body]
fn clock_time_exists(hour: u8, minute: u8, second: u8, millisecond: u16) -> (r: bool)
    requires
        millisecond < 1000,
    ensures
        r == (hour < 24 && minute < 60 && second < 60),
{
    time::Time::from_hms_milli(hour, minute, second, millisecond).is_ok()
}

/// The value of the ASCII decimal digits `d`.
pub open spec fn digits_value(d: Seq<u8>) -> nat
    decreases d.len(),
{
    if d.len() == 0 {
        0
    } else {
        digits_value(d.drop_last()) * 10 + (d.last() - 48) as nat
    }
}

/// Whether every byte of `d` is an ASCII digit.
pub open spec fn all_digits(d: Seq<u8>) -> bool {
    forall|i: int| 0 <= i < d.len() ==> 48 <= #[trigger] d[i] <= 57
}

/// How many leading sign bytes `str::parse` takes from `s`: a `+`, or a `-`
/// when the target type is signed.
pub open spec fn sign_len(s: Seq<u8>, signed: bool) -> int {
    if s.len() > 0 && (s[0] == 43 || (signed && s[0] == 45)) { 1 } else { 0 }
}

/// The integer that `str::parse` reads from the bytes `s`: an optional `+`
/// (or `-` when signed) and at least one ASCII digit, nothing else.
pub open spec fn int_text(s: Seq<u8>, signed: bool) -> Option<int> {
    let d = s.subrange(sign_len(s, signed), s.len() as int);
    if d.len() == 0 || !all_digits(d) {
        None
    } else if signed && s[0] == 45 {
        Some(-(digits_value(d) as int))
    } else {
        Some(digits_value(d) as int)
    }
}

/// Whether byte index `i` is a character boundary of the UTF-8 bytes `b`
/// (as `str::is_char_boundary` decides).
pub open spec fn char_boundary(b: Seq<u8>, i: int) -> bool {
    i == 0 || i == b.len() || (0 <= i < b.len() && !(0x80 <= b[i] <= 0xbf))
}

/// How reading a backup name (or its timestamp) ends: slicing the text off
/// a character boundary panics, otherwise it is refused or read.
pub enum NameParse<T> {
    Panics,
    Rejected,
    Parsed(T),
}

pub open spec fn small_pow10(k: int) -> int {
    if k <= 0 {
        1
    } else if k == 1 {
        10
    } else if k == 2 {
        100
    } else if k == 3 {
        1000
    } else {
        10000
    }
}

/// Reads the timestamp from the UTF-8 bytes `b` (16 or 19 of them) of the
/// middle part of a backup name, as the fields are sliced and parsed in turn.
pub open spec fn parse_timestamp_bytes(b: Seq<u8>) -> NameParse<Timestamp> {
    if !char_boundary(b, 4) {
        NameParse::Panics
    } else {
        match int_text(b.subrange(0, 4), true) {
            None => NameParse::Rejected,
            Some(year) => if !char_boundary(b, 6) {
                NameParse::Panics
            } else {
                match int_text(b.subrange(4, 6), false) {
                    None => NameParse::Rejected,
                    Some(month) => if !char_boundary(b, 8) {
                        NameParse::Panics
                    } else {
                        match int_text(b.subrange(6, 8), false) {
                            None => NameParse::Rejected,
                            Some(day) => if !char_boundary(b, 9) || !char_boundary(b, 11) {
                                NameParse::Panics
                            } else {
                                match int_text(b.subrange(9, 11), false) {
                                    None => NameParse::Rejected,
                                    Some(hour) => if !char_boundary(b, 13) {
                                        NameParse::Panics
                                    } else {
                                        match int_text(b.subrange(11, 13), false) {
                                            None => NameParse::Rejected,
                                            Some(minute) => if !char_boundary(b, 15) {
                                                NameParse::Panics
                                            } else {
                                                match int_text(b.subrange(13, 15), false) {
                                                    None => NameParse::Rejected,
                                                    Some(second) => {
                                                        let ms_part: NameParse<int> = if b.len() == 19 {
                                                            if !char_boundary(b, 18) {
                                                                NameParse::Panics
                                                            } else {
                                                                match int_text(b.subrange(15, 18), false) {
                                                                    None => NameParse::Rejected,
                                                                    Some(ms) => NameParse::Parsed(ms),
                                                                }
                                                            }
                                                        } else {
                                                            NameParse::Parsed(0)
                                                        };
                                                        match ms_part {
                                                            NameParse::Panics => NameParse::Panics,
                                                            NameParse::Rejected => NameParse::Rejected,
                                                            NameParse::Parsed(ms) => if calendar_date_valid(year, month, day)
                                                                && hour < 24 && minute < 60 && second < 60 {
                                                                NameParse::Parsed(
                                                                    Timestamp {
                                                                        year: year as i32,
                                                                        month: month as u8,
                                                                        day: day as u8,
                                                                        hour: hour as u8,
                                                                        minute: minute as u8,
                                                                        second: second as u8,
                                                                        millisecond: ms as u16,
                                                                    },
                                                                )
                                                            } else {
                                                                NameParse::Rejected
                                                            },
                                                        }
                                                    },
                                                }
                                            },
                                        }
                                    },
                                }
                            },
                        }
                    },
                }
            },
        }
    }
}

fn parse_int_slice(b: &[u8], start: usize, end: usize, signed: bool) -> (r: Option<i32>)
    requires
        start <= end <= b@.len(),
        end - start <= 4,
    ensures
        match r {
            Some(x) => int_text(b@.subrange(start as int, end as int), signed) == Some(x as int),
            None => int_text(b@.subrange(start as int, end as int), signed) is None,
        },
        r matches Some(x) ==> (-small_pow10(end - start) < x < small_pow10(end - start) && (!signed ==> x >= 0)),
{
    let ghost s = b@.subrange(start as int, end as int);
    let mut first = start;
    let mut neg = false;
    if start < end && b[start] == 43u8 {
        first = start + 1;
    } else if signed && start < end && b[start] == 45u8 {
        first = start + 1;
        neg = true;
    }
    let ghost d = b@.subrange(first as int, end as int);
    assert(first - start == sign_len(s, signed));
    assert(d == s.subrange(sign_len(s, signed), s.len() as int));
    if first == end {
        return None;
    }
    let mut value: i32 = 0;
    let mut k: usize = first;
    while k < end
        invariant
            first <= k <= end <= b@.len(),
            end - first <= 4,
            s == b@.subrange(start as int, end as int),
            first - start == sign_len(s, signed),
            d == s.subrange(sign_len(s, signed), s.len() as int),
            d == b@.subrange(first as int, end as int),
            d.len() > 0,
            neg == (signed && s[0] == 45),
            forall|j: int| 0 <= j < k - first ==> 48 <= #[trigger] d[j] <= 57,
            value as int == digits_value(d.subrange(0, k - first)),
            0 <= value < small_pow10(k - first),
        decreases end - k,
    {
        let c = b[k];
        if c < 48u8 || c > 57u8 {
            assert(!(48 <= d[k - first] <= 57));
            assert(!all_digits(d));
            return None;
        }
        let ghost prev = d.subrange(0, k - first);
        value = value * 10 + (c - 48u8) as i32;
        k += 1;
        assert(d.subrange(0, k - first).drop_last() == prev);
    }
    assert(d.subrange(0, end - first) == d);
    assert(all_digits(d));
    assert(small_pow10(end - first) <= small_pow10(end - start));
    if neg {
        Some(-value)
    } else {
        Some(value)
    }
}

fn is_boundary(b: &[u8], i: usize) -> (r: bool)
    ensures
        r == char_boundary(b@, i as int),
{
    i == 0 || i == b.len() || (i < b.len() && !(0x80u8 <= b[i] && b[i] <= 0xbfu8))
}

/// The outcome of a read, with the panic case folded into `None`.
pub open spec fn parsed_or_none<T>(p: NameParse<T>) -> Option<T> {
    match p {
        NameParse::Parsed(t) => Some(t),
        _ => None,
    }
}

/// Reads the timestamp from its UTF-8 bytes (16 or 19 of them), reporting
/// where slicing the text would panic instead of panicking.
fn read_timestamp_bytes(b: &[u8]) -> (r: NameParse<Timestamp>)
    requires
        b@.len() == 16 || b@.len() == 19,
    ensures
        r == parse_timestamp_bytes(b@),
        r matches NameParse::Parsed(t) ==> timestamp_valid(t),
{
    if !is_boundary(b, 4) {
        return NameParse::Panics;
    }
    let year = match parse_int_slice(b, 0, 4, true) {
        Some(v) => v,
        None => return NameParse::Rejected,
    };
    if !is_boundary(b, 6) {
        return NameParse::Panics;
    }
    let month = match parse_int_slice(b, 4, 6, false) {
        Some(v) => v,
        None => return NameParse::Rejected,
    };
    if !is_boundary(b, 8) {
        return NameParse::Panics;
    }
    let day = match parse_int_slice(b, 6, 8, false) {
        Some(v) => v,
        None => return NameParse::Rejected,
    };
    if !is_boundary(b, 9) || !is_boundary(b, 11) {
        return NameParse::Panics;
    }
    let hour = match parse_int_slice(b, 9, 11, false) {
        Some(v) => v,
        None => return NameParse::Rejected,
    };
    if !is_boundary(b, 13) {
        return NameParse::Panics;
    }
    let minute = match parse_int_slice(b, 11, 13, false) {
        Some(v) => v,
        None => return NameParse::Rejected,
    };
    if !is_boundary(b, 15) {
        return NameParse::Panics;
    }
    let second = match parse_int_slice(b, 13, 15, false) {
        Some(v) => v,
        None => return NameParse::Rejected,
    };
    let ms = if b.len() == 19 {
        if !is_boundary(b, 18) {
            return NameParse::Panics;
        }
        match parse_int_slice(b, 15, 18, false) {
            Some(v) => v,
            None => return NameParse::Rejected,
        }
    } else {
        0
    };
    if !calendar_date_exists(year, month as u8, day as u8) {
        return NameParse::Rejected;
    }
    if !clock_time_exists(hour as u8, minute as u8, second as u8, ms as u16) {
        return NameParse::Rejected;
    }
    NameParse::Parsed(Timestamp {
        year,
        month: month as u8,
        day: day as u8,
        hour: hour as u8,
        minute: minute as u8,
        second: second as u8,
        millisecond: ms as u16,
    })
}

/// Position of the last `c` in `s`.
pub open spec fn last_index_of(s: Seq<char>, c: char) -> Option<int>
    decreases s.len(),
{
    if s.len() == 0 {
        None
    } else if s.last() == c {
        Some(s.len() - 1)
    } else {
        last_index_of(s.drop_last(), c)
    }
}

fn chars_last_index(v: &Vec<char>, c: char) -> (r: Option<usize>)
    ensures
        match r {
            Some(i) => last_index_of(v@, c) == Some(i as int),
            None => last_index_of(v@, c) is None,
        },
        r matches Some(i) ==> i < v@.len() && v@[i as int] == c,
{
    let mut i = v.len();
    assert(v@.subrange(0, v@.len() as int) == v@);
    while i > 0
        invariant
            i <= v@.len(),
            last_index_of(v@, c) == last_index_of(v@.subrange(0, i as int), c),
        decreases i,
    {
        if v[i - 1] == c {
            return Some(i - 1);
        }
        assert(v@.subrange(0, i as int).drop_last() == v@.subrange(0, i - 1));
        i -= 1;
    }
    assert(v@.subrange(0, 0).len() == 0);
    None
}

/// What lies between the prefix and the suffix of a backup name.
pub open spec fn name_stem(name: Seq<char>) -> Option<Seq<char>> {
    let rest = name.subrange("ragdoll-"@.len() as int, name.len() as int);
    if has_prefix(name, "ragdoll-"@) && has_suffix(rest, ".db"@) {
        Some(rest.subrange(0, rest.len() - ".db"@.len()))
    } else {
        None
    }
}

/// How a backup file name is read: the stem is split at its last `-` into
/// a timestamp and a trigger, and the timestamp (16 or 19 bytes, ending in
/// `Z`) is sliced into fields by byte position.
pub open spec fn parse_backup_name(name: Seq<char>) -> NameParse<(Timestamp, BackupTrigger)> {
    match name_stem(name) {
        None => NameParse::Rejected,
        Some(stem) => match last_index_of(stem, '-') {
            None => NameParse::Rejected,
            Some(i) => {
                let ts = stem.subrange(0, i);
                let b = encode_utf8(ts);
                match trigger_from_name(stem.subrange(i + 1, stem.len() as int)) {
                    None => NameParse::Rejected,
                    Some(t) => if !(b.len() == 16 || b.len() == 19) || !(ts.len() > 0 && ts.last() == 'Z') {
                        NameParse::Rejected
                    } else {
                        match parse_timestamp_bytes(b) {
                            NameParse::Panics => NameParse::Panics,
                            NameParse::Rejected => NameParse::Rejected,
                            NameParse::Parsed(x) => NameParse::Parsed((x, t)),
                        }
                    }
                }
            }
        },
    }
}

/// Reads a backup file name; where slicing the timestamp out by byte
/// offsets would cut through a character, says so instead of panicking.
pub fn read_backup_file_name(file_name: &str) -> (r: NameParse<(Timestamp, BackupTrigger)>)
    ensures
        r == parse_backup_name(file_name@),
        r matches NameParse::Parsed(x) ==> timestamp_valid(x.0),
{
    let v = chars_of(file_name);
    let prefix = chars_of(BACKUP_PREFIX);
    let suffix = chars_of(BACKUP_SUFFIX);
    if !chars_starts_with(&v, &prefix) {
        return NameParse::Rejected;
    }
    let rest = chars_slice(&v, prefix.len(), v.len());
    if !chars_ends_with(&rest, &suffix) {
        return NameParse::Rejected;
    }
    let stem = chars_slice(&rest, 0, rest.len() - suffix.len());
    let i = match chars_last_index(&stem, '-') {
        Some(i) => i,
        None => return NameParse::Rejected,
    };
    let ts = chars_slice(&stem, 0, i);
    let tr = string_from_chars(&chars_slice(&stem, i + 1, stem.len()));
    let trigger = match BackupTrigger::parse(tr.as_str()) {
        Some(t) => t,
        None => return NameParse::Rejected,
    };
    let ts_text = string_from_chars(&ts);
    let b = ts_text.as_str().as_bytes();
    if !(b.len() == 16 || b.len() == 19) || !(ts.len() > 0 && ts[ts.len() - 1] == 'Z') {
        return NameParse::Rejected;
    }
    match read_timestamp_bytes(b) {
        NameParse::Panics => NameParse::Panics,
        NameParse::Rejected => NameParse::Rejected,
        NameParse::Parsed(x) => NameParse::Parsed((x, trigger)),
    }
}

/// Reads a backup file name into its timestamp and trigger.
pub fn parse_backup_file_name(file_name: &str) -> (r: Option<(Timestamp, BackupTrigger)>)
    requires
        !(parse_backup_name(file_name@) is Panics),
    ensures
        r == parsed_or_none(parse_backup_name(file_name@)),
{
    match read_backup_file_name(file_name) {
        NameParse::Parsed(x) => Some(x),
        _ => None,
    }
}

/// Why a backup file name is refused.
#[derive(Clone, Copy, Debug, PartialEq, Eq, Structural)]
pub enum BackupNameError {
    /// The name holds a path separator.
    UnsafePath,
    /// The name is not `ragdoll-<timestamp>-<trigger>.db`.
    BadFormat,
    /// The name is valid but no such backup file exists.
    NotFound,
}

impl BackupNameError {
    pub open spec fn message_spec(self) -> Seq<char> {
        match self {
            BackupNameError::UnsafePath => "invalid backup file name"@,
            BackupNameError::BadFormat => "invalid backup file name format"@,
            BackupNameError::NotFound => "backup not found"@,
        }
    }

    /// The error's text.
    pub fn message(&self) -> (r: String)
        ensures
            r@ == self.message_spec(),
    {
        match self {
            BackupNameError::UnsafePath => String::from_str("invalid backup file name"),
            BackupNameError::BadFormat => String::from_str("invalid backup file name format"),
            BackupNameError::NotFound => String::from_str("backup not found"),
        }
    }
}

/// Whether `name` holds a `/` or a `\\`.
pub open spec fn has_path_separator(name: Seq<char>) -> bool {
    name.contains('/') || name.contains('\\')
}

/// Checks a backup file name taken from a request: no path separators, and
/// the backup name format.
pub fn validate_backup_file_name(file_name: &str) -> (r: Result<(Timestamp, BackupTrigger), BackupNameError>)
    requires
        !has_path_separator(file_name@) ==> !(parse_backup_name(file_name@) is Panics),
    ensures
        has_path_separator(file_name@) ==> r == Err::<(Timestamp, BackupTrigger), BackupNameError>(BackupNameError::UnsafePath),
        !has_path_separator(file_name@) ==> r == match parse_backup_name(file_name@) {
            NameParse::Parsed(x) => Ok(x),
            _ => Err(BackupNameError::BadFormat),
        },
{
    let v = chars_of(file_name);
    if chars_has(&v, '/') || chars_has(&v, '\\') {
        return Err(BackupNameError::UnsafePath);
    }
    match parse_backup_file_name(file_name) {
        Some(x) => Ok(x),
        None => Err(BackupNameError::BadFormat),
    }
}

/// The name a backup is written under before it is renamed into place.
pub fn temp_file_name(final_name: &str) -> (r: String)
    ensures
        r@ == "."@ + final_name@ + ".tmp"@,
{
    let mut s = String::new();
    push_str(&mut s, ".");
    push_str(&mut s, final_name);
    push_str(&mut s, ".tmp");
    s
}

/// The name a backup is copied to, in the backup directory, while it is
/// restored.
pub fn restore_source_name(file_name: &str) -> (r: String)
    ensures
        r@ == ".restore-source-"@ + file_name@ + ".tmp"@,
{
    let mut s = String::new();
    push_str(&mut s, ".restore-source-");
    push_str(&mut s, file_name);
    push_str(&mut s, ".tmp");
    s
}

/// The name the restored database is written under, beside the live one,
/// before it replaces it (`db_file_name` is the live database's file name,
/// `ragdoll.db` when it has none).
pub fn restore_temp_name(db_file_name: Option<&str>) -> (r: String)
    ensures
        r@ == "."@ + match db_file_name {
            Some(n) => n@,
            None => "ragdoll.db"@,
        } + ".restore.tmp"@,
{
    let mut s = String::new();
    push_str(&mut s, ".");
    match db_file_name {
        Some(n) => push_str(&mut s, n),
        None => push_str(&mut s, "ragdoll.db"),
    }
    push_str(&mut s, ".restore.tmp");
    s
}

/// The write-ahead log and shared-memory files SQLite keeps beside a
/// database, which go when the database is replaced.
pub fn wal_sidecars(db_path: &str) -> (r: Vec<String>)
    ensures
        r@.len() == 2,
        r@[0]@ == db_path@ + "-wal"@,
        r@[1]@ == db_path@ + "-shm"@,
{
    let mut wal = String::new();
    push_str(&mut wal, db_path);
    push_str(&mut wal, "-wal");
    let mut shm = String::new();
    push_str(&mut shm, db_path);
    push_str(&mut shm, "-shm");
    let mut r: Vec<String> = Vec::new();
    r.push(wal);
    r.push(shm);
    r
}

/// A database passes its integrity check when SQLite answers `ok`.
pub fn integrity_verdict(result: &str) -> (r: Result<(), String>)
    ensures
        result@ == "ok"@ ==> r is Ok,
        result@ != "ok"@ ==> (r matches Err(m) && m@ == "integrity_check failed: "@ + result@),
{
    if str_eq(result, "ok") {
        Ok(())
    } else {
        let mut m = String::new();
        push_str(&mut m, "integrity_check failed: ");
        push_str(&mut m, result);
        Err(m)
    }
}

/// `s` with each `'` doubled, as an SQL string literal needs.
pub open spec fn sql_quoted(s: Seq<char>) -> Seq<char>
    decreases s.len(),
{
    if s.len() == 0 {
        Seq::empty()
    } else if s.last() == '\'' {
        sql_quoted(s.drop_last()) + seq!['\'', '\'']
    } else {
        sql_quoted(s.drop_last()).push(s.last())
    }
}

/// Escapes a path for use inside an SQL string literal.
pub fn escape_sql_string(path: &str) -> (r: String)
    ensures
        r@ == sql_quoted(path@),
{
    let v = chars_of(path);
    let mut s = String::new();
    let mut i: usize = 0;
    while i < v.len()
        invariant
            i <= v@.len(),
            v@ == path@,
            s@ == sql_quoted(v@.subrange(0, i as int)),
        decreases v@.len() - i,
    {
        let c = v[i];
        assert(v@.subrange(0, i + 1).drop_last() == v@.subrange(0, i as int));
        if c == '\'' {
            push_char(&mut s, '\'');
            push_char(&mut s, '\'');
        } else {
            push_char(&mut s, c);
        }
        i += 1;
    }
    assert(v@.subrange(0, v@.len() as int) == v@);
    s
}

/// The statement that writes a consistent copy of the live database to
/// `path`.
pub fn vacuum_into_sql(path: &str) -> (r: String)
    ensures
        r@ == "VACUUM INTO '"@ + sql_quoted(path@) + "'"@,
{
    let mut s = String::new();
    push_str(&mut s, "VACUUM INTO '");
    let escaped = escape_sql_string(path);
    push_str(&mut s, escaped.as_str());
    push_str(&mut s, "'");
    s
}

/// A backup file as listed to clients.
#[derive(Clone, Debug)]
pub struct BackupInfo {
    pub file_name: String,
    pub trigger: BackupTrigger,
    pub created_at: String,
    pub size_bytes: u64,
}

/// What a restore did.
#[derive(Clone, Debug)]
pub struct RestoreInfo {
    pub restored_from: String,
    pub safety_backup: Option<String>,
    pub restored_at: String,
}

/// How many backups of each trigger are kept.
#[derive(Clone, Copy, Debug, PartialEq, Eq, Structural)]
pub struct BackupRetention {
    pub keep_daily: u32,
    pub keep_manual: u32,
}

/// The backup listing with the retention limits.
#[derive(Clone, Debug)]
pub struct BackupsListResponse {
    pub backups: Vec<BackupInfo>,
    pub retention: BackupRetention,
}

/// The listing response for the backups already listed.
pub fn backups_list_response(backups: Vec<BackupInfo>, keep_daily: u32, keep_manual: u32) -> (r: BackupsListResponse)
    ensures
        r.backups@ == backups@,
        r.retention == (BackupRetention { keep_daily, keep_manual }),
{
    BackupsListResponse { backups, retention: BackupRetention { keep_daily, keep_manual } }
}

/// A timestamp `time` can represent: a valid calendar date and clock time.
pub open spec fn timestamp_valid(t: Timestamp) -> bool {
    &&& calendar_date_valid(t.year as int, t.month as int, t.day as int)
    &&& t.hour < 24 && t.minute < 60 && t.second < 60 && t.millisecond < 1000
}

/// `s` without its trailing `0`s.
pub open spec fn trim_trailing_zeros(s: Seq<char>) -> Seq<char>
    decreases s.len(),
{
    if s.len() > 0 && s.last() == '0' {
        trim_trailing_zeros(s.drop_last())
    } else {
        s
    }
}

/// RFC 3339 text of a UTC timestamp: `YYYY-MM-DDThh:mm:ss`, the fraction
/// of the second without trailing zeros when it is not zero, and `Z`.
pub open spec fn rfc3339_text(t: Timestamp) -> Seq<char> {
    zero_padded(t.year as nat, 4) + "-"@ + zero_padded(t.month as nat, 2) + "-"@ + zero_padded(t.day as nat, 2)
        + "T"@ + zero_padded(t.hour as nat, 2) + ":"@ + zero_padded(t.minute as nat, 2) + ":"@
        + zero_padded(t.second as nat, 2)
        + (if t.millisecond == 0 { Seq::empty() } else { "."@ + trim_trailing_zeros(zero_padded(t.millisecond as nat, 3)) })
        + "Z"@
}

/// `OffsetDateTime::format(&Rfc3339)` on the UTC instant `t`. Trusted: as
/// the crate's source shows, the text above for years 0 to 9999, and an
/// error (here `None`) for other years.
#[verifier::external_body]
fn format_rfc3339(t: &Timestamp) -> (r: Option<String>)
    requires
        timestamp_valid(*t),
    ensures
        match r {
            Some(x) => 0 <= t.year <= 9999 && x@ == rfc3339_text(*t),
            None => !(0 <= t.year <= 9999),
        },
{
    let month = time::Month::try_from(t.month).unwrap();
    let date = time::Date::from_calendar_date(t.year, month, t.day).unwrap();
    let clock = time::Time::from_hms_milli(t.hour, t.minute, t.second, t.millisecond).unwrap();
    time::OffsetDateTime::new_utc(date, clock).format(&time::format_description::well_known::Rfc3339).ok()
}

/// How a backup's creation time is shown: RFC 3339 where it can be written
/// so, the compact timestamp otherwise.
pub open spec fn created_at_text(t: Timestamp) -> Seq<char> {
    if 0 <= t.year <= 9999 {
        rfc3339_text(t)
    } else {
        timestamp_text(t)
    }
}

pub fn created_at_string(t: &Timestamp) -> (r: String)
    requires
        timestamp_valid(*t),
    ensures
        r@ == created_at_text(*t),
{
    match format_rfc3339(t) {
        Some(x) => x,
        None => format_timestamp(t),
    }
}

/// A listed backup as plain values: name, trigger, creation text, size.
pub type BackupInfoView = (Seq<char>, BackupTrigger, Seq<char>, u64);

pub open spec fn info_view(b: BackupInfo) -> BackupInfoView {
    (b.file_name@, b.trigger, b.created_at@, b.size_bytes)
}

/// Whether a file named `name` of `size` bytes is listed, and how.
pub open spec fn listed_entry(name: Seq<char>, size: u64) -> Option<BackupInfoView> {
    if (name.len() > 0 && name[0] == '.') || !has_prefix(name, "ragdoll-"@) {
        None
    } else {
        match parse_backup_name(name) {
            NameParse::Parsed((ts, t)) => Some((name, t, created_at_text(ts), size)),
            _ => None,
        }
    }
}

/// `a` sorts before `b`, comparing characters in turn.
pub open spec fn text_lt(a: Seq<char>, b: Seq<char>) -> bool
    decreases a.len(),
{
    if a.len() == 0 {
        b.len() > 0
    } else if b.len() == 0 {
        false
    } else if a[0] != b[0] {
        (a[0] as u32) < (b[0] as u32)
    } else {
        text_lt(a.drop_first(), b.drop_first())
    }
}

/// `text_lt` is a strict total order: irreflexive, asymmetric, and it
/// relates any two different texts one way or the other.
pub proof fn lemma_text_lt_strict_total(a: Seq<char>, b: Seq<char>)
    ensures
        !text_lt(a, a),
        text_lt(a, b) ==> !text_lt(b, a),
        a != b ==> text_lt(a, b) || text_lt(b, a),
    decreases a.len(),
{
    if a.len() > 0 {
        lemma_text_lt_strict_total(a.drop_first(), a.drop_first());
        if b.len() > 0 {
            vstd::utf8::char_u32_cast(a[0], a[0] as u32);
            vstd::utf8::char_u32_cast(b[0], b[0] as u32);
            lemma_text_lt_strict_total(a.drop_first(), b.drop_first());
            if a[0] == b[0] && a != b {
                assert(a.drop_first() != b.drop_first()) by {
                    if a.drop_first() == b.drop_first() {
                        assert(a =~= seq![a[0]] + a.drop_first());
                        assert(b =~= seq![b[0]] + b.drop_first());
                    }
                }
            }
        }
    } else if b.len() > 0 {
    } else {
        assert(a =~= b);
    }
}

/// Inserts `x` into `s` (newest name first) after every entry whose name
/// is not smaller.
pub open spec fn insert_by_name(s: Seq<BackupInfoView>, x: BackupInfoView) -> Seq<BackupInfoView>
    decreases s.len(),
{
    if s.len() == 0 {
        seq![x]
    } else if text_lt(s[0].0, x.0) {
        seq![x] + s
    } else {
        seq![s[0]] + insert_by_name(s.drop_first(), x)
    }
}

/// The listing order: names from largest to smallest, equal names in the
/// order found (a stable sort).
pub open spec fn sort_by_name(s: Seq<BackupInfoView>) -> Seq<BackupInfoView>
    decreases s.len(),
{
    if s.len() == 0 {
        s
    } else {
        insert_by_name(sort_by_name(s.drop_last()), s.last())
    }
}

/// `s` runs from the largest name to the smallest (equal names allowed).
pub open spec fn sorted_by_name(s: Seq<BackupInfoView>) -> bool {
    forall|i: int| 0 <= i < s.len() - 1 ==> !text_lt(#[trigger] s[i].0, s[i + 1].0)
}

proof fn lemma_insert_by_name_sorted(s: Seq<BackupInfoView>, x: BackupInfoView)
    requires
        sorted_by_name(s),
    ensures
        sorted_by_name(insert_by_name(s, x)),
        insert_by_name(s, x).to_multiset() == s.to_multiset().insert(x),
        insert_by_name(s, x).len() == s.len() + 1,
        insert_by_name(s, x)[0] == x || insert_by_name(s, x)[0] == s[0],
    decreases s.len(),
{
    broadcast use vstd::seq_lib::group_to_multiset_ensures;

    let r = insert_by_name(s, x);
    if s.len() == 0 {
        assert(r =~= seq![x]);
        assert(seq![x] =~= Seq::<BackupInfoView>::empty().push(x));
    } else if text_lt(s[0].0, x.0) {
        lemma_text_lt_strict_total(s[0].0, x.0);
        assert(r =~= s.insert(0, x));
        assert forall|i: int| 0 <= i < r.len() - 1 implies !text_lt(#[trigger] r[i].0, r[i + 1].0) by {
            if i > 0 {
                assert(r[i] == s[i - 1] && r[i + 1] == s[i]);
            }
        }
    } else {
        let rest = s.drop_first();
        assert(sorted_by_name(rest)) by {
            assert forall|i: int| 0 <= i < rest.len() - 1 implies !text_lt(#[trigger] rest[i].0, rest[i + 1].0) by {
                assert(rest[i] == s[i + 1] && rest[i + 1] == s[i + 2]);
            }
        }
        lemma_insert_by_name_sorted(rest, x);
        let ri = insert_by_name(rest, x);
        assert(r == seq![s[0]] + ri);
        assert forall|i: int| 0 <= i < r.len() - 1 implies !text_lt(#[trigger] r[i].0, r[i + 1].0) by {
            if i == 0 {
                assert(r[1] == ri[0]);
                if ri[0] != x {
                    assert(ri[0] == rest[0] && rest[0] == s[1]);
                }
            } else {
                assert(r[i] == ri[i - 1] && r[i + 1] == ri[i]);
            }
        }
        assert(s == seq![s[0]] + rest);
        assert(r.to_multiset() =~= s.to_multiset().insert(x)) by {
            vstd::seq_lib::lemma_multiset_commutative(seq![s[0]], ri);
            vstd::seq_lib::lemma_multiset_commutative(seq![s[0]], rest);
        }
    }
}

/// The listing order sorts: what `sort_by_name` gives runs from the
/// largest name to the smallest and holds the same entries, each as often.
pub proof fn lemma_listing_is_sorted_permutation(s: Seq<BackupInfoView>)
    ensures
        sorted_by_name(sort_by_name(s)),
        sort_by_name(s).to_multiset() == s.to_multiset(),
    decreases s.len(),
{
    broadcast use vstd::seq_lib::group_to_multiset_ensures;

    if s.len() > 0 {
        lemma_listing_is_sorted_permutation(s.drop_last());
        lemma_insert_by_name_sorted(sort_by_name(s.drop_last()), s.last());
        assert(s == s.drop_last().push(s.last()));
    } else {
        assert(sort_by_name(s).to_multiset() =~= s.to_multiset());
    }
}

/// The entries of a backup directory that are listed, in the order found.
pub open spec fn listed_entries(entries: Seq<(String, u64)>) -> Seq<BackupInfoView>
    decreases entries.len(),
{
    if entries.len() == 0 {
        Seq::empty()
    } else {
        let rest = listed_entries(entries.drop_last());
        match listed_entry(entries.last().0@, entries.last().1) {
            Some(v) => rest.push(v),
            None => rest,
        }
    }
}

proof fn lemma_insert_by_name(s: Seq<BackupInfoView>, x: BackupInfoView, k: int)
    requires
        0 <= k <= s.len(),
        forall|j: int| 0 <= j < k ==> !text_lt(#[trigger] s[j].0, x.0),
        k < s.len() ==> text_lt(s[k].0, x.0),
    ensures
        insert_by_name(s, x) == s.insert(k, x),
    decreases k,
{
    if s.len() == 0 {
        assert(s.insert(k, x) =~= seq![x]);
    } else if k == 0 {
        assert(s.insert(k, x) =~= seq![x] + s);
    } else {
        assert forall|j: int| 0 <= j < k - 1 implies !text_lt(#[trigger] s.drop_first()[j].0, x.0) by {
            assert(s.drop_first()[j] == s[j + 1]);
        }
        lemma_insert_by_name(s.drop_first(), x, k - 1);
        assert(s.insert(k, x) =~= seq![s[0]] + s.drop_first().insert(k - 1, x));
    }
}

pub(crate) fn text_less(a: &str, b: &str) -> (r: bool)
    ensures
        r == text_lt(a@, b@),
{
    let va = chars_of(a);
    let vb = chars_of(b);
    let mut i: usize = 0;
    assert(va@.subrange(0, va@.len() as int) == a@);
    assert(vb@.subrange(0, vb@.len() as int) == b@);
    while i < va.len() && i < vb.len()
        invariant
            i <= va@.len(),
            i <= vb@.len(),
            text_lt(a@, b@) == text_lt(va@.subrange(i as int, va@.len() as int), vb@.subrange(i as int, vb@.len() as int)),
        decreases va@.len() - i,
    {
        let ghost sa = va@.subrange(i as int, va@.len() as int);
        let ghost sb = vb@.subrange(i as int, vb@.len() as int);
        if va[i] != vb[i] {
            assert(sa[0] == va@[i as int] && sb[0] == vb@[i as int]);
            return (va[i] as u32) < (vb[i] as u32);
        }
        assert(sa.drop_first() == va@.subrange(i + 1, va@.len() as int));
        assert(sb.drop_first() == vb@.subrange(i + 1, vb@.len() as int));
        i += 1;
    }
    va.len() == i && i < vb.len()
}

/// Builds the backup listing from the entries of the backup directory
/// (name and size of each file): files not named like backups are left
/// out, and the rest come newest name first.
pub fn list_backups(entries: &Vec<(String, u64)>) -> (r: Vec<BackupInfo>)
    requires
        forall|i: int| 0 <= i < entries@.len() ==> !(parse_backup_name(#[trigger] entries@[i].0@) is Panics),
    ensures
        r@.map_values(|b: BackupInfo| info_view(b)) == sort_by_name(listed_entries(entries@)),
{
    let mut r: Vec<BackupInfo> = Vec::new();
    let mut n: usize = 0;
    while n < entries.len()
        invariant
            n <= entries@.len(),
            forall|i: int| 0 <= i < entries@.len() ==> !(parse_backup_name(#[trigger] entries@[i].0@) is Panics),
            r@.map_values(|b: BackupInfo| info_view(b)) == sort_by_name(listed_entries(entries@.subrange(0, n as int))),
        decreases entries@.len() - n,
    {
        let ghost before = entries@.subrange(0, n as int);
        let ghost cur = entries@.subrange(0, n + 1);
        assert(cur.drop_last() == before);
        assert(cur.last() == entries@[n as int]);
        let name = entries[n].0.as_str();
        let size = entries[n].1;
        let v = chars_of(name);
        let dotted = v.len() > 0 && v[0] == '.';
        let prefixed = chars_starts_with(&v, &chars_of(BACKUP_PREFIX));
        let mut added = false;
        if !dotted && prefixed {
            assert(!(parse_backup_name(entries@[n as int].0@) is Panics));
            match read_backup_file_name(name) {
                NameParse::Parsed((ts, trigger)) => {
                    let info = BackupInfo {
                        file_name: String::from_str(name),
                        trigger,
                        created_at: created_at_string(&ts),
                        size_bytes: size,
                    };
                    assert(listed_entry(name@, size) == Some(info_view(info)));
                    let ghost old_views = r@.map_values(|b: BackupInfo| info_view(b));
                    let mut k: usize = 0;
                    while k < r.len() && !text_less(r[k].file_name.as_str(), name)
                        invariant
                            k <= r@.len(),
                            old_views == r@.map_values(|b: BackupInfo| info_view(b)),
                            info_view(info).0 == name@,
                            forall|j: int| 0 <= j < k ==> !text_lt(#[trigger] old_views[j].0, name@),
                        decreases r@.len() - k,
                    {
                        k += 1;
                    }
                    proof {
                        lemma_insert_by_name(old_views, info_view(info), k as int);
                        let lb = listed_entries(before);
                        assert(listed_entries(cur) == lb.push(info_view(info)));
                        assert(lb.push(info_view(info)).drop_last() == lb);
                    }
                    r.insert(k, info);
                    assert(r@.map_values(|b: BackupInfo| info_view(b)) =~= old_views.insert(k as int, info_view(info)));
                    added = true;
                }
                _ => {}
            }
        }
        if !added {
            assert(listed_entry(name@, size) is None);
            assert(listed_entries(cur) == listed_entries(before));
        }
        n += 1;
    }
    assert(entries@.subrange(0, entries@.len() as int) == entries@);
    r
}

/// The creation time read back from a backup's name.
pub open spec fn name_time(name: Seq<char>) -> Option<Timestamp> {
    match parse_backup_name(name) {
        NameParse::Parsed((ts, _)) => Some(ts),
        _ => None,
    }
}

/// `a` is an earlier instant than `b`.
pub open spec fn ts_before(a: Timestamp, b: Timestamp) -> bool {
    if a.year != b.year {
        a.year < b.year
    } else if a.month != b.month {
        a.month < b.month
    } else if a.day != b.day {
        a.day < b.day
    } else if a.hour != b.hour {
        a.hour < b.hour
    } else if a.minute != b.minute {
        a.minute < b.minute
    } else if a.second != b.second {
        a.second < b.second
    } else {
        a.millisecond < b.millisecond
    }
}

/// `a` is later than `b`; a time that could not be read counts as earliest.
pub open spec fn time_after(a: Option<Timestamp>, b: Option<Timestamp>) -> bool {
    match (a, b) {
        (Some(x), Some(y)) => ts_before(y, x),
        (Some(_), None) => true,
        _ => false,
    }
}

fn is_after(a: Option<Timestamp>, b: Option<Timestamp>) -> (r: bool)
    ensures
        r == time_after(a, b),
{
    match (a, b) {
        (Some(x), Some(y)) => {
            if y.year != x.year {
                y.year < x.year
            } else if y.month != x.month {
                y.month < x.month
            } else if y.day != x.day {
                y.day < x.day
            } else if y.hour != x.hour {
                y.hour < x.hour
            } else if y.minute != x.minute {
                y.minute < x.minute
            } else if y.second != x.second {
                y.second < x.second
            } else {
                y.millisecond < x.millisecond
            }
        },
        (Some(_), None) => true,
        _ => false,
    }
}

/// Once `m` is sorted newest first (equal times keeping their order),
/// entry `i` stands ahead of entry `j`.
pub open spec fn ranked_ahead(m: Seq<Option<Timestamp>>, i: int, j: int) -> bool {
    time_after(m[i], m[j]) || (i < j && m[i] == m[j])
}

/// How many of the first `n` entries of `m` stand ahead of entry `j`.
pub open spec fn count_ahead(m: Seq<Option<Timestamp>>, j: int, n: int) -> nat
    decreases n,
{
    if n <= 0 {
        0
    } else {
        count_ahead(m, j, n - 1) + if ranked_ahead(m, n - 1, j) { 1nat } else { 0nat }
    }
}

proof fn lemma_ranked_ahead_order(m: Seq<Option<Timestamp>>, i: int, j: int, k: int)
    ensures
        !ranked_ahead(m, i, i),
        ranked_ahead(m, i, j) && ranked_ahead(m, j, k) ==> ranked_ahead(m, i, k),
{
}

proof fn lemma_count_ahead_bound(m: Seq<Option<Timestamp>>, j: int, n: int)
    requires
        0 <= j < m.len(),
        0 <= n <= m.len(),
    ensures
        count_ahead(m, j, n) <= n,
        j < n ==> count_ahead(m, j, n) < n,
    decreases n,
{
    lemma_ranked_ahead_order(m, j, j, j);
    if n > 0 {
        lemma_count_ahead_bound(m, j, n - 1);
    }
}

proof fn lemma_count_ahead_grows(m: Seq<Option<Timestamp>>, j: int, k: int, n: int)
    requires
        0 <= j < m.len(),
        0 <= k < m.len(),
        0 <= n <= m.len(),
        ranked_ahead(m, j, k),
    ensures
        count_ahead(m, k, n) >= count_ahead(m, j, n) + if j < n { 1int } else { 0int },
    decreases n,
{
    if n > 0 {
        lemma_count_ahead_grows(m, j, k, n - 1);
        lemma_ranked_ahead_order(m, n - 1, j, k);
        lemma_ranked_ahead_order(m, j, j, j);
    }
}

/// Retention never deletes a backup that is newer than one it keeps: of the
/// backups of one trigger (their times `m`), one at position `keep` or later
/// once sorted (pruned) is never later than one before it (kept).
pub proof fn lemma_retention_keeps_newest(m: Seq<Option<Timestamp>>, j: int, k: int, keep: nat)
    requires
        0 <= j < m.len(),
        0 <= k < m.len(),
        count_ahead(m, j, m.len() as int) >= keep,
        count_ahead(m, k, m.len() as int) < keep,
    ensures
        !time_after(m[j], m[k]),
{
    if time_after(m[j], m[k]) {
        lemma_count_ahead_grows(m, j, k, m.len() as int);
    }
}

/// Retention deletes nothing while there are at most `keep` backups of the
/// trigger.
pub proof fn lemma_retention_within_limit(s: Seq<BackupInfoView>, trigger: BackupTrigger, keep: nat)
    requires
        of_trigger(s, trigger).len() <= keep,
    ensures
        prune_targets(s, trigger, keep).len() == 0,
{
    let m = of_trigger(s, trigger);
    let times = m.map_values(|b: BackupInfoView| name_time(b.0));
    let names = m.map_values(|b: BackupInfoView| b.0);
    lemma_beyond_keep_empty(names, times, keep, m.len() as int);
}

proof fn lemma_beyond_keep_empty(names: Seq<Seq<char>>, times: Seq<Option<Timestamp>>, keep: nat, n: int)
    requires
        0 <= n <= times.len(),
        times.len() <= keep,
    ensures
        beyond_keep(names, times, keep, n).len() == 0,
    decreases n,
{
    if n > 0 {
        lemma_count_ahead_bound(times, n - 1, times.len() as int);
        lemma_beyond_keep_empty(names, times, keep, n - 1);
    }
}

proof fn lemma_ranked_ahead_total(m: Seq<Option<Timestamp>>, j: int, k: int)
    requires
        j != k,
    ensures
        ranked_ahead(m, j, k) || ranked_ahead(m, k, j),
{
    if m[j] != m[k] {
        match (m[j], m[k]) {
            (Some(x), Some(y)) => {
                assert(x != y);
            },
            _ => {},
        }
    }
}

/// The first `n` entries of `m` that stand at position `keep` or later once
/// `m` is sorted newest first.
spec fn ranked_from(m: Seq<Option<Timestamp>>, keep: nat, n: int) -> Set<int> {
    Set::new(|j: int| 0 <= j < n && count_ahead(m, j, m.len() as int) >= keep)
}

proof fn lemma_beyond_keep_len(names: Seq<Seq<char>>, times: Seq<Option<Timestamp>>, keep: nat, n: int)
    requires
        0 <= n <= times.len(),
    ensures
        ranked_from(times, keep, n).finite(),
        beyond_keep(names, times, keep, n).len() == ranked_from(times, keep, n).len(),
    decreases n,
{
    if n == 0 {
        assert(ranked_from(times, keep, 0) =~= Set::<int>::empty());
    } else {
        lemma_beyond_keep_len(names, times, keep, n - 1);
        if count_ahead(times, n - 1, times.len() as int) >= keep {
            assert(ranked_from(times, keep, n) =~= ranked_from(times, keep, n - 1).insert(n - 1));
        } else {
            assert(ranked_from(times, keep, n) =~= ranked_from(times, keep, n - 1));
        }
    }
}

/// Of the `m.len()` entries, `m.len() - min(keep, m.len())` stand at
/// position `keep` or later once sorted: the positions are a permutation.
proof fn lemma_ranked_from_len(m: Seq<Option<Timestamp>>, keep: nat)
    ensures
        ranked_from(m, keep, m.len() as int).finite(),
        ranked_from(m, keep, m.len() as int).len() == m.len() - kept_count(m.len(), keep),
{
    let len = m.len() as int;
    let f = |j: int| count_ahead(m, j, len) as int;
    let dom = vstd::set_lib::set_int_range(0, len);
    let low = kept_count(m.len(), keep) as int;
    vstd::set_lib::lemma_int_range(0, len);
    vstd::set_lib::lemma_int_range(low, len);
    assert forall|j: int, k: int| dom.contains(j) && dom.contains(k) && #[trigger] f(j) == #[trigger] f(k) implies j == k by {
        if j != k {
            lemma_ranked_ahead_total(m, j, k);
            if ranked_ahead(m, j, k) {
                lemma_count_ahead_grows(m, j, k, len);
            } else {
                lemma_count_ahead_grows(m, k, j, len);
            }
        }
    }
    assert(vstd::relations::injective_on(f, dom));
    assert forall|x: int| dom.map(f).contains(x) implies vstd::set_lib::set_int_range(0, len).contains(x) by {
        let j = choose|j: int| dom.contains(j) && f(j) == x;
        lemma_count_ahead_bound(m, j, len);
    }
    vstd::set_lib::lemma_map_size(dom, dom.map(f), f);
    vstd::set_lib::lemma_subset_equality(dom.map(f), vstd::set_lib::set_int_range(0, len));
    let hi = ranked_from(m, keep, len);
    assert(hi.subset_of(dom));
    vstd::set_lib::lemma_len_subset(hi, dom);
    assert(hi.map(f) =~= vstd::set_lib::set_int_range(low, len)) by {
        assert forall|x: int| hi.map(f).contains(x) implies vstd::set_lib::set_int_range(low, len).contains(x) by {
            let j = choose|j: int| hi.contains(j) && f(j) == x;
            lemma_count_ahead_bound(m, j, len);
        }
        assert forall|x: int| vstd::set_lib::set_int_range(low, len).contains(x) implies hi.map(f).contains(x) by {
            assert(vstd::set_lib::set_int_range(0, len).contains(x));
            assert(dom.map(f).contains(x));
            let j = choose|j: int| dom.contains(j) && f(j) == x;
            assert(hi.contains(j));
        }
    }
    assert(vstd::relations::injective_on(f, hi));
    vstd::set_lib::lemma_map_size(hi, hi.map(f), f);
}

proof fn lemma_beyond_keep_from(names: Seq<Seq<char>>, times: Seq<Option<Timestamp>>, keep: nat, n: int)
    requires
        0 <= n <= names.len(),
    ensures
        forall|i: int|
            0 <= i < beyond_keep(names, times, keep, n).len() ==> exists|j: int|
                #![trigger names[j]]
                0 <= j < n && names[j] == #[trigger] beyond_keep(names, times, keep, n)[i],
    decreases n,
{
    if n > 0 {
        lemma_beyond_keep_from(names, times, keep, n - 1);
        let prev = beyond_keep(names, times, keep, n - 1);
        let cur = beyond_keep(names, times, keep, n);
        if count_ahead(times, n - 1, times.len() as int) >= keep {
            assert(cur == prev.push(names[n - 1]));
        } else {
            assert(cur == prev);
        }
        assert forall|i: int| 0 <= i < cur.len() implies exists|j: int| #![trigger names[j]] 0 <= j < n && names[j] == #[trigger] cur[i] by {
            if i < prev.len() {
                assert(cur[i] == prev[i]);
                let j = choose|j: int| #![trigger names[j]] 0 <= j < n - 1 && names[j] == prev[i];
                assert(0 <= j < n && names[j] == cur[i]);
            } else {
                assert(cur[i] == names[n - 1]);
            }
        }
    } else {
        assert(beyond_keep(names, times, keep, n).len() == 0);
    }
}

proof fn lemma_of_trigger_from(s: Seq<BackupInfoView>, trigger: BackupTrigger)
    ensures
        forall|i: int|
            0 <= i < of_trigger(s, trigger).len() ==> (#[trigger] of_trigger(s, trigger)[i]).1 == trigger && s.contains(
                of_trigger(s, trigger)[i],
            ),
    decreases s.len(),
{
    if s.len() > 0 {
        lemma_of_trigger_from(s.drop_last(), trigger);
        let prev = of_trigger(s.drop_last(), trigger);
        let cur = of_trigger(s, trigger);
        assert forall|i: int| 0 <= i < cur.len() implies (#[trigger] cur[i]).1 == trigger && s.contains(cur[i]) by {
            if i < prev.len() {
                assert(cur[i] == prev[i]);
                let k = choose|k: int| 0 <= k < s.drop_last().len() && s.drop_last()[k] == prev[i];
                assert(s[k] == cur[i]);
            } else {
                assert(cur[i] == s.last());
                assert(s[s.len() - 1] == cur[i]);
            }
        }
    }
}

/// Retention deletes only backups of the trigger, each named in the list:
/// backups of the other trigger and other files stay.
pub proof fn lemma_retention_only_trigger(s: Seq<BackupInfoView>, trigger: BackupTrigger, keep: nat)
    ensures
        forall|i: int|
            0 <= i < prune_targets(s, trigger, keep).len() ==> exists|j: int|
                #![trigger s[j]]
                0 <= j < s.len() && s[j].1 == trigger && s[j].0 == #[trigger] prune_targets(s, trigger, keep)[i],
{
    let m = of_trigger(s, trigger);
    let names = m.map_values(|b: BackupInfoView| b.0);
    let times = m.map_values(|b: BackupInfoView| name_time(b.0));
    lemma_beyond_keep_from(names, times, keep, m.len() as int);
    lemma_of_trigger_from(s, trigger);
    let p = prune_targets(s, trigger, keep);
    assert forall|i: int| 0 <= i < p.len() implies exists|j: int|
        #![trigger s[j]]
        0 <= j < s.len() && s[j].1 == trigger && s[j].0 == #[trigger] p[i] by {
        let k = choose|k: int| 0 <= k < m.len() && names[k] == p[i];
        assert(m[k].1 == trigger && s.contains(m[k]));
        let j = choose|j: int| 0 <= j < s.len() && s[j] == m[k];
        assert(s[j].0 == p[i]);
    }
}

/// How many backups of a trigger retention keeps: `keep`, or all of them
/// when there are fewer.
pub open spec fn kept_count(n: nat, keep: nat) -> nat {
    if keep <= n {
        keep
    } else {
        n
    }
}

/// Retention keeps exactly `min(keep, n)` of the `n` backups of the trigger
/// and deletes the others (which ones stay is `lemma_retention_keeps_newest`).
pub proof fn lemma_retention_count(s: Seq<BackupInfoView>, trigger: BackupTrigger, keep: nat)
    ensures
        prune_targets(s, trigger, keep).len() + kept_count(of_trigger(s, trigger).len(), keep) == of_trigger(s, trigger).len(),
{
    let m = of_trigger(s, trigger);
    let times = m.map_values(|b: BackupInfoView| name_time(b.0));
    let names = m.map_values(|b: BackupInfoView| b.0);
    lemma_beyond_keep_len(names, times, keep, m.len() as int);
    lemma_ranked_from_len(times, keep);
}

/// The backups of `trigger` in `s`, in order.
pub open spec fn of_trigger(s: Seq<BackupInfoView>, trigger: BackupTrigger) -> Seq<BackupInfoView>
    decreases s.len(),
{
    if s.len() == 0 {
        s
    } else if s.last().1 == trigger {
        of_trigger(s.drop_last(), trigger).push(s.last())
    } else {
        of_trigger(s.drop_last(), trigger)
    }
}

/// The names among the first `n` of `names` that stand at position `keep`
/// or later once sorted newest first by `times`.
pub open spec fn beyond_keep(names: Seq<Seq<char>>, times: Seq<Option<Timestamp>>, keep: nat, n: int) -> Seq<Seq<char>>
    decreases n,
{
    if n <= 0 {
        Seq::empty()
    } else if count_ahead(times, n - 1, times.len() as int) >= keep {
        beyond_keep(names, times, keep, n - 1).push(names[n - 1])
    } else {
        beyond_keep(names, times, keep, n - 1)
    }
}

/// The backups that retention removes after a backup of `trigger`: those of
/// that trigger beyond the `keep` newest by the time in their names.
pub open spec fn prune_targets(s: Seq<BackupInfoView>, trigger: BackupTrigger, keep: nat) -> Seq<Seq<char>> {
    let m = of_trigger(s, trigger);
    beyond_keep(m.map_values(|b: BackupInfoView| b.0), m.map_values(|b: BackupInfoView| name_time(b.0)), keep, m.len() as int)
}

/// `name` is the file name of a backup of `trigger` in the list.
pub open spec fn listed_of_trigger(backups: Seq<BackupInfo>, trigger: BackupTrigger, name: Seq<char>) -> bool {
    exists|j: int| 0 <= j < backups.len() && (#[trigger] backups[j]).trigger == trigger && backups[j].file_name@ == name
}

proof fn lemma_pruned_names_listed(backups: Seq<BackupInfo>, r: Seq<String>, trigger: BackupTrigger, keep: nat)
    requires
        r.map_values(|x: String| x@) == prune_targets(backups.map_values(|b: BackupInfo| info_view(b)), trigger, keep),
    ensures
        forall|i: int| 0 <= i < r.len() ==> listed_of_trigger(backups, trigger, (#[trigger] r[i])@),
{
    let views = backups.map_values(|b: BackupInfo| info_view(b));
    let rv = r.map_values(|x: String| x@);
    lemma_retention_only_trigger(views, trigger, keep);
    assert forall|i: int| 0 <= i < r.len() implies listed_of_trigger(backups, trigger, (#[trigger] r[i])@) by {
        assert(rv[i] == r[i]@);
        let j = choose|j: int| #![trigger views[j]] 0 <= j < views.len() && views[j].1 == trigger && views[j].0 == rv[i];
        assert(views[j] == info_view(backups[j]));
        assert(backups[j].trigger == trigger && backups[j].file_name@ == r[i]@);
    }
}

/// The file names that retention deletes from `backups` after a backup of
/// `trigger`, keeping the `keep` newest of that trigger: all of that
/// trigger but `min(keep, n)` of them go, and nothing else.
pub fn backups_to_prune(backups: &Vec<BackupInfo>, trigger: BackupTrigger, keep: u32) -> (r: Vec<String>)
    requires
        forall|i: int| 0 <= i < backups@.len() ==> !(parse_backup_name(#[trigger] backups@[i].file_name@) is Panics),
    ensures
        r@.map_values(|x: String| x@) == prune_targets(backups@.map_values(|b: BackupInfo| info_view(b)), trigger, keep as nat),
        r@.len() + kept_count(of_trigger(backups@.map_values(|b: BackupInfo| info_view(b)), trigger).len(), keep as nat)
            == of_trigger(backups@.map_values(|b: BackupInfo| info_view(b)), trigger).len(),
        forall|i: int| 0 <= i < r@.len() ==> listed_of_trigger(backups@, trigger, (#[trigger] r@[i])@),
{
    let ghost views = backups@.map_values(|b: BackupInfo| info_view(b));
    let mut names: Vec<String> = Vec::new();
    let mut times: Vec<Option<Timestamp>> = Vec::new();
    let mut n: usize = 0;
    while n < backups.len()
        invariant
            n <= backups@.len(),
            views == backups@.map_values(|b: BackupInfo| info_view(b)),
            forall|i: int| 0 <= i < backups@.len() ==> !(parse_backup_name(#[trigger] backups@[i].file_name@) is Panics),
            names@.map_values(|x: String| x@) == of_trigger(views.subrange(0, n as int), trigger).map_values(|b: BackupInfoView| b.0),
            times@ == of_trigger(views.subrange(0, n as int), trigger).map_values(|b: BackupInfoView| name_time(b.0)),
        decreases backups@.len() - n,
    {
        let ghost before = views.subrange(0, n as int);
        let ghost cur = views.subrange(0, n + 1);
        assert(cur.drop_last() == before);
        assert(cur.last() == info_view(backups@[n as int]));
        if backups[n].trigger == trigger {
            let name = backups[n].file_name.as_str();
            let t = match read_backup_file_name(name) {
                NameParse::Parsed((ts, _)) => Some(ts),
                _ => None,
            };
            let ghost old_names = names@;
            let copy = String::from_str(name);
            names.push(copy);
            times.push(t);
            proof {
                let ob = of_trigger(before, trigger);
                assert(names@ == old_names.push(copy));
                assert(names@.map_values(|x: String| x@) =~= old_names.map_values(|x: String| x@).push(name@));
                assert(ob.push(cur.last()).map_values(|b: BackupInfoView| b.0) =~= ob.map_values(|b: BackupInfoView| b.0).push(cur.last().0));
                assert(of_trigger(cur, trigger) == ob.push(cur.last()));
                assert(names@.map_values(|x: String| x@) =~= ob.push(cur.last()).map_values(|b: BackupInfoView| b.0));
                assert(times@ =~= ob.push(cur.last()).map_values(|b: BackupInfoView| name_time(b.0)));
            }
        } else {
            assert(of_trigger(cur, trigger) == of_trigger(before, trigger));
        }
        n += 1;
    }
    assert(views.subrange(0, backups@.len() as int) == views);
    let ghost name_views = names@.map_values(|x: String| x@);
    let mut r: Vec<String> = Vec::new();
    let mut j: usize = 0;
    while j < names.len()
        invariant
            j <= names@.len(),
            names@.len() == times@.len(),
            name_views == names@.map_values(|x: String| x@),
            r@.map_values(|x: String| x@) == beyond_keep(name_views, times@, keep as nat, j as int),
        decreases names@.len() - j,
    {
        let mut count: usize = 0;
        let mut i: usize = 0;
        while i < times.len()
            invariant
                i <= times@.len(),
                j < times@.len(),
                count <= i,
                count == count_ahead(times@, j as int, i as int),
            decreases times@.len() - i,
        {
            let ahead = is_after(times[i], times[j]) || (i < j && times[i] == times[j]);
            if ahead {
                count += 1;
            }
            i += 1;
        }
        if count >= keep as usize {
            r.push(String::from_str(names[j].as_str()));
            assert(r@.map_values(|x: String| x@) =~= beyond_keep(name_views, times@, keep as nat, j as int).push(name_views[j as int]));
        }
        j += 1;
    }
    proof {
        lemma_retention_count(views, trigger, keep as nat);
        lemma_pruned_names_listed(backups@, r@, trigger, keep as nat);
    }
    r
}

/// `b` is a daily backup whose name dates it to the calendar day of `now`.
pub open spec fn daily_on(b: BackupInfo, now: Timestamp) -> bool {
    &&& b.trigger == BackupTrigger::Daily
    &&& name_time(b.file_name@) matches Some(t)
    &&& t.year == now.year && t.month == now.month && t.day == now.day
}

/// Whether `backups` holds a daily backup made on the calendar day of `now`.
pub fn has_daily_for_today(backups: &Vec<BackupInfo>, now: &Timestamp) -> (r: bool)
    requires
        forall|i: int| 0 <= i < backups@.len() ==> !(parse_backup_name(#[trigger] backups@[i].file_name@) is Panics),
    ensures
        r == exists|i: int| 0 <= i < backups@.len() && daily_on(#[trigger] backups@[i], *now),
{
    let mut i: usize = 0;
    while i < backups.len()
        invariant
            i <= backups@.len(),
            forall|k: int| 0 <= k < backups@.len() ==> !(parse_backup_name(#[trigger] backups@[k].file_name@) is Panics),
            forall|k: int| 0 <= k < i ==> !daily_on(#[trigger] backups@[k], *now),
        decreases backups@.len() - i,
    {
        if backups[i].trigger == BackupTrigger::Daily {
            match read_backup_file_name(backups[i].file_name.as_str()) {
                NameParse::Parsed((t, _)) => {
                    if t.year == now.year && t.month == now.month && t.day == now.day {
                        return true;
                    }
                },
                _ => {},
            }
        }
        i += 1;
    }
    false
}

/// `10` to the power `w`.
pub open spec fn pow10(w: nat) -> nat
    decreases w,
{
    if w == 0 {
        1
    } else {
        10 * pow10((w - 1) as nat)
    }
}

/// The last `w` decimal digits of `n`, most significant first.
pub open spec fn digits_of(n: nat, w: nat) -> Seq<char>
    decreases w,
{
    if w == 0 {
        Seq::empty()
    } else {
        digits_of(n / 10, (w - 1) as nat).push(digit_char(n % 10))
    }
}

/// The bytes of ASCII text, one per character.
pub open spec fn ascii_bytes(s: Seq<char>) -> Seq<u8> {
    s.map_values(|c: char| c as u8)
}

proof fn lemma_digits_of_zero(w: nat)
    ensures
        digits_of(0, w) == zeros(w),
    decreases w,
{
    if w > 0 {
        lemma_digits_of_zero((w - 1) as nat);
        assert(zeros(w) =~= zeros((w - 1) as nat).push('0'));
    }
}

proof fn lemma_zero_padded_digits(n: nat, w: nat)
    requires
        w >= 1,
        n < pow10(w),
    ensures
        decimal(n).len() <= w,
        zeros((w - decimal(n).len()) as nat) + decimal(n) == digits_of(n, w),
        zero_padded(n, w) == digits_of(n, w),
    decreases w,
{
    if n < 10 {
        assert(decimal(n) == seq![digit_char(n)]);
        lemma_digits_of_zero((w - 1) as nat);
        assert(n / 10 == 0 && n % 10 == n);
        assert(zeros((w - 1) as nat) + seq![digit_char(n)] =~= zeros((w - 1) as nat).push(digit_char(n)));
    } else {
        assert(w >= 2) by {
            if w == 1 {
                assert(pow10(1) == 10 * pow10(0));
            }
        }
        assert(n / 10 < pow10((w - 1) as nat)) by (nonlinear_arith)
            requires
                n < 10 * pow10((w - 1) as nat),
        ;
        lemma_zero_padded_digits(n / 10, (w - 1) as nat);
        let d = decimal(n / 10);
        assert(decimal(n) == d.push(digit_char(n % 10)));
        assert(zeros((w - decimal(n).len()) as nat) + decimal(n) =~= (zeros(((w - 1) as nat - d.len()) as nat) + d).push(digit_char(n % 10)));
    }
    assert(zeros(0) =~= Seq::<char>::empty());
    assert(zeros(0) + decimal(n) =~= decimal(n));
}

proof fn lemma_digit_byte(k: nat)
    requires
        k < 10,
    ensures
        48 <= (digit_char(k) as u8) <= 57,
        (digit_char(k) as u8) - 48 == k,
        (digit_char(k) as u32) < 128,
{
}

proof fn lemma_digits_bytes(n: nat, w: nat)
    requires
        n < pow10(w),
    ensures
        digits_of(n, w).len() == w,
        is_ascii_chars(digits_of(n, w)),
        all_digits(ascii_bytes(digits_of(n, w))),
        digits_value(ascii_bytes(digits_of(n, w))) == n,
    decreases w,
{
    if w > 0 {
        assert(n / 10 < pow10((w - 1) as nat)) by (nonlinear_arith)
            requires
                n < 10 * pow10((w - 1) as nat),
        ;
        lemma_digits_bytes(n / 10, (w - 1) as nat);
        lemma_digit_byte(n % 10);
        let p = digits_of(n / 10, (w - 1) as nat);
        assert(ascii_bytes(digits_of(n, w)) =~= ascii_bytes(p).push(digit_char(n % 10) as u8));
        assert(ascii_bytes(digits_of(n, w)).drop_last() =~= ascii_bytes(p));
    } else {
        assert(n == 0);
        assert(ascii_bytes(digits_of(n, w)) =~= Seq::<u8>::empty());
    }
}

proof fn lemma_int_text_digits(n: nat, w: nat, signed: bool)
    requires
        w >= 1,
        n < pow10(w),
    ensures
        int_text(ascii_bytes(digits_of(n, w)), signed) == Some(n as int),
{
    lemma_digits_bytes(n, w);
    let b = ascii_bytes(digits_of(n, w));
    assert(48 <= b[0] <= 57);
    assert(sign_len(b, signed) == 0);
    assert(b.subrange(0, b.len() as int) =~= b);
}

proof fn lemma_pow10_small()
    ensures
        pow10(2) == 100,
        pow10(3) == 1000,
        pow10(4) == 10000,
{
    reveal_with_fuel(pow10, 5);
}

proof fn lemma_fields_read_back(b: Seq<u8>, ts: Timestamp)
    requires
        timestamp_valid(ts),
        b.len() == 19,
        forall|k: int| 0 <= k < b.len() ==> #[trigger] b[k] < 128,
        int_text(b.subrange(0, 4), true) == Some(ts.year as int),
        int_text(b.subrange(4, 6), false) == Some(ts.month as int),
        int_text(b.subrange(6, 8), false) == Some(ts.day as int),
        int_text(b.subrange(9, 11), false) == Some(ts.hour as int),
        int_text(b.subrange(11, 13), false) == Some(ts.minute as int),
        int_text(b.subrange(13, 15), false) == Some(ts.second as int),
        int_text(b.subrange(15, 18), false) == Some(ts.millisecond as int),
    ensures
        parse_timestamp_bytes(b) == NameParse::Parsed(ts),
{
    assert(char_boundary(b, 4) && char_boundary(b, 6) && char_boundary(b, 8) && char_boundary(b, 9));
    assert(char_boundary(b, 11) && char_boundary(b, 13) && char_boundary(b, 15) && char_boundary(b, 18));
}

proof fn lemma_year_reads_back(year: int)
    requires
        -999 <= year <= 9999,
    ensures
        signed_zero_padded(year, 4).len() == 4,
        is_ascii_chars(signed_zero_padded(year, 4)),
        int_text(ascii_bytes(signed_zero_padded(year, 4)), true) == Some(year),
{
    lemma_pow10_small();
    let y = signed_zero_padded(year, 4);
    let yb = ascii_bytes(y);
    if year >= 0 {
        lemma_zero_padded_digits(year as nat, 4);
        lemma_int_text_digits(year as nat, 4, true);
        lemma_digits_bytes(year as nat, 4);
    } else {
        let a = digits_of((-year) as nat, 3);
        lemma_zero_padded_digits((-year) as nat, 3);
        lemma_digits_bytes((-year) as nat, 3);
        assert(y == seq!['-'] + a);
        assert(is_ascii_chars(y));
        assert(yb =~= seq![45u8] + ascii_bytes(a));
        assert(sign_len(yb, true) == 1);
        assert(yb.subrange(1, 4) =~= ascii_bytes(a));
    }
}

proof fn lemma_field_reads_back(n: nat, w: nat)
    requires
        w == 2 || w == 3,
        n < pow10(w),
    ensures
        zero_padded(n, w).len() == w,
        is_ascii_chars(zero_padded(n, w)),
        int_text(ascii_bytes(zero_padded(n, w)), false) == Some(n as int),
{
    lemma_zero_padded_digits(n, w);
    lemma_int_text_digits(n, w, false);
    lemma_digits_bytes(n, w);
}

/// The compact timestamp of a representable instant in years -999 to 9999
/// is 19 ASCII characters ending in `Z`, and its fields read back to it.
#[verifier::spinoff_prover]
#[verifier::rlimit(30)]
proof fn lemma_timestamp_text_reads_back(ts: Timestamp)
    requires
        timestamp_valid(ts),
        -999 <= ts.year,
    ensures
        is_ascii_chars(timestamp_text(ts)),
        timestamp_text(ts).len() == 19,
        timestamp_text(ts).last() == 'Z',
        encode_utf8(timestamp_text(ts)).len() == 19,
        parse_timestamp_bytes(encode_utf8(timestamp_text(ts))) == NameParse::Parsed(ts),
{
    lemma_pow10_small();
    reveal_strlit("T");
    reveal_strlit("Z");
    let y = signed_zero_padded(ts.year as int, 4);
    let mo = zero_padded(ts.month as nat, 2);
    let d = zero_padded(ts.day as nat, 2);
    let h = zero_padded(ts.hour as nat, 2);
    let mi = zero_padded(ts.minute as nat, 2);
    let s = zero_padded(ts.second as nat, 2);
    let ms = zero_padded(ts.millisecond as nat, 3);
    lemma_year_reads_back(ts.year as int);
    lemma_field_reads_back(ts.month as nat, 2);
    lemma_field_reads_back(ts.day as nat, 2);
    lemma_field_reads_back(ts.hour as nat, 2);
    lemma_field_reads_back(ts.minute as nat, 2);
    lemma_field_reads_back(ts.second as nat, 2);
    lemma_field_reads_back(ts.millisecond as nat, 3);
    let t = timestamp_text(ts);
    assert(t =~= y + mo + d + "T"@ + h + mi + s + ms + "Z"@);
    assert(is_ascii_chars(t));
    is_ascii_chars_encode_utf8(t);
    let b = encode_utf8(t);
    assert(b =~= ascii_bytes(t));
    assert(b =~= ascii_bytes(y) + ascii_bytes(mo) + ascii_bytes(d) + seq![84u8] + ascii_bytes(h) + ascii_bytes(mi)
        + ascii_bytes(s) + ascii_bytes(ms) + seq![90u8]);
    assert(b.subrange(0, 4) =~= ascii_bytes(y));
    assert(b.subrange(4, 6) =~= ascii_bytes(mo));
    assert(b.subrange(6, 8) =~= ascii_bytes(d));
    assert(b.subrange(9, 11) =~= ascii_bytes(h));
    assert(b.subrange(11, 13) =~= ascii_bytes(mi));
    assert(b.subrange(13, 15) =~= ascii_bytes(s));
    assert(b.subrange(15, 18) =~= ascii_bytes(ms));
    assert forall|k: int| 0 <= k < b.len() implies #[trigger] b[k] < 128 by {
        assert((t[k] as u32) < 128);
    }
    lemma_fields_read_back(b, ts);
}

proof fn lemma_last_index_after(a: Seq<char>, b: Seq<char>, c: char)
    requires
        !b.contains(c),
    ensures
        last_index_of(a.push(c) + b, c) == Some(a.len() as int),
    decreases b.len(),
{
    if b.len() == 0 {
        assert(a.push(c) + b =~= a.push(c));
    } else {
        assert(!b.drop_last().contains(c)) by {
            if b.drop_last().contains(c) {
                let i = choose|i: int| 0 <= i < b.drop_last().len() && b.drop_last()[i] == c;
                assert(b[i] == c);
            }
        }
        lemma_last_index_after(a, b.drop_last(), c);
        assert((a.push(c) + b).drop_last() =~= a.push(c) + b.drop_last());
        assert((a.push(c) + b).last() == b.last());
    }
}

/// Reading back the name of a backup gives the instant and the trigger it
/// was made with, for every instant `time` represents from year -999 on.
pub proof fn lemma_backup_name_roundtrip(trigger: BackupTrigger, ts: Timestamp)
    requires
        timestamp_valid(ts),
        -999 <= ts.year,
    ensures
        parse_backup_name(backup_name(trigger, ts)) == NameParse::Parsed((ts, trigger)),
{
    reveal_strlit("ragdoll-");
    reveal_strlit(".db");
    reveal_strlit("-");
    reveal_strlit("manual");
    reveal_strlit("daily");
    lemma_timestamp_text_reads_back(ts);
    let t = timestamp_text(ts);
    let tn = trigger_name(trigger);
    let name = backup_name(trigger, ts);
    let stem = t + "-"@ + tn;
    assert(name =~= "ragdoll-"@ + stem + ".db"@);
    let rest = name.subrange("ragdoll-"@.len() as int, name.len() as int);
    assert(rest =~= stem + ".db"@);
    assert(name.subrange(0, "ragdoll-"@.len() as int) =~= "ragdoll-"@);
    assert(has_prefix(name, "ragdoll-"@));
    assert(rest.subrange(rest.len() - ".db"@.len(), rest.len() as int) =~= ".db"@);
    assert(has_suffix(rest, ".db"@));
    assert(rest.subrange(0, rest.len() - ".db"@.len()) =~= stem);
    assert(name_stem(name) == Some(stem));
    assert(!tn.contains('-')) by {
        if tn.contains('-') {
            let i = choose|i: int| 0 <= i < tn.len() && tn[i] == '-';
            assert(tn[i] != '-');
        }
    }
    assert(stem =~= t.push('-') + tn);
    lemma_last_index_after(t, tn, '-');
    assert(stem.subrange(0, t.len() as int) =~= t);
    assert(stem.subrange(t.len() as int + 1, stem.len() as int) =~= tn);
    assert(trigger_from_name(tn) == Some(trigger));
    assert(last_index_of(stem, '-') == Some(t.len() as int));
}

/// Where a requested backup lives: `backup_dir` joined with the name, which
/// must be a valid backup name of a file that exists there. Whether the
/// joined path is an existing regular file is read by the caller
/// (`Path::is_file`) and given as `is_file`; a valid name without such a
/// file is `NotFound`.
pub fn resolve_backup_path(backup_dir: &str, file_name: &str, is_file: bool) -> (r: Result<String, BackupNameError>)
    requires
        !has_path_separator(file_name@) ==> !(parse_backup_name(file_name@) is Panics),
    ensures
        has_path_separator(file_name@) ==> r == Err::<String, BackupNameError>(BackupNameError::UnsafePath),
        !has_path_separator(file_name@) ==> match parse_backup_name(file_name@) {
            NameParse::Parsed(_) => if is_file {
                r matches Ok(p) && p@ == crate::config::path_joined(backup_dir@, file_name@)
            } else {
                r == Err::<String, BackupNameError>(BackupNameError::NotFound)
            },
            _ => r == Err::<String, BackupNameError>(BackupNameError::BadFormat),
        },
        r is Ok <==> (!has_path_separator(file_name@) && parse_backup_name(file_name@) is Parsed && is_file),
{
    match validate_backup_file_name(file_name) {
        Ok(_) => if is_file {
            Ok(crate::config::path_join(backup_dir, file_name))
        } else {
            Err(BackupNameError::NotFound)
        },
        Err(e) => Err(e),
    }
}

} // verus!
