//! Per-API-key request rate limits over a minute and an hour window.
//!
//! Each window keeps, per key, a counter and the instant its window opened.
//! A request is admitted while the counter is below the limit; the counter
//! restarts once the window has fully elapsed.
use vstd::prelude::*;

use crate::auth::middleware::{AuthContext, AuthPrincipal};
use crate::json::{json_members, member_views, write_json_members};
use crate::text::{chars_eq, chars_of, decimal, push_decimal};

verus! {

/// Nanoseconds in one second.
pub const NANOS_PER_SEC: u64 = 1_000_000_000;
/// The minute window, in nanoseconds.
pub const MINUTE_NANOS: u64 = 60_000_000_000;
/// The hour window, in nanoseconds.
pub const HOUR_NANOS: u64 = 3_600_000_000_000;

/// Requests counted for a key in its current window, and when (nanoseconds on
/// the store's clock) that window opened.
#[derive(Clone, Copy, Debug, PartialEq, Eq, Structural)]
pub struct WindowCounter {
    pub count: u32,
    pub window_start: u64,
}

/// Time since `start` at `now`, zero if `now` is earlier.
pub open spec fn elapsed(start: u64, now: u64) -> nat {
    if now >= start {
        (now - start) as nat
    } else {
        0
    }
}

/// Whole seconds left in a window opened at `start`, at least one.
pub open spec fn reset_secs(window: u64, start: u64, now: u64) -> u64 {
    let left: nat = if window >= elapsed(start, now) { (window - elapsed(start, now)) as nat } else { 0 };
    let secs = left / (NANOS_PER_SEC as nat);
    if secs < 1 {
        1
    } else {
        secs as u64
    }
}

/// The counter after one request against `limit` at `now` (restarted when the
/// window elapsed, incremented when the request is admitted) and the outcome:
/// the remaining requests and the seconds to reset when admitted, the seconds
/// to reset when refused.
pub open spec fn window_step(entry: Option<WindowCounter>, limit: u32, window: u64, now: u64) -> (WindowCounter, Result<(u32, u64), u64>) {
    let e0 = match entry {
        Some(e) => e,
        None => WindowCounter { count: 0, window_start: now },
    };
    let e1 = if elapsed(e0.window_start, now) >= window {
        WindowCounter { count: 0, window_start: now }
    } else {
        e0
    };
    if e1.count >= limit {
        (e1, Err(reset_secs(window, e1.window_start, now)))
    } else {
        let e2 = WindowCounter { count: (e1.count + 1) as u32, window_start: e1.window_start };
        (e2, Ok(((limit - e2.count) as u32, reset_secs(window, e2.window_start, now))))
    }
}

fn compute_reset_secs(window: u64, start: u64, now: u64) -> (r: u64)
    ensures
        r == reset_secs(window, start, now),
{
    let el: u64 = if now >= start { now - start } else { 0 };
    let left: u64 = if window >= el { window - el } else { 0 };
    let secs = left / NANOS_PER_SEC;
    if secs < 1 {
        1
    } else {
        secs
    }
}

/// The map from keys to counters held by parallel key and counter lists.
pub open spec fn table_map(keys: Seq<Seq<char>>, counters: Seq<WindowCounter>) -> Map<Seq<char>, WindowCounter>
    decreases keys.len(),
{
    if keys.len() == 0 {
        Map::empty()
    } else {
        table_map(keys.drop_last(), counters.drop_last()).insert(keys.last(), counters[keys.len() - 1])
    }
}

/// The entry for `key` in `m`, if any.
pub open spec fn entry_of(m: Map<Seq<char>, WindowCounter>, key: Seq<char>) -> Option<WindowCounter> {
    if m.dom().contains(key) {
        Some(m[key])
    } else {
        None
    }
}

proof fn lemma_table_lookup(keys: Seq<Seq<char>>, counters: Seq<WindowCounter>)
    requires
        keys.len() == counters.len(),
        keys.no_duplicates(),
    ensures
        forall|i: int| 0 <= i < keys.len() ==> #[trigger] table_map(keys, counters).dom().contains(keys[i])
            && table_map(keys, counters)[keys[i]] == counters[i],
        forall|k: Seq<char>| #[trigger] table_map(keys, counters).dom().contains(k) ==> keys.contains(k),
    decreases keys.len(),
{
    if keys.len() > 0 {
        let ks = keys.drop_last();
        let cs = counters.drop_last();
        assert forall|i: int, j: int| 0 <= i < ks.len() && 0 <= j < ks.len() && i != j implies ks[i] != ks[j] by {
            assert(ks[i] == keys[i] && ks[j] == keys[j]);
        }
        lemma_table_lookup(ks, cs);
        assert forall|i: int| 0 <= i < keys.len() implies #[trigger] table_map(keys, counters).dom().contains(keys[i])
            && table_map(keys, counters)[keys[i]] == counters[i] by {
            if i < keys.len() - 1 {
                assert(ks[i] == keys[i]);
                assert(cs[i] == counters[i]);
                assert(keys[i] != keys[keys.len() - 1]);
                assert(table_map(ks, cs).dom().contains(ks[i]));
                assert(table_map(ks, cs)[ks[i]] == cs[i]);
            }
        }
        assert forall|k: Seq<char>| #[trigger] table_map(keys, counters).dom().contains(k) implies keys.contains(k) by {
            if k != keys.last() {
                assert(table_map(ks, cs).dom().contains(k));
                let i = choose|i: int| 0 <= i < ks.len() && ks[i] == k;
                assert(keys[i] == k);
            } else {
                assert(keys[keys.len() - 1] == k);
            }
        }
    }
}

proof fn lemma_table_update(keys: Seq<Seq<char>>, counters: Seq<WindowCounter>, i: int, c: WindowCounter)
    requires
        keys.len() == counters.len(),
        keys.no_duplicates(),
        0 <= i < keys.len(),
    ensures
        table_map(keys, counters.update(i, c)) == table_map(keys, counters).insert(keys[i], c),
    decreases keys.len(),
{
    let ks = keys.drop_last();
    let cs = counters.drop_last();
    let cu = counters.update(i, c);
    assert forall|a: int, b: int| 0 <= a < ks.len() && 0 <= b < ks.len() && a != b implies ks[a] != ks[b] by {
        assert(ks[a] == keys[a] && ks[b] == keys[b]);
    }
    if i == keys.len() - 1 {
        assert(cu.drop_last() =~= cs);
        assert(table_map(keys, cu) =~= table_map(keys, counters).insert(keys[i], c));
    } else {
        lemma_table_update(ks, cs, i, c);
        assert(cu.drop_last() =~= cs.update(i, c));
        lemma_table_lookup(ks, cs);
        assert(keys[i] != keys.last());
        assert(table_map(keys, cu) =~= table_map(keys, counters).insert(keys[i], c));
    }
}

/// The counters of one window, one per key.
pub struct CounterTable {
    keys: Vec<String>,
    counters: Vec<WindowCounter>,
}

/// The views of the keys of a table.
pub open spec fn key_views(keys: Seq<String>) -> Seq<Seq<char>> {
    keys.map_values(|s: String| s@)
}

impl CounterTable {
    pub closed spec fn wf(self) -> bool {
        &&& self.keys@.len() == self.counters@.len()
        &&& key_views(self.keys@).no_duplicates()
    }

    pub closed spec fn view(self) -> Map<Seq<char>, WindowCounter> {
        table_map(key_views(self.keys@), self.counters@)
    }

    pub fn new() -> (r: Self)
        ensures
            r.wf(),
            r.view() == Map::<Seq<char>, WindowCounter>::empty(),
    {
        let r = CounterTable { keys: Vec::new(), counters: Vec::new() };
        assert(key_views(r.keys@) =~= Seq::<Seq<char>>::empty());
        r
    }

    fn find(&self, key: &Vec<char>) -> (r: Option<usize>)
        requires
            self.wf(),
        ensures
            match r {
                Some(i) => i < self.keys@.len() && self.keys@[i as int]@ == key@,
                None => !self.view().dom().contains(key@),
            },
    {
        let ghost kv = key_views(self.keys@);
        for i in 0..self.keys.len()
            invariant
                self.wf(),
                kv == key_views(self.keys@),
                forall|j: int| 0 <= j < i ==> kv[j] != key@,
        {
            if chars_eq(&chars_of(self.keys[i].as_str()), key) {
                return Some(i);
            }
        }
        proof {
            lemma_table_lookup(kv, self.counters@);
            if self.view().dom().contains(key@) {
                let j = choose|j: int| 0 <= j < kv.len() && kv[j] == key@;
                assert(kv[j] != key@);
            }
        }
        None
    }

    /// Counts one request for `key` against `limit` in a window of `window`
    /// nanoseconds at instant `now`.
    pub fn check_window(&mut self, key: &str, limit: u32, window: u64, now: u64) -> (r: Result<(u32, u64), u64>)
        requires
            old(self).wf(),
        ensures
            final(self).wf(),
            ({
                let step = window_step(entry_of(old(self).view(), key@), limit, window, now);
                final(self).view() == old(self).view().insert(key@, step.0) && r == step.1
            }),
    {
        let kc = chars_of(key);
        let ghost kv = key_views(self.keys@);
        proof {
            lemma_table_lookup(kv, self.counters@);
        }
        let found = self.find(&kc);
        let e0 = match found {
            Some(i) => self.counters[i],
            None => WindowCounter { count: 0, window_start: now },
        };
        let el: u64 = if now >= e0.window_start { now - e0.window_start } else { 0 };
        let e1 = if el >= window { WindowCounter { count: 0, window_start: now } } else { e0 };
        let (stored, result) = if e1.count >= limit {
            (e1, Err(compute_reset_secs(window, e1.window_start, now)))
        } else {
            let e2 = WindowCounter { count: e1.count + 1, window_start: e1.window_start };
            (e2, Ok((limit - e2.count, compute_reset_secs(window, e2.window_start, now))))
        };
        match found {
            Some(i) => {
                self.counters.set(i, stored);
                proof {
                    lemma_table_update(kv, old(self).counters@, i as int, stored);
                }
            },
            None => {
                let ghost old_counters = self.counters@;
                self.keys.push(String::from_str(key));
                self.counters.push(stored);
                proof {
                    let nkv = key_views(self.keys@);
                    assert(nkv =~= kv.push(key@));
                    assert(!kv.contains(key@));
                    assert(nkv.drop_last() =~= kv);
                    assert(self.counters@.drop_last() =~= old_counters);
                    assert forall|a: int, b: int| 0 <= a < nkv.len() && 0 <= b < nkv.len() && a != b implies nkv[a] != nkv[b] by {
                        if a < kv.len() && b < kv.len() {
                            assert(nkv[a] == kv[a] && nkv[b] == kv[b]);
                        } else if a < kv.len() {
                            assert(nkv[a] == kv[a]);
                        } else {
                            assert(nkv[b] == kv[b]);
                        }
                    }
                }
            },
        }
        result
    }
}

/// Outcome of a rate-limit check, carrying header data for the most
/// constraining window.
#[derive(Clone, Debug, PartialEq, Eq, Structural)]
pub struct RateLimitStatus {
    pub limited: bool,
    pub limit: Option<u32>,
    pub remaining: Option<u32>,
    pub reset: Option<u64>,
    pub retry_after: Option<u64>,
}

/// Nothing limited and nothing observed.
pub open spec fn empty_status() -> RateLimitStatus {
    RateLimitStatus { limited: false, limit: None, remaining: None, reset: None, retry_after: None }
}

/// A refused request against `limit`, retried after `reset` seconds.
pub open spec fn limited_status(limit: u32, reset: u64) -> RateLimitStatus {
    RateLimitStatus {
        limited: true,
        limit: Some(limit),
        remaining: Some(0),
        reset: Some(reset),
        retry_after: Some(reset),
    }
}

/// `s` after seeing an admitted window: the window with fewer remaining
/// requests is the one reported.
pub open spec fn observed_status(s: RateLimitStatus, limit: u32, remaining: u32, reset: u64) -> RateLimitStatus {
    let replace = match s.remaining {
        Some(current) => remaining < current,
        None => true,
    };
    if replace {
        RateLimitStatus { limit: Some(limit), remaining: Some(remaining), reset: Some(reset), ..s }
    } else {
        s
    }
}

impl Default for RateLimitStatus {
    fn default() -> (r: Self)
        ensures
            r == empty_status(),
    {
        RateLimitStatus { limited: false, limit: None, remaining: None, reset: None, retry_after: None }
    }
}

impl RateLimitStatus {
    fn limited(limit: u32, reset: u64) -> (r: Self)
        ensures
            r == limited_status(limit, reset),
    {
        RateLimitStatus {
            limited: true,
            limit: Some(limit),
            remaining: Some(0),
            reset: Some(reset),
            retry_after: Some(reset),
        }
    }

    /// Track the window with the fewest remaining requests for the response headers.
    fn observe(&mut self, limit: u32, remaining: u32, reset: u64)
        ensures
            *final(self) == observed_status(*old(self), limit, remaining, reset),
    {
        let replace = match self.remaining {
            Some(current) => remaining < current,
            None => true,
        };
        if replace {
            self.limit = Some(limit);
            self.remaining = Some(remaining);
            self.reset = Some(reset);
        }
    }
}

/// The hour window's part of a check, after the minute window admitted the
/// request (or had no limit) and left the status `s`.
pub open spec fn hour_outcome(
    minute: Map<Seq<char>, WindowCounter>,
    hour: Map<Seq<char>, WindowCounter>,
    key: Seq<char>,
    rph: Option<u32>,
    now: u64,
    s: RateLimitStatus,
) -> (Map<Seq<char>, WindowCounter>, Map<Seq<char>, WindowCounter>, RateLimitStatus) {
    match rph {
        Some(limit) => {
            let (entry, outcome) = window_step(entry_of(hour, key), limit, HOUR_NANOS, now);
            let hour1 = hour.insert(key, entry);
            match outcome {
                Ok((remaining, reset)) => (minute, hour1, observed_status(s, limit, remaining, reset)),
                Err(reset) => (minute, hour1, limited_status(limit, reset)),
            }
        },
        None => (minute, hour, s),
    }
}

/// A check of `key` at `now`: the minute window first (when `rpm` is set),
/// then the hour window (when `rph` is set and the minute window admitted the
/// request); the counters after it and the status answered.
pub open spec fn check_outcome(
    minute: Map<Seq<char>, WindowCounter>,
    hour: Map<Seq<char>, WindowCounter>,
    key: Seq<char>,
    rpm: Option<u32>,
    rph: Option<u32>,
    now: u64,
) -> (Map<Seq<char>, WindowCounter>, Map<Seq<char>, WindowCounter>, RateLimitStatus) {
    match rpm {
        Some(limit) => {
            let (entry, outcome) = window_step(entry_of(minute, key), limit, MINUTE_NANOS, now);
            let minute1 = minute.insert(key, entry);
            match outcome {
                Ok((remaining, reset)) => hour_outcome(
                    minute1,
                    hour,
                    key,
                    rph,
                    now,
                    observed_status(empty_status(), limit, remaining, reset),
                ),
                Err(reset) => (minute1, hour, limited_status(limit, reset)),
            }
        },
        None => hour_outcome(minute, hour, key, rph, now, empty_status()),
    }
}

#[verifier::external_type_specification]
#[verifier::external_body]
pub struct ExInstant(std::time::Instant);

/// The current instant (`Instant::now`). Trusted: nothing is claimed of it.
#[verifier::external_body]
fn instant_now() -> (r: std::time::Instant) {
    std::time::Instant::now()
}

/// Nanoseconds elapsed since `origin` (`Instant::elapsed`,
/// `Duration::as_nanos`). Trusted: nothing is claimed of the value, which
/// depends on the time.
#[verifier::external_body]
fn nanos_since(origin: &std::time::Instant) -> (r: u128) {
    origin.elapsed().as_nanos()
}

/// A count of nanoseconds as a `u64`, saturated at its largest value.
fn saturated_nanos(n: u128) -> (r: u64)
    ensures
        r == if n <= u64::MAX { n } else { u64::MAX as u128 },
{
    if n <= u64::MAX as u128 {
        n as u64
    } else {
        u64::MAX
    }
}

/// Request counters per API key for the minute and the hour windows, and
/// the latest reading of the store's clock.
pub struct RateLimitStore {
    minute: CounterTable,
    hour: CounterTable,
    origin: std::time::Instant,
    last: u64,
}

impl RateLimitStore {
    pub closed spec fn wf(&self) -> bool {
        self.minute.wf() && self.hour.wf()
    }

    /// The minute window's counters.
    pub closed spec fn minute_counters(&self) -> Map<Seq<char>, WindowCounter> {
        self.minute.view()
    }

    /// The hour window's counters.
    pub closed spec fn hour_counters(&self) -> Map<Seq<char>, WindowCounter> {
        self.hour.view()
    }

    /// The instant (nanoseconds on the store's clock) of the latest request
    /// checked with `check`.
    pub closed spec fn last_reading(&self) -> u64 {
        self.last
    }

    pub fn new() -> (r: Self)
        ensures
            r.wf(),
            r.minute_counters() == Map::<Seq<char>, WindowCounter>::empty(),
            r.hour_counters() == Map::<Seq<char>, WindowCounter>::empty(),
            r.last_reading() == 0,
    {
        RateLimitStore { minute: CounterTable::new(), hour: CounterTable::new(), origin: instant_now(), last: 0 }
    }

    /// Checks one request of `key` at instant `now` (nanoseconds on the
    /// store's clock) against the per-minute and per-hour limits.
    pub fn check_at(&mut self, key: &str, rpm: Option<u32>, rph: Option<u32>, now: u64) -> (r: RateLimitStatus)
        requires
            old(self).wf(),
        ensures
            final(self).wf(),
            (final(self).minute_counters(), final(self).hour_counters(), r) == check_outcome(
                old(self).minute_counters(),
                old(self).hour_counters(),
                key@,
                rpm,
                rph,
                now,
            ),
            final(self).last_reading() == old(self).last_reading(),
    {
        let mut status = RateLimitStatus::default();
        if let Some(limit) = rpm {
            match self.minute.check_window(key, limit, MINUTE_NANOS, now) {
                Ok((remaining, reset)) => status.observe(limit, remaining, reset),
                Err(reset) => return RateLimitStatus::limited(limit, reset),
            }
        }
        if let Some(limit) = rph {
            match self.hour.check_window(key, limit, HOUR_NANOS, now) {
                Ok((remaining, reset)) => status.observe(limit, remaining, reset),
                Err(reset) => return RateLimitStatus::limited(limit, reset),
            }
        }
        status
    }

    /// Checks one request of `key` at the clock reading `reading`
    /// (nanoseconds on the store's clock): the instant taken is the reading,
    /// or the latest instant already taken if that is later, so the clock
    /// never goes back; that instant is recorded.
    pub fn check_reading(&mut self, key: &str, rpm: Option<u32>, rph: Option<u32>, reading: u64) -> (r: RateLimitStatus)
        requires
            old(self).wf(),
        ensures
            final(self).wf(),
            final(self).last_reading() == if reading < old(self).last_reading() {
                old(self).last_reading()
            } else {
                reading
            },
            (final(self).minute_counters(), final(self).hour_counters(), r) == check_outcome(
                old(self).minute_counters(),
                old(self).hour_counters(),
                key@,
                rpm,
                rph,
                final(self).last_reading(),
            ),
    {
        let now = if reading < self.last {
            self.last
        } else {
            reading
        };
        let r = self.check_at(key, rpm, rph, now);
        self.last = now;
        r
    }

    /// Checks one request of `key` now: at the clock's current reading, or
    /// the latest instant already taken if that is later (as `Instant` is
    /// documented to be monotonic, this only guards against a platform that
    /// breaks it).
    pub fn check(&mut self, key: &str, rpm: Option<u32>, rph: Option<u32>) -> (r: RateLimitStatus)
        requires
            old(self).wf(),
        ensures
            final(self).wf(),
            exists|now: u64|
                old(self).last_reading() <= now && final(self).last_reading() == now && (
                final(self).minute_counters(),
                final(self).hour_counters(),
                r,
            ) == #[trigger] check_outcome(old(self).minute_counters(), old(self).hour_counters(), key@, rpm, rph, now),
    {
        let reading = saturated_nanos(nanos_since(&self.origin));
        self.check_reading(key, rpm, rph, reading)
    }
}

/// The instant a check takes is never before the clock's reading nor before
/// the instant of the check before it.
pub proof fn lemma_check_instant(last: u64, reading: u64)
    ensures
        ({
            let now = if reading < last {
                last
            } else {
                reading
            };
            &&& now >= reading
            &&& now >= last
            &&& (now == reading || now == last)
        }),
{
}

/// A key whose minute window opened at least a minute before `now` gets a
/// fresh window: the request is admitted with `limit - 1` requests left,
/// whatever the key's count was, and the window restarts at `now`.
pub proof fn lemma_minute_window_restarts(
    minute: Map<Seq<char>, WindowCounter>,
    hour: Map<Seq<char>, WindowCounter>,
    key: Seq<char>,
    limit: u32,
    now: u64,
)
    requires
        limit >= 1,
        minute.dom().contains(key),
        now >= minute[key].window_start + MINUTE_NANOS,
    ensures
        !check_outcome(minute, hour, key, Some(limit), None, now).2.limited,
        check_outcome(minute, hour, key, Some(limit), None, now).2.remaining == Some((limit - 1) as u32),
        check_outcome(minute, hour, key, Some(limit), None, now).0[key] == (WindowCounter { count: 1, window_start: now }),
{
}

/// A key whose hour window opened at least an hour before `now` gets a
/// fresh window: the request is admitted with `limit - 1` requests left,
/// whatever the key's count was, and the window restarts at `now`.
pub proof fn lemma_hour_window_restarts(
    minute: Map<Seq<char>, WindowCounter>,
    hour: Map<Seq<char>, WindowCounter>,
    key: Seq<char>,
    limit: u32,
    now: u64,
)
    requires
        limit >= 1,
        hour.dom().contains(key),
        now >= hour[key].window_start + HOUR_NANOS,
    ensures
        !check_outcome(minute, hour, key, None, Some(limit), now).2.limited,
        check_outcome(minute, hour, key, None, Some(limit), now).2.remaining == Some((limit - 1) as u32),
        check_outcome(minute, hour, key, None, Some(limit), now).1[key] == (WindowCounter { count: 1, window_start: now }),
{
}

/// A key whose hour window is still open and already counts `limit`
/// requests is refused, and its counter stays as it was.
pub proof fn lemma_hour_window_full(
    minute: Map<Seq<char>, WindowCounter>,
    hour: Map<Seq<char>, WindowCounter>,
    key: Seq<char>,
    limit: u32,
    now: u64,
)
    requires
        hour.dom().contains(key),
        hour[key].window_start <= now < hour[key].window_start + HOUR_NANOS,
        hour[key].count >= limit,
    ensures
        check_outcome(minute, hour, key, None, Some(limit), now).2.limited,
        check_outcome(minute, hour, key, None, Some(limit), now).1[key] == hour[key],
{
}

/// A key whose minute window is still open and already counts `limit`
/// requests is refused, and its counter stays as it was.
pub proof fn lemma_minute_window_full(
    minute: Map<Seq<char>, WindowCounter>,
    hour: Map<Seq<char>, WindowCounter>,
    key: Seq<char>,
    limit: u32,
    now: u64,
)
    requires
        minute.dom().contains(key),
        minute[key].window_start <= now < minute[key].window_start + MINUTE_NANOS,
        minute[key].count >= limit,
    ensures
        check_outcome(minute, hour, key, Some(limit), None, now).2.limited,
        check_outcome(minute, hour, key, Some(limit), None, now).2.remaining == Some(0u32),
        check_outcome(minute, hour, key, Some(limit), None, now).0[key] == minute[key],
{
}

/// How many of the requests at instants `times` a key's window admits,
/// starting from counter `e`.
pub open spec fn admitted_count(e: WindowCounter, limit: u32, window: u64, times: Seq<u64>) -> nat
    decreases times.len(),
{
    if times.len() == 0 {
        0
    } else {
        let (e1, outcome) = window_step(Some(e), limit, window, times[0]);
        (if outcome is Ok { 1nat } else { 0nat }) + admitted_count(e1, limit, window, times.drop_first())
    }
}

/// Within one window, a key is admitted exactly as many further requests as
/// its limit leaves: of `n` requests made before the window elapses, the
/// first `limit - count` are admitted and the rest refused.
pub proof fn lemma_window_admits_up_to_limit(e: WindowCounter, limit: u32, window: u64, times: Seq<u64>)
    requires
        e.count <= limit,
        forall|k: int| 0 <= k < times.len() ==> e.window_start <= #[trigger] times[k] && times[k] - e.window_start < window,
    ensures
        admitted_count(e, limit, window, times) == if times.len() <= limit - e.count {
            times.len() as int
        } else {
            limit - e.count
        },
    decreases times.len(),
{
    if times.len() > 0 {
        let (e1, outcome) = window_step(Some(e), limit, window, times[0]);
        let rest = times.drop_first();
        assert forall|k: int| 0 <= k < rest.len() implies e1.window_start <= #[trigger] rest[k] && rest[k] - e1.window_start < window by {
            assert(rest[k] == times[k + 1]);
        }
        lemma_window_admits_up_to_limit(e1, limit, window, rest);
    }
}

/// The key an authenticated request is counted under: an API key's id,
/// when the key has a per-minute or per-hour limit; sessions are not
/// limited.
pub open spec fn limited_key(auth: AuthContext) -> Option<Seq<char>> {
    match auth.principal {
        AuthPrincipal::ApiKey { key_id, .. } => if auth.rpm is Some || auth.rph is Some {
            Some(key_id@)
        } else {
            None
        },
        _ => None,
    }
}

/// The key the request is counted under, if it is rate limited.
pub fn rate_limited_key(auth: &AuthContext) -> (r: Option<String>)
    ensures
        match limited_key(*auth) {
            Some(k) => r matches Some(s) && s@ == k,
            None => r is None,
        },
{
    match &auth.principal {
        AuthPrincipal::ApiKey { key_id, .. } => {
            if auth.rpm.is_some() || auth.rph.is_some() {
                Some(key_id.clone())
            } else {
                None
            }
        },
        _ => None,
    }
}

/// The rate-limit headers of a response, `now` being the current Unix
/// time in seconds: the limit, the requests left and the Unix time the
/// window resets, each where the status has it.
pub open spec fn rate_limit_header_list(status: RateLimitStatus, now: u64) -> Seq<(Seq<char>, Seq<char>)> {
    let a: Seq<(Seq<char>, Seq<char>)> = match status.limit {
        Some(l) => seq![("X-RateLimit-Limit"@, decimal(l as nat))],
        None => Seq::empty(),
    };
    let b = match status.remaining {
        Some(r) => a.push(("X-RateLimit-Remaining"@, decimal(r as nat))),
        None => a,
    };
    match status.reset {
        Some(t) => b.push(("X-RateLimit-Reset"@, decimal((now + t) as nat))),
        None => b,
    }
}

fn number_text(n: u64) -> (r: String)
    ensures
        r@ == decimal(n as nat),
{
    let mut s = String::new();
    push_decimal(&mut s, n);
    s
}

/// The rate-limit headers of a response, as `rate_limit_header_list` says.
pub fn rate_limit_headers(status: &RateLimitStatus, now: u64) -> (r: Vec<(&'static str, String)>)
    requires
        status.reset matches Some(t) ==> now + t <= u64::MAX,
    ensures
        r@.map_values(|h: (&'static str, String)| (h.0@, h.1@)) == rate_limit_header_list(*status, now),
{
    let mut r: Vec<(&'static str, String)> = Vec::new();
    match status.limit {
        Some(l) => r.push(("X-RateLimit-Limit", number_text(l as u64))),
        None => {},
    }
    match status.remaining {
        Some(n) => r.push(("X-RateLimit-Remaining", number_text(n as u64))),
        None => {},
    }
    match status.reset {
        Some(t) => r.push(("X-RateLimit-Reset", number_text(now + t))),
        None => {},
    }
    assert(r@.map_values(|h: (&'static str, String)| (h.0@, h.1@)) =~= rate_limit_header_list(*status, now));
    r
}

/// How long a refused request is told to wait: the status's retry time,
/// else one second.
pub open spec fn retry_after_secs(status: RateLimitStatus) -> u64 {
    match status.retry_after {
        Some(t) => t,
        None => 1,
    }
}

/// The body of the answer to a refused request.
pub open spec fn rejection_body(status: RateLimitStatus) -> Option<Seq<char>> {
    json_members(seq![("error"@, "\"rate limit exceeded\""@), ("retry_after"@, decimal(retry_after_secs(status) as nat))])
}

/// The wait in seconds and the body of the answer to a refused request.
pub fn rate_limit_rejection(status: &RateLimitStatus) -> (r: (u64, Option<String>))
    ensures
        r.0 == retry_after_secs(*status),
        match rejection_body(*status) {
            Some(t) => r.1 matches Some(s) && s@ == t,
            None => r.1 is None,
        },
{
    let retry: u64 = match status.retry_after {
        Some(t) => t,
        None => 1,
    };
    let mut m: Vec<(String, String)> = Vec::new();
    m.push((String::from_str("error"), String::from_str("\"rate limit exceeded\"")));
    m.push((String::from_str("retry_after"), number_text(retry)));
    assert(member_views(m@) == seq![("error"@, "\"rate limit exceeded\""@), ("retry_after"@, decimal(retry as nat))]);
    (retry, write_json_members(&m))
}

} // verus!
