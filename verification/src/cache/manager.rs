use vstd::prelude::*;

use crate::cache::storage::{
    audio_count, audio_ext, content_hash, files_size, id_hash, listed, with_ext, CacheStorage,
    DirEntry,
};
use crate::config::model::CacheConfig;
use crate::platform::join_path;
use crate::text::str_equal;

verus! {

/// Cache status information.
#[derive(Debug)]
pub struct CacheStatus {
    pub enabled: bool,
    pub file_count: usize,
    pub total_size_bytes: u64,
    pub max_size_bytes: u64,
    pub path: String,
}

/// A UTC instant: whole seconds since the Unix epoch and the nanoseconds within that second.
/// Instants compare as the pair (seconds, nanoseconds).
#[derive(Debug, Clone, Copy, PartialEq, Eq, Structural)]
pub struct Timestamp {
    pub secs: i64,
    pub nanos: u32,
}

/// The Unix epoch, the value an unreadable date falls back to.
pub open spec fn epoch() -> Timestamp {
    Timestamp { secs: 0, nanos: 0 }
}

/// Whether `a` lies strictly before `b`.
pub open spec fn before(a: Timestamp, b: Timestamp) -> bool {
    a.secs < b.secs || (a.secs == b.secs && a.nanos < b.nanos)
}

/// The instant `days` whole days before `now`.
pub open spec fn days_before(now: Timestamp, days: nat) -> (int, int) {
    (now.secs - days * 86400, now.nanos as int)
}

/// Whether an instant lies strictly before a cutoff given as (seconds, nanoseconds).
pub open spec fn before_cutoff(t: Timestamp, cutoff: (int, int)) -> bool {
    t.secs < cutoff.0 || (t.secs == cutoff.0 && t.nanos < cutoff.1)
}

/// The instant that RFC 3339 text names, as `str::parse::<DateTime<Utc>>` reads it: seconds
/// since the epoch and nanoseconds within the second, or `None` where the text is no such date.
pub uninterp spec fn utc_instant_of(text: Seq<char>) -> Option<(i64, u32)>;

/// `text.parse::<chrono::DateTime<chrono::Utc>>()`, taken apart into `Timestamp` fields
/// (`timestamp()`, `timestamp_subsec_nanos()`). The parse is named by `utc_instant_of`.
#[verifier::external_body]
fn parse_utc(text: &str) -> (r: Option<Timestamp>)
    ensures
        match r {
            Some(t) => utc_instant_of(text@) == Some((t.secs, t.nanos)),
            None => utc_instant_of(text@) is None,
        },
{
    match text.parse::<chrono::DateTime<chrono::Utc>>() {
        Ok(d) => Some(Timestamp { secs: d.timestamp(), nanos: d.timestamp_subsec_nanos() }),
        Err(_) => None,
    }
}

/// `chrono::Utc::now()`, taken apart into `Timestamp` fields. It reads the system clock, so
/// nothing is stated of the value.
#[verifier::external_body]
fn utc_now() -> Timestamp {
    let d = chrono::Utc::now();
    Timestamp { secs: d.timestamp(), nanos: d.timestamp_subsec_nanos() }
}

/// The fields of a cached song's metadata file, as read from its JSON: each is absent where
/// the file lacks it or holds a value of another kind.
#[derive(Debug, Clone)]
pub struct CacheMeta {
    pub song_id: Option<String>,
    pub sha256: Option<String>,
    pub cached_at: Option<String>,
    pub last_accessed: Option<String>,
    pub size_bytes: Option<u64>,
}

/// Metadata for a single cached entry.
#[derive(Debug, Clone)]
pub struct CacheEntry {
    pub song_id: String,
    pub cached_at: Timestamp,
    pub last_accessed: Timestamp,
    pub size_bytes: u64,
}

/// A date field read with the epoch as fallback.
pub open spec fn date_or(text: Option<String>, fallback: Timestamp) -> Timestamp {
    match text {
        Some(s) => match utc_instant_of(s@) {
            Some(p) => Timestamp { secs: p.0, nanos: p.1 },
            None => fallback,
        },
        None => fallback,
    }
}

/// The entry a metadata file describes; none where it names no song.
pub open spec fn meta_entry(meta: CacheMeta) -> Option<(Seq<char>, Timestamp, Timestamp, u64)> {
    let id = match meta.song_id {
        Some(s) => s@,
        None => Seq::empty(),
    };
    let cached_at = date_or(meta.cached_at, epoch());
    let last_accessed = date_or(meta.last_accessed, cached_at);
    let size = match meta.size_bytes {
        Some(n) => n,
        None => 0,
    };
    if id.len() == 0 {
        None
    } else {
        Some((id, cached_at, last_accessed, size))
    }
}

/// The fields of an entry, for comparison with `meta_entry`.
pub open spec fn entry_fields(e: CacheEntry) -> (Seq<char>, Timestamp, Timestamp, u64) {
    (e.song_id@, e.cached_at, e.last_accessed, e.size_bytes)
}

/// The entries that a sequence of metadata files describe, in order.
pub open spec fn meta_entries(metas: Seq<CacheMeta>) -> Seq<(Seq<char>, Timestamp, Timestamp, u64)>
    decreases metas.len(),
{
    if metas.len() == 0 {
        Seq::empty()
    } else {
        let rest = meta_entries(metas.drop_last());
        match meta_entry(metas.last()) {
            Some(e) => rest.push(e),
            None => rest,
        }
    }
}

/// The song ids of the entries cached strictly before a cutoff, in order.
pub open spec fn ids_cached_before(entries: Seq<CacheEntry>, cutoff: (int, int)) -> Seq<Seq<char>>
    decreases entries.len(),
{
    if entries.len() == 0 {
        Seq::empty()
    } else {
        let rest = ids_cached_before(entries.drop_last(), cutoff);
        if before_cutoff(entries.last().cached_at, cutoff) {
            rest.push(entries.last().song_id@)
        } else {
            rest
        }
    }
}

/// Whether entry `a` (at position `i`) comes before entry `b` (at position `j`) in
/// least-recently-used order: by last access, ties kept in their given order.
pub open spec fn lru_precedes(a: CacheEntry, i: int, b: CacheEntry, j: int) -> bool {
    before(a.last_accessed, b.last_accessed) || (a.last_accessed == b.last_accessed && i < j)
}

/// `order` holds the entries of `entries` arranged by `positions` (where each came from),
/// sorted by last access with ties in their given order. Exactly one arrangement meets this:
/// what a stable sort by last access gives.
pub open spec fn is_lru_order(entries: Seq<CacheEntry>, order: Seq<CacheEntry>, positions: Seq<int>) -> bool {
    &&& order.len() == entries.len()
    &&& positions.len() == entries.len()
    &&& forall|k: int|
        0 <= k < order.len() ==> 0 <= #[trigger] positions[k] < entries.len() && order[k]
            == entries[positions[k]]
    &&& forall|a: int, b: int|
        0 <= a < b < order.len() ==> lru_precedes(
            #[trigger] order[a],
            positions[a],
            #[trigger] order[b],
            positions[b],
        )
    &&& forall|j: int| 0 <= j < entries.len() ==> #[trigger] placed(positions, j)
}

/// Whether some position of the arrangement came from position `j`.
pub open spec fn placed(positions: Seq<int>, j: int) -> bool {
    exists|k: int| 0 <= k < positions.len() && positions[k] == j
}

fn earlier(a: &Timestamp, b: &Timestamp) -> (r: bool)
    ensures
        r == before(*a, *b),
{
    a.secs < b.secs || (a.secs == b.secs && a.nanos < b.nanos)
}

/// The entries arranged from least to most recently used; entries used at the same instant keep
/// their order.
pub fn lru_order(entries: Vec<CacheEntry>) -> (r: Vec<CacheEntry>)
    ensures
        exists|p: Seq<int>| is_lru_order(entries@, r@, p),
{
    let ghost orig = entries@;
    let mut rest = entries;
    let mut r: Vec<CacheEntry> = Vec::new();
    let ghost mut p: Seq<int> = Seq::empty();
    while rest.len() > 0
        invariant
            rest@ == orig.take(rest@.len() as int),
            rest@.len() <= orig.len(),
            r@.len() == p.len(),
            p.len() + rest@.len() == orig.len(),
            forall|k: int|
                0 <= k < p.len() ==> rest@.len() <= #[trigger] p[k] < orig.len() && r@[k]
                    == orig[p[k]],
            forall|a: int, b: int|
                0 <= a < b < r@.len() ==> lru_precedes(
                    #[trigger] r@[a],
                    p[a],
                    #[trigger] r@[b],
                    p[b],
                ),
            forall|j: int| rest@.len() <= j < orig.len() ==> #[trigger] placed(p, j),
        decreases rest@.len(),
    {
        let ghost before_pop = rest@;
        let e = rest.pop().unwrap();
        let i = rest.len();
        assert(rest@ =~= orig.take(i as int));
        assert(e == orig[i as int]);
        let mut pos: usize = 0;
        while pos < r.len() && earlier(&r[pos].last_accessed, &e.last_accessed)
            invariant
                pos <= r@.len(),
                forall|k: int| 0 <= k < pos ==> before((#[trigger] r@[k]).last_accessed, e.last_accessed),
            decreases r@.len() - pos,
        {
            pos = pos + 1;
        }
        let ghost old_r = r@;
        let ghost old_p = p;
        proof {
            assert forall|k: int| pos <= k < old_r.len() implies !before(
                (#[trigger] old_r[k]).last_accessed,
                e.last_accessed,
            ) by {
                if pos < old_r.len() {
                    if k > pos {
                        assert(lru_precedes(old_r[pos as int], old_p[pos as int], old_r[k], old_p[k]));
                    }
                }
            }
        }
        r.insert(pos, e);
        proof {
            p = p.insert(pos as int, i as int);
            assert forall|a: int, b: int| 0 <= a < b < r@.len() implies lru_precedes(
                #[trigger] r@[a],
                p[a],
                #[trigger] r@[b],
                p[b],
            ) by {
                if b < pos {
                    assert(r@[a] == old_r[a] && r@[b] == old_r[b]);
                } else if b == pos {
                    assert(r@[a] == old_r[a]);
                } else if a == pos {
                    assert(r@[b] == old_r[b - 1]);
                    assert(p[b] == old_p[b - 1]);
                } else if a < pos {
                    assert(r@[a] == old_r[a] && r@[b] == old_r[b - 1]);
                    assert(lru_precedes(old_r[a], old_p[a], old_r[b - 1], old_p[b - 1]));
                } else {
                    assert(r@[a] == old_r[a - 1] && r@[b] == old_r[b - 1]);
                    assert(lru_precedes(old_r[a - 1], old_p[a - 1], old_r[b - 1], old_p[b - 1]));
                }
            }
            assert forall|k: int| 0 <= k < p.len() implies rest@.len() <= #[trigger] p[k]
                < orig.len() && r@[k] == orig[p[k]] by {
                if k < pos {
                } else if k == pos {
                } else {
                    assert(r@[k] == old_r[k - 1]);
                }
            }
            assert forall|j: int| rest@.len() <= j < orig.len() implies #[trigger] placed(p, j) by {
                if j == i {
                    assert(p[pos as int] == j);
                } else {
                    assert(placed(old_p, j));
                    let k0 = choose|k: int| 0 <= k < old_p.len() && old_p[k] == j;
                    if k0 < pos {
                        assert(p[k0] == j);
                    } else {
                        assert(p[k0 + 1] == j);
                    }
                }
            }
        }
    }
    assert(is_lru_order(orig, r@, p));
    r
}


/// The first entry of a least-recently-used order was used no later than any entry of the
/// cache: eviction starts with the least recently used entry.
pub proof fn lemma_first_in_order_is_least_recent(entries: Seq<CacheEntry>, order: Seq<CacheEntry>, positions: Seq<int>)
    requires
        is_lru_order(entries, order, positions),
        entries.len() > 0,
    ensures
        forall|j: int| 0 <= j < entries.len() ==> !before(#[trigger] entries[j].last_accessed, order[0].last_accessed),
{
    assert forall|j: int| 0 <= j < entries.len() implies !before(#[trigger] entries[j].last_accessed, order[0].last_accessed) by {
        assert(placed(positions, j));
        let k = choose|k: int| 0 <= k < positions.len() && positions[k] == j;
        if k > 0 {
            assert(lru_precedes(order[0], positions[0], order[k], positions[k]));
        }
        assert(order[k] == entries[j]);
    }
}

/// Whether data read from the cache passes the integrity check against a recorded hash: it
/// does unless checking is on and a recorded hash differs from the hash of the data.
pub open spec fn passes_integrity(verify: bool, data: Seq<u8>, expected: Option<Seq<char>>) -> bool {
    !(verify && (expected matches Some(h) && h != content_hash(data)))
}

/// Data read back unchanged passes the integrity check against the hash recorded when it was
/// stored; with checking on, data whose hash differs from the recorded one fails it.
pub proof fn lemma_stored_content_passes_check(verify: bool, stored: Seq<u8>, read: Seq<u8>)
    ensures
        passes_integrity(verify, stored, Some(content_hash(stored))),
        verify && content_hash(read) != content_hash(stored) ==> !passes_integrity(
            verify,
            read,
            Some(content_hash(stored)),
        ),
{
}

/// The size eviction shrinks below: 90% of the limit, rounded up, so that a size is below it
/// exactly when it is below 90% of the limit.
pub open spec fn eviction_target(max: int) -> int {
    max - max / 10
}

/// The eviction target is 90% of the limit rounded up: a size reaches it exactly when it
/// reaches 90% of the limit.
pub proof fn lemma_eviction_target_is_ninety_percent(max: int, size: int)
    requires
        max >= 0,
    ensures
        10 * eviction_target(max) >= 9 * max,
        10 * (eviction_target(max) - 1) < 9 * max,
        size >= eviction_target(max) <==> 10 * size >= 9 * max,
{
    vstd::arithmetic::div_mod::lemma_fundamental_div_mod(max, 10);
    assert(0 <= max % 10 < 10);
}

/// When eviction is over, the cache is below 90% of its limit, or every entry was offered
/// for deletion.
pub proof fn lemma_eviction_ends_below_target(ev: Eviction, max: int)
    requires
        ev.wf(),
        max >= 0,
        ev.target == eviction_target(max),
        !ev.goes_on(),
    ensures
        10 * ev.current < 9 * max || ev.next == ev.order@.len(),
{
    lemma_eviction_target_is_ninety_percent(max, ev.current as int);
}

/// Whether eviction goes on at position `next` of an order with the cache at size `current`:
/// the size is not yet below the target and entries remain.
pub open spec fn evicting(order: Seq<CacheEntry>, target: int, next: int, current: int) -> bool {
    current >= target && next < order.len()
}

/// The cache size after deleting the entry at `next` (never below zero).
pub open spec fn size_after(order: Seq<CacheEntry>, next: int, current: int) -> int {
    if current >= order[next].size_bytes {
        current - order[next].size_bytes
    } else {
        0
    }
}

/// The cache size after `n` successful deletions, the first at position `next`.
pub open spec fn size_after_run(order: Seq<CacheEntry>, next: int, current: int, n: nat) -> int
    decreases n,
{
    if n == 0 {
        current
    } else {
        size_after_run(order, next + 1, size_after(order, next, current), (n - 1) as nat)
    }
}

/// How many entries an eviction starting at position `next` deletes when every deletion
/// succeeds: it deletes while the size is not below the target and entries remain.
pub open spec fn run_length(order: Seq<CacheEntry>, target: int, next: int, current: int) -> nat
    decreases order.len() - next,
{
    if evicting(order, target, next, current) {
        1 + run_length(order, target, next + 1, size_after(order, next, current))
    } else {
        0
    }
}

proof fn lemma_run_from(order: Seq<CacheEntry>, target: int, next: int, current: int)
    requires
        0 <= next <= order.len(),
    ensures
        next + run_length(order, target, next, current) <= order.len(),
        forall|j: nat|
            j < run_length(order, target, next, current) ==> evicting(
                order,
                target,
                next + j,
                #[trigger] size_after_run(order, next, current, j),
            ),
        !evicting(
            order,
            target,
            next + run_length(order, target, next, current),
            size_after_run(order, next, current, run_length(order, target, next, current)),
        ),
    decreases order.len() - next,
{
    if evicting(order, target, next, current) {
        let c1 = size_after(order, next, current);
        lemma_run_from(order, target, next + 1, c1);
        let k = run_length(order, target, next, current);
        assert(k == 1 + run_length(order, target, next + 1, c1));
        assert forall|j: nat| j < k implies evicting(
            order,
            target,
            next + j,
            #[trigger] size_after_run(order, next, current, j),
        ) by {
            if j > 0 {
                assert(size_after_run(order, next, current, j) == size_after_run(order, next + 1, c1, (j - 1) as nat));
                assert(evicting(order, target, next + 1 + (j - 1) as nat, size_after_run(order, next + 1, c1, (j - 1) as nat)));
            }
        }
        assert(size_after_run(order, next, current, k) == size_after_run(order, next + 1, c1, (k - 1) as nat));
    }
}

/// The whole run of an eviction, from `start_eviction` through `next_victim` and successful
/// `record` steps: with `k` its length, the entries deleted are the first `k` of the
/// least-recently-used order, each used no later than any entry kept; the run goes on at each
/// of those steps (the size is not yet below the target) and stops at the first point where
/// the size is below 90% of the limit, or when every entry was deleted.
pub proof fn lemma_eviction_run(entries: Seq<CacheEntry>, order: Seq<CacheEntry>, positions: Seq<int>, max: int, current: int)
    requires
        is_lru_order(entries, order, positions),
        max >= 0,
    ensures
        ({
            let target = eviction_target(max);
            let k = run_length(order, target, 0, current);
            &&& k <= order.len()
            &&& forall|j: nat|
                j < k ==> evicting(order, target, j as int, #[trigger] size_after_run(order, 0, current, j))
            &&& 10 * size_after_run(order, 0, current, k) < 9 * max || k == order.len()
            &&& forall|i: int, j: int|
                0 <= i < k <= j < order.len() ==> !before(#[trigger] order[j].last_accessed, #[trigger] order[i].last_accessed)
        }),
{
    let target = eviction_target(max);
    lemma_run_from(order, target, 0, current);
    let k = run_length(order, target, 0, current);
    lemma_eviction_target_is_ninety_percent(max, size_after_run(order, 0, current, k));
    assert forall|i: int, j: int|
        0 <= i < k <= j < order.len() implies !before(#[trigger] order[j].last_accessed, #[trigger] order[i].last_accessed) by {
        assert(lru_precedes(order[i], positions[i], order[j], positions[j]));
    }
}

/// Eviction in progress: the entries from least to most recently used, the next one to offer,
/// the cache size as last known, and the size to shrink below.
#[derive(Debug)]
pub struct Eviction {
    pub order: Vec<CacheEntry>,
    pub next: usize,
    pub current: u64,
    pub target: u64,
}

impl Eviction {
    /// Well-formed: the next position lies within the order.
    pub open spec fn wf(&self) -> bool {
        self.next <= self.order@.len()
    }

    /// Whether eviction goes on: the cache is not yet below the target and entries remain.
    pub open spec fn goes_on(&self) -> bool {
        evicting(self.order@, self.target as int, self.next as int, self.current as int)
    }

    /// The entry to delete next, or `None` when eviction is over.
    pub fn next_victim(&self) -> (v: Option<String>)
        requires
            self.wf(),
        ensures
            self.goes_on() ==> (v matches Some(id) && id@ == self.order@[self.next as int].song_id@),
            !self.goes_on() ==> v is None,
    {
        if self.current >= self.target && self.next < self.order.len() {
            Some(self.order[self.next].song_id.clone())
        } else {
            None
        }
    }

    /// Record the outcome of deleting the offered entry: its size leaves the count if the
    /// deletion succeeded, and the next entry comes up either way.
    pub fn record(&mut self, deleted: bool)
        requires
            old(self).wf(),
            old(self).goes_on(),
        ensures
            final(self).wf(),
            final(self).order@ == old(self).order@,
            final(self).target == old(self).target,
            final(self).next == old(self).next + 1,
            final(self).current == if deleted {
                size_after(old(self).order@, old(self).next as int, old(self).current as int)
            } else {
                old(self).current as int
            },
    {
        let n = self.order.len();
        if deleted {
            let size = self.order[self.next].size_bytes;
            self.current = self.current.saturating_sub(size);
        }
        assert(self.next < n);
        self.next = self.next + 1;
    }
}

/// What becomes of audio read from the cache: used (and marked as used when `touch`), or
/// deleted as corrupt.
#[derive(Debug, Clone, Copy, PartialEq, Eq, Structural)]
pub enum CachedRead {
    Use { touch: bool },
    Discard,
}

/// Manages audio file caching with LRU eviction and TTL.
///
/// Responsible for cache policy (when to evict, what to keep); the caller performs the
/// reading, writing and deleting of files that the policy calls for.
#[derive(Debug)]
pub struct CacheManager {
    pub config: CacheConfig,
    pub storage: CacheStorage,
}

/// The id list of entries cached before `days` days before `now`.
pub open spec fn expired_ids(entries: Seq<CacheEntry>, now: Timestamp, days: nat) -> Seq<Seq<char>> {
    ids_cached_before(entries, days_before(now, days))
}

/// Expiry uses a cutoff of exactly `days` times 86400 seconds before `now`: with no entries
/// nothing expires, and an entry added at the end is listed, after those listed before it,
/// exactly when it was cached strictly before that instant (`now` less `days * 86400`
/// seconds, same sub-second part).
pub proof fn lemma_expiry_cutoff(entries: Seq<CacheEntry>, e: CacheEntry, now: Timestamp, days: nat)
    ensures
        expired_ids(Seq::empty(), now, days) == Seq::<Seq<char>>::empty(),
        expired_ids(entries.push(e), now, days) == if e.cached_at.secs < now.secs - days * 86400 || (
        e.cached_at.secs == now.secs - days * 86400 && e.cached_at.nanos < now.nanos) {
            expired_ids(entries, now, days).push(e.song_id@)
        } else {
            expired_ids(entries, now, days)
        },
{
    assert(entries.push(e).drop_last() =~= entries);
}

/// An entry cached less than `days` days before `now` never expires.
pub proof fn lemma_recent_entry_kept(e: CacheEntry, now: Timestamp, days: nat)
    requires
        e.cached_at.secs > now.secs - days * 86400,
    ensures
        expired_ids(seq![e], now, days).len() == 0,
{
    lemma_expiry_cutoff(Seq::empty(), e, now, days);
    assert(Seq::<CacheEntry>::empty().push(e) =~= seq![e]);
}

/// Song ids of the entries cached more than `days` days before `now`, in order.
pub fn ids_older_than(entries: &Vec<CacheEntry>, now: Timestamp, days: u32) -> (r: Vec<String>)
    ensures
        r@.len() == expired_ids(entries@, now, days as nat).len(),
        forall|k: int| 0 <= k < r@.len() ==> (#[trigger] r@[k])@ == expired_ids(entries@, now, days as nat)[k],
{
    let cutoff_secs: i128 = now.secs as i128 - (days as i128) * 86400;
    let mut r: Vec<String> = Vec::new();
    let mut i: usize = 0;
    while i < entries.len()
        invariant
            i <= entries@.len(),
            cutoff_secs == days_before(now, days as nat).0,
            r@.len() == expired_ids(entries@.take(i as int), now, days as nat).len(),
            forall|k: int|
                0 <= k < r@.len() ==> (#[trigger] r@[k])@ == expired_ids(entries@.take(i as int), now, days as nat)[k],
        decreases entries.len() - i,
    {
        assert(entries@.take(i + 1).drop_last() =~= entries@.take(i as int));
        let t = entries[i].cached_at;
        if (t.secs as i128) < cutoff_secs || ((t.secs as i128) == cutoff_secs && t.nanos < now.nanos) {
            r.push(entries[i].song_id.clone());
        }
        i = i + 1;
    }
    assert(entries@.take(entries@.len() as int) =~= entries@);
    r
}

fn read_date(text: &Option<String>, fallback: Timestamp) -> (t: Timestamp)
    ensures
        t == date_or(*text, fallback),
{
    match text {
        Some(s) => match parse_utc(s.as_str()) {
            Some(t) => t,
            None => fallback,
        },
        None => fallback,
    }
}

impl CacheEntry {
    /// The entry a metadata file describes: missing or unreadable dates fall back to the epoch
    /// (the access date to the caching date), a missing size to zero; `None` where the file
    /// names no song.
    pub fn from_meta(meta: &CacheMeta) -> (r: Option<CacheEntry>)
        ensures
            match r {
                Some(e) => meta_entry(*meta) == Some(entry_fields(e)),
                None => meta_entry(*meta) is None,
            },
    {
        let song_id = match &meta.song_id {
            Some(s) => s.clone(),
            None => String::new(),
        };
        let cached_at = read_date(&meta.cached_at, Timestamp { secs: 0, nanos: 0 });
        let last_accessed = read_date(&meta.last_accessed, cached_at);
        let size_bytes = match meta.size_bytes {
            Some(n) => n,
            None => 0,
        };
        if song_id.as_str().is_empty() {
            None
        } else {
            Some(CacheEntry { song_id, cached_at, last_accessed, size_bytes })
        }
    }
}

impl CacheManager {
    /// The largest size the cache may reach, in bytes.
    pub open spec fn max_bytes(&self) -> int {
        self.config.max_size_mb * 1048576
    }

    pub fn new(config: CacheConfig) -> (m: Self)
        ensures
            m.config == config,
            m.storage.base_path@ == config.path@,
    {
        let storage = CacheStorage::new(config.path.clone());
        CacheManager { config, storage }
    }

    pub fn is_enabled(&self) -> (b: bool)
        ensures
            b == self.config.enabled,
    {
        self.config.enabled
    }

    /// Whether a song is in the cache, given a listing of the cache directory.
    pub fn contains(&self, song_id: &str, listing: &Vec<DirEntry>) -> (b: bool)
        ensures
            b == (self.config.enabled && listed(listing@, with_ext(id_hash(song_id@), audio_ext()))),
    {
        self.config.enabled && self.storage.has_audio_file(song_id, listing)
    }

    /// The file path of a cached song, for direct playback.
    pub fn file_path(&self, song_id: &str) -> (p: String)
        ensures
            p@ == join_path(self.storage.base_path@, with_ext(id_hash(song_id@), audio_ext())),
    {
        self.storage.audio_path(song_id)
    }

    /// Cache status, given a listing of the cache directory.
    pub fn status(&self, listing: &Vec<DirEntry>) -> (s: CacheStatus)
        requires
            files_size(listing@) <= u64::MAX,
            self.max_bytes() <= u64::MAX,
        ensures
            s.enabled == self.config.enabled,
            s.file_count == audio_count(listing@),
            s.total_size_bytes == files_size(listing@),
            s.max_size_bytes == self.max_bytes(),
            s.path@ == self.config.path@,
    {
        let file_count = self.storage.file_count(listing);
        let total_size_bytes = self.storage.total_size(listing);
        CacheStatus {
            enabled: self.config.enabled,
            file_count,
            total_size_bytes,
            max_size_bytes: self.config.max_size_mb * 1024 * 1024,
            path: self.config.path.clone(),
        }
    }

    /// The entries that metadata files describe, skipping those that name no song.
    pub fn list_entries(&self, metas: &Vec<CacheMeta>) -> (r: Vec<CacheEntry>)
        ensures
            r@.len() == meta_entries(metas@).len(),
            forall|k: int| 0 <= k < r@.len() ==> entry_fields(#[trigger] r@[k]) == meta_entries(metas@)[k],
    {
        let mut r: Vec<CacheEntry> = Vec::new();
        let mut i: usize = 0;
        while i < metas.len()
            invariant
                i <= metas@.len(),
                r@.len() == meta_entries(metas@.take(i as int)).len(),
                forall|k: int|
                    0 <= k < r@.len() ==> entry_fields(#[trigger] r@[k]) == meta_entries(metas@.take(i as int))[k],
            decreases metas.len() - i,
        {
            assert(metas@.take(i + 1).drop_last() =~= metas@.take(i as int));
            match CacheEntry::from_meta(&metas[i]) {
                Some(e) => r.push(e),
                None => {},
            }
            i = i + 1;
        }
        assert(metas@.take(metas@.len() as int) =~= metas@);
        r
    }

    /// The song ids of the entries cached more than `days` days ago, by the clock at the call.
    /// The caller deletes them; their number is what the removal counts.
    pub fn clear_older_than_days(&self, entries: &Vec<CacheEntry>, days: u32) -> (r: Vec<String>)
        ensures
            exists|now: Timestamp|
                {
                    &&& r@.len() == #[trigger] expired_ids(entries@, now, days as nat).len()
                    &&& forall|k: int|
                        0 <= k < r@.len() ==> (#[trigger] r@[k])@ == expired_ids(entries@, now, days as nat)[k]
                },
    {
        let now = utc_now();
        ids_older_than(entries, now, days)
    }

    /// The song ids of expired entries: those cached more than the configured number of days
    /// ago, by the clock at the call. With zero days every entry cached before now expires.
    pub fn cleanup_expired(&self, entries: &Vec<CacheEntry>) -> (r: Vec<String>)
        ensures
            exists|now: Timestamp|
                {
                    &&& r@.len() == #[trigger] expired_ids(entries@, now, self.config.ttl_days as nat).len()
                    &&& forall|k: int|
                        0 <= k < r@.len() ==> (#[trigger] r@[k])@ == expired_ids(
                            entries@,
                            now,
                            self.config.ttl_days as nat,
                        )[k]
                },
    {
        self.clear_older_than_days(entries, self.config.ttl_days)
    }

    /// Begin eviction when the cache has grown past its limit: its entries from least to most
    /// recently used, to be deleted until the size is below 90% of the limit. `None` when the
    /// cache is within its limit.
    pub fn start_eviction(&self, current: u64, entries: Vec<CacheEntry>) -> (r: Option<Eviction>)
        requires
            self.max_bytes() <= u64::MAX,
        ensures
            current <= self.max_bytes() ==> r is None,
            current > self.max_bytes() ==> (r matches Some(ev) && ev.wf() && ev.next == 0
                && ev.current == current && ev.target == eviction_target(self.max_bytes())
                && exists|p: Seq<int>| is_lru_order(entries@, ev.order@, p)),
    {
        let max_bytes = self.config.max_size_mb * 1024 * 1024;
        if current <= max_bytes {
            return None;
        }
        let order = lru_order(entries);
        Some(Eviction { order, next: 0, current, target: max_bytes - max_bytes / 10 })
    }

    /// What to do with audio read from the cache: without integrity checking use it as it is;
    /// with checking, use it and mark it as used when it passes, else delete it.
    pub fn on_read(&self, data: &[u8], expected: Option<&str>) -> (r: CachedRead)
        ensures
            !self.config.verify_integrity ==> r == (CachedRead::Use { touch: false }),
            self.config.verify_integrity ==> r == if passes_integrity(
                true,
                data@,
                match expected {
                    Some(h) => Some(h@),
                    None => None,
                },
            ) {
                CachedRead::Use { touch: true }
            } else {
                CachedRead::Discard
            },
    {
        if !self.config.verify_integrity {
            CachedRead::Use { touch: false }
        } else if self.integrity_ok(data, expected) {
            CachedRead::Use { touch: true }
        } else {
            CachedRead::Discard
        }
    }

    /// Whether data read from the cache may be used: unless integrity checking is on and the
    /// recorded hash differs from the hash of the data.
    pub fn integrity_ok(&self, data: &[u8], expected: Option<&str>) -> (ok: bool)
        ensures
            ok == passes_integrity(
                self.config.verify_integrity,
                data@,
                match expected {
                    Some(h) => Some(h@),
                    None => None,
                },
            ),
    {
        if !self.config.verify_integrity {
            return true;
        }
        match expected {
            Some(h) => {
                let actual = CacheStorage::hash_content(data);
                str_equal(actual.as_str(), h)
            },
            None => true,
        }
    }
}

} // verus!
