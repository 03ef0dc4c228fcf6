use vstd::prelude::*;

use crate::platform::{join, join_path};

verus! {

/// A single playback history record.
#[derive(Debug, Clone)]
pub struct HistoryEntry {
    pub song_id: String,
    pub title: String,
    pub artist: String,
    pub album: String,
    pub played_at: String,
}

/// Playback history kept as a JSON file at `path`, holding at most `max_entries` records.
/// The application reads and writes the file; this type decides what it holds.
pub struct PlayHistory {
    pub path: String,
    pub max_entries: usize,
}

/// Number of records kept by default.
pub const DEFAULT_MAX_ENTRIES: usize = 500;

/// The records kept after appending one: the newest `max` of them, oldest first.
pub open spec fn spec_after_add(entries: Seq<HistoryEntry>, entry: HistoryEntry, max: nat) -> Seq<
    HistoryEntry,
> {
    let all = entries.push(entry);
    if all.len() > max {
        all.skip(all.len() - max)
    } else {
        all
    }
}

/// The newest `limit` records, newest first.
pub open spec fn spec_recent(entries: Seq<HistoryEntry>, limit: nat) -> Seq<HistoryEntry> {
    let rev = entries.reverse();
    if limit < rev.len() {
        rev.take(limit as int)
    } else {
        rev
    }
}

/// The history file: `synoplayer/history.json` under the configuration directory, or under
/// the current directory where there is none.
pub open spec fn history_path_under(dir: Option<String>) -> Seq<char> {
    join_path(
        match dir {
            Some(d) => d@,
            None => "."@,
        },
        "synoplayer/history.json"@,
    )
}

impl Default for PlayHistory {
    fn default() -> (h: Self)
        ensures
            h.max_entries == DEFAULT_MAX_ENTRIES,
            exists|dir: Option<String>| h.path@ == #[trigger] history_path_under(dir),
    {
        Self::new()
    }
}

impl PlayHistory {
    /// The history in the user's configuration directory, keeping the default number of records.
    pub fn new() -> (h: Self)
        ensures
            h.max_entries == DEFAULT_MAX_ENTRIES,
            exists|dir: Option<String>| h.path@ == #[trigger] history_path_under(dir),
    {
        let dir = crate::platform::config_dir();
        let path = match &dir {
            Some(d) => join(d.as_str(), "synoplayer/history.json"),
            None => join(".", "synoplayer/history.json"),
        };
        assert(path@ == history_path_under(dir));
        PlayHistory { path, max_entries: DEFAULT_MAX_ENTRIES }
    }

    /// Record a played track in the loaded records, dropping the oldest beyond the maximum.
    pub fn add(&self, entries: &mut Vec<HistoryEntry>, entry: HistoryEntry)
        ensures
            final(entries)@ == spec_after_add(old(entries)@, entry, self.max_entries as nat),
    {
        entries.push(entry);
        // Trim to max size
        if entries.len() > self.max_entries {
            let excess = entries.len() - self.max_entries;
            let kept = entries.split_off(excess);
            *entries = kept;
        }
    }

    /// Get recent history entries (newest first).
    pub fn list(&self, entries: Vec<HistoryEntry>, limit: usize) -> (r: Vec<HistoryEntry>)
        ensures
            r@ == spec_recent(entries@, limit as nat),
    {
        let mut rest = entries;
        let mut r: Vec<HistoryEntry> = Vec::new();
        let ghost all = rest@;
        while r.len() < limit && rest.len() > 0
            invariant
                rest@ == all.take(rest@.len() as int),
                rest@.len() <= all.len(),
                r@ == all.reverse().take(all.len() - rest@.len()),
                r@.len() == all.len() - rest@.len(),
                r@.len() <= limit,
            decreases rest@.len(),
        {
            let ghost before = rest@;
            match rest.pop() {
                Some(e) => {
                    proof {
                        assert(e == all.reverse()[all.len() - before.len()]);
                        assert(all.reverse().take(all.len() - before.len() + 1) =~= r@.push(e));
                    }
                    r.push(e);
                },
                None => {},
            }
        }
        proof {
            if limit < all.len() {
                assert(r@.len() == limit);
            } else {
                assert(rest@.len() == 0);
                assert(r@ =~= all.reverse());
            }
        }
        r
    }

    /// Total number of entries.
    pub fn count(&self, entries: &Vec<HistoryEntry>) -> (n: usize)
        ensures
            n == entries@.len(),
    {
        entries.len()
    }
}

/// After a track is recorded it is the first of the recent records, and the history never
/// holds more than its maximum.
pub proof fn lemma_recorded_track_listed_first(
    entries: Seq<HistoryEntry>,
    entry: HistoryEntry,
    max: nat,
    limit: nat,
)
    requires
        max >= 1,
        limit >= 1,
    ensures
        spec_after_add(entries, entry, max).len() <= max,
        spec_recent(spec_after_add(entries, entry, max), limit)[0] == entry,
        spec_recent(spec_after_add(entries, entry, max), limit).len() == if limit < spec_after_add(
            entries,
            entry,
            max,
        ).len() {
            limit as int
        } else {
            spec_after_add(entries, entry, max).len() as int
        },
{
    let kept = spec_after_add(entries, entry, max);
    assert(kept.len() >= 1);
    assert(kept.last() == entry);
    assert(kept.reverse()[0] == kept[kept.len() - 1]);
}

} // verus!
