use vstd::prelude::*;

use crate::api::types::Song;
use crate::util::vec_swap;

verus! {

/// Repeat mode for the play queue.
#[derive(Debug, Clone, Copy, PartialEq, Eq, Structural)]
pub enum RepeatMode {
    Off,
    One,
    All,
}

/// What a play queue holds, as mathematical values.
pub struct QueueView {
    pub songs: Seq<Song>,
    pub current: Option<int>,
    pub repeat: RepeatMode,
    pub shuffled: bool,
}

impl QueueView {
    /// A current position exists exactly when the queue has songs, and it points into them.
    pub open spec fn wf(self) -> bool {
        &&& (self.current is None <==> self.songs.len() == 0)
        &&& (self.current matches Some(c) ==> 0 <= c < self.songs.len())
    }
}

/// Position after moving forward: the new position and whether the move succeeded.
pub open spec fn spec_next(current: Option<int>, len: int, repeat: RepeatMode) -> (Option<int>, bool) {
    match current {
        None => (current, false),
        Some(c) => if len == 0 {
            (current, false)
        } else {
            match repeat {
                RepeatMode::One => (current, true),
                RepeatMode::All => (Some((c + 1) % len), true),
                RepeatMode::Off => if c + 1 < len {
                    (Some(c + 1), true)
                } else {
                    (current, false)
                },
            }
        },
    }
}

/// Position after moving backward: the new position and whether the move succeeded.
pub open spec fn spec_prev(current: Option<int>, len: int, repeat: RepeatMode) -> (Option<int>, bool) {
    match current {
        None => (current, false),
        Some(c) => if len == 0 {
            (current, false)
        } else {
            match repeat {
                RepeatMode::One => (current, true),
                RepeatMode::All => (Some(if c == 0 { len - 1 } else { c - 1 }), true),
                RepeatMode::Off => if c > 0 {
                    (Some(c - 1), true)
                } else {
                    (current, false)
                },
            }
        },
    }
}

/// Position after the song at `index` is removed from a queue that is left with `new_len` songs.
pub open spec fn spec_index_after_remove(current: Option<int>, index: int, new_len: int) -> Option<int> {
    if new_len == 0 {
        None
    } else {
        match current {
            None => None,
            Some(c) => if index < c {
                Some(c - 1)
            } else if index == c && c >= new_len {
                Some(new_len - 1)
            } else {
                Some(c)
            },
        }
    }
}

/// Multiplier of the generator that drives the shuffle.
pub const SHUFFLE_MULTIPLIER: u64 = 6364136223846793005;

/// One step of the linear congruential generator used by the shuffle.
#[verifier::opaque]
pub open spec fn lcg_next(seed: u64) -> u64 {
    vstd::wrapping::u64_specs::wrapping_add(
        vstd::wrapping::u64_specs::wrapping_mul(seed, SHUFFLE_MULTIPLIER),
        1,
    )
}

/// The sequence with positions `i` and `j` exchanged.
pub open spec fn seq_swap<A>(s: Seq<A>, i: int, j: int) -> Seq<A> {
    s.update(i, s[j]).update(j, s[i])
}

/// Fisher-Yates passes for positions `i, i-1, ..., 2`: each draws the next generator value
/// and swaps position `i` with a position in `1..=i`. Position 0 is never touched.
pub open spec fn shuffle_tail<A>(s: Seq<A>, seed: u64, i: int) -> Seq<A>
    decreases i,
{
    if i < 2 || i >= s.len() {
        s
    } else {
        let n = lcg_next(seed);
        let j = 1 + (n as int) % i;
        shuffle_tail(seq_swap(s, i, j), n, i - 1)
    }
}

/// The order a shuffle with `seed` gives: the current song first, then the passes.
pub open spec fn spec_shuffled<A>(s: Seq<A>, current: int, seed: u64) -> Seq<A> {
    let front = if current != 0 { seq_swap(s, 0, current) } else { s };
    shuffle_tail(front, seed, s.len() - 1)
}

/// Fisher-Yates passes down to position `i` leave every position above `i` as it was.
proof fn lemma_tail_keeps_above<A>(s: Seq<A>, seed: u64, i: int, k: int)
    requires
        i < k < s.len(),
    ensures
        shuffle_tail(s, seed, i).len() == s.len(),
        shuffle_tail(s, seed, i)[k] == s[k],
    decreases i,
{
    if !(i < 2 || i >= s.len()) {
        let n = lcg_next(seed);
        vstd::arithmetic::div_mod::lemma_mod_pos_bound(n as int, i);
        let j = 1 + (n as int) % i;
        lemma_tail_keeps_above(seq_swap(s, i, j), n, i - 1, k);
    }
}

/// The first Fisher-Yates pass always takes place: for three or more songs, the last place of
/// a shuffle (current song first) holds the song at position `1 + g % (len - 1)`, where `g` is
/// the first value the generator draws from the seed.
pub proof fn lemma_shuffle_last_place<A>(s: Seq<A>, seed: u64)
    requires
        s.len() >= 3,
    ensures
        spec_shuffled(s, 0, seed).len() == s.len(),
        spec_shuffled(s, 0, seed)[s.len() - 1] == s[1 + (lcg_next(seed) as int) % (s.len() - 1)],
{
    let i = s.len() - 1;
    let n = lcg_next(seed);
    vstd::arithmetic::div_mod::lemma_mod_pos_bound(n as int, i);
    let j = 1 + (n as int) % i;
    let t = seq_swap(s, i, j);
    assert(spec_shuffled(s, 0, seed) == shuffle_tail(t, n, i - 1));
    lemma_tail_keeps_above(t, n, i - 1, i);
}

/// A shuffle really reorders: for three or more songs, whenever the songs at positions 1 and
/// `len - 1` differ, some seed gives an order different from the queue's.
pub proof fn lemma_shuffle_moves_songs<A>(s: Seq<A>)
    requires
        s.len() >= 3,
        s[1] != s[s.len() - 1],
    ensures
        exists|seed: u64| spec_shuffled(s, 0, seed) != s,
{
    let seed: u64 = 4568919932995229531;
    assert(lcg_next(seed) == 0) by {
        reveal(lcg_next);
        assert(vstd::wrapping::u64_specs::wrapping_add(
            vstd::wrapping::u64_specs::wrapping_mul(4568919932995229531u64, SHUFFLE_MULTIPLIER),
            1,
        ) == 0);
    }
    lemma_shuffle_last_place(s, seed);
    assert(spec_shuffled(s, 0, seed)[s.len() - 1] == s[1]);
}

/// Shuffling passes keep the first element and the multiset of elements.
pub proof fn lemma_shuffle_tail_permutes<A>(s: Seq<A>, seed: u64, i: int)
    requires
        s.len() >= 1,
    ensures
        shuffle_tail(s, seed, i).len() == s.len(),
        shuffle_tail(s, seed, i).to_multiset() == s.to_multiset(),
        shuffle_tail(s, seed, i)[0] == s[0],
    decreases i,
{
    if i < 2 || i >= s.len() {
    } else {
        let n = lcg_next(seed);
        let j = 1 + (n as int) % i;
        crate::util::lemma_swap_to_multiset(s, i, j);
        lemma_shuffle_tail_permutes(seq_swap(s, i, j), n, i - 1);
    }
}

/// A shuffle keeps every song (as a multiset) and puts the current song first.
pub proof fn lemma_shuffle_is_permutation<A>(s: Seq<A>, current: int, seed: u64)
    requires
        0 <= current < s.len(),
    ensures
        spec_shuffled(s, current, seed).len() == s.len(),
        spec_shuffled(s, current, seed).to_multiset() == s.to_multiset(),
        spec_shuffled(s, current, seed)[0] == s[current],
{
    let front = if current != 0 { seq_swap(s, 0, current) } else { s };
    if current != 0 {
        crate::util::lemma_swap_to_multiset(s, 0, current);
    }
    lemma_shuffle_tail_permutes(front, seed, s.len() - 1);
}

/// A step forward that succeeded is undone by a step backward in the same repeat mode.
pub proof fn lemma_next_then_prev(c: int, len: int, repeat: RepeatMode)
    requires
        0 <= c < len,
        spec_next(Some(c), len, repeat).1,
    ensures
        spec_prev(spec_next(Some(c), len, repeat).0, len, repeat) == (Some(c), true),
{
    if repeat == RepeatMode::All {
        if c + 1 < len {
            vstd::arithmetic::div_mod::lemma_small_mod((c + 1) as nat, len as nat);
        } else {
            vstd::arithmetic::div_mod::lemma_mod_self_0(len);
        }
    }
}

/// A step backward that succeeded is undone by a step forward in the same repeat mode.
pub proof fn lemma_prev_then_next(c: int, len: int, repeat: RepeatMode)
    requires
        0 <= c < len,
        spec_prev(Some(c), len, repeat).1,
    ensures
        spec_next(spec_prev(Some(c), len, repeat).0, len, repeat) == (Some(c), true),
{
    if repeat == RepeatMode::All {
        if c == 0 {
            vstd::arithmetic::div_mod::lemma_mod_self_0(len);
        } else {
            vstd::arithmetic::div_mod::lemma_small_mod(c as nat, len as nat);
        }
    }
}

/// Stepping keeps the position inside a non-empty queue, and a step fails only when not
/// repeating and at the corresponding end of the queue.
pub proof fn lemma_step_stays_in_queue(c: int, len: int, repeat: RepeatMode)
    requires
        0 <= c < len,
    ensures
        spec_next(Some(c), len, repeat).0 matches Some(n) && 0 <= n < len,
        spec_prev(Some(c), len, repeat).0 matches Some(p) && 0 <= p < len,
        !spec_next(Some(c), len, repeat).1 <==> (repeat == RepeatMode::Off && c == len - 1),
        !spec_prev(Some(c), len, repeat).1 <==> (repeat == RepeatMode::Off && c == 0),
{
}

/// Removing a song other than the current one keeps the same song current.
pub proof fn lemma_remove_keeps_current_song<A>(songs: Seq<A>, c: int, index: int)
    requires
        0 <= c < songs.len(),
        0 <= index < songs.len(),
        index != c,
    ensures
        spec_index_after_remove(Some(c), index, songs.len() - 1) matches Some(n)
            && songs.remove(index)[n] == songs[c],
{
}

/// Manages an ordered list of songs for playback.
///
/// Responsible only for ordering, current position, and navigation.
/// Does not handle actual playback.
#[derive(Debug)]
pub struct PlayQueue {
    songs: Vec<Song>,
    current_index: Option<usize>,
    repeat: RepeatMode,
    shuffled: bool,
}

impl View for PlayQueue {
    type V = QueueView;

    closed spec fn view(&self) -> QueueView {
        QueueView {
            songs: self.songs@,
            current: match self.current_index {
                Some(i) => Some(i as int),
                None => None,
            },
            repeat: self.repeat,
            shuffled: self.shuffled,
        }
    }
}

impl Default for PlayQueue {
    /// An empty queue, not repeating, not shuffled.
    fn default() -> (q: PlayQueue)
        ensures
            q@.songs == Seq::<Song>::empty(),
            q@.current is None,
            q@.repeat == RepeatMode::Off,
            !q@.shuffled,
            q@.wf(),
    {
        Self::new()
    }
}

impl PlayQueue {
    /// An empty queue, not repeating, not shuffled.
    pub fn new() -> (q: PlayQueue)
        ensures
            q@.songs == Seq::<Song>::empty(),
            q@.current is None,
            q@.repeat == RepeatMode::Off,
            !q@.shuffled,
            q@.wf(),
    {
        PlayQueue { songs: Vec::new(), current_index: None, repeat: RepeatMode::Off, shuffled: false }
    }

    /// A queue of the given songs, positioned on the first one.
    pub fn from_songs(songs: Vec<Song>) -> (q: PlayQueue)
        ensures
            q@.songs == songs@,
            q@.current == (if songs@.len() > 0 { Some(0int) } else { None }),
            q@.repeat == RepeatMode::Off,
            !q@.shuffled,
            q@.wf(),
    {
        let has_songs = songs.len() > 0;
        PlayQueue {
            songs,
            current_index: if has_songs { Some(0) } else { None },
            repeat: RepeatMode::Off,
            shuffled: false,
        }
    }

    /// Append a song; an empty queue becomes positioned on it.
    pub fn add(&mut self, song: Song)
        requires
            old(self)@.wf(),
        ensures
            final(self)@.songs == old(self)@.songs.push(song),
            final(self)@.current == (match old(self)@.current {
                Some(c) => Some(c),
                None => Some(0int),
            }),
            final(self)@.repeat == old(self)@.repeat,
            final(self)@.shuffled == old(self)@.shuffled,
            final(self)@.wf(),
    {
        self.songs.push(song);
        if self.current_index.is_none() {
            self.current_index = Some(0);
        }
    }

    /// Remove every song; there is no current song afterwards.
    pub fn clear(&mut self)
        ensures
            final(self)@.songs == Seq::<Song>::empty(),
            final(self)@.current is None,
            final(self)@.repeat == old(self)@.repeat,
            final(self)@.shuffled == old(self)@.shuffled,
            final(self)@.wf(),
    {
        self.songs.clear();
        self.current_index = None;
    }

    /// The song at the current position.
    pub fn current(&self) -> (r: Option<&Song>)
        requires
            self@.wf(),
        ensures
            match self@.current {
                Some(c) => r == Some(&self@.songs[c]),
                None => r is None,
            },
    {
        match self.current_index {
            Some(i) => Some(&self.songs[i]),
            None => None,
        }
    }

    pub fn current_index(&self) -> (r: Option<usize>)
        ensures
            match r {
                Some(i) => self@.current == Some(i as int),
                None => self@.current is None,
            },
    {
        self.current_index
    }

    pub fn len(&self) -> (n: usize)
        ensures
            n == self@.songs.len(),
    {
        self.songs.len()
    }

    pub fn is_empty(&self) -> (b: bool)
        ensures
            b == (self@.songs.len() == 0),
    {
        self.songs.len() == 0
    }

    /// The songs in queue order.
    pub fn list(&self) -> (s: &[Song])
        ensures
            s@ == self@.songs,
    {
        self.songs.as_slice()
    }

    pub fn repeat(&self) -> (m: RepeatMode)
        ensures
            m == self@.repeat,
    {
        self.repeat
    }

    pub fn set_repeat(&mut self, mode: RepeatMode)
        ensures
            final(self)@ == (QueueView { repeat: mode, ..old(self)@ }),
    {
        self.repeat = mode;
    }

    /// Move to next track. Returns true if moved, false if at end.
    pub fn next(&mut self) -> (moved: bool)
        requires
            old(self)@.wf(),
        ensures
            (final(self)@.current, moved) == spec_next(
                old(self)@.current,
                old(self)@.songs.len() as int,
                old(self)@.repeat,
            ),
            final(self)@.songs == old(self)@.songs,
            final(self)@.repeat == old(self)@.repeat,
            final(self)@.shuffled == old(self)@.shuffled,
            final(self)@.wf(),
    {
        let current = match self.current_index {
            Some(c) => c,
            None => {
                return false;
            },
        };
        if self.songs.len() == 0 {
            return false;
        }
        match self.repeat {
            RepeatMode::One => true,
            RepeatMode::All => {
                self.current_index = Some((current + 1) % self.songs.len());
                true
            },
            RepeatMode::Off => {
                if current + 1 < self.songs.len() {
                    self.current_index = Some(current + 1);
                    true
                } else {
                    false
                }
            },
        }
    }

    /// Move to previous track. Returns true if moved.
    pub fn prev(&mut self) -> (moved: bool)
        requires
            old(self)@.wf(),
        ensures
            (final(self)@.current, moved) == spec_prev(
                old(self)@.current,
                old(self)@.songs.len() as int,
                old(self)@.repeat,
            ),
            final(self)@.songs == old(self)@.songs,
            final(self)@.repeat == old(self)@.repeat,
            final(self)@.shuffled == old(self)@.shuffled,
            final(self)@.wf(),
    {
        let current = match self.current_index {
            Some(c) => c,
            None => {
                return false;
            },
        };
        if self.songs.len() == 0 {
            return false;
        }
        match self.repeat {
            RepeatMode::One => true,
            RepeatMode::All => {
                self.current_index = Some(
                    if current == 0 {
                        self.songs.len() - 1
                    } else {
                        current - 1
                    },
                );
                true
            },
            RepeatMode::Off => {
                if current > 0 {
                    self.current_index = Some(current - 1);
                    true
                } else {
                    false
                }
            },
        }
    }

    /// Shuffle with a given generator seed, keeping the current track at position 0.
    /// Queues of at most one song are left unchanged.
    pub fn shuffle_with_seed(&mut self, seed: u64)
        requires
            old(self)@.wf(),
        ensures
            old(self)@.songs.len() <= 1 ==> final(self)@ == old(self)@,
            old(self)@.songs.len() > 1 ==> {
                &&& final(self)@.songs == spec_shuffled(old(self)@.songs, old(self)@.current->0, seed)
                &&& final(self)@.current == Some(0int)
                &&& final(self)@.shuffled
                &&& final(self)@.repeat == old(self)@.repeat
            },
            final(self)@.songs.to_multiset() == old(self)@.songs.to_multiset(),
            final(self)@.wf(),
    {
        let len = self.songs.len();
        if len <= 1 {
            return;
        }
        let ghost before = self.songs@;
        let ghost cur = self@.current->0;
        // Move current song to front
        if let Some(idx) = self.current_index {
            if idx != 0 {
                vec_swap(&mut self.songs, 0, idx);
            }
        }
        let ghost front = self.songs@;
        assert(front == (if cur != 0 { seq_swap(before, 0, cur) } else { before }));
        let mut state: u64 = seed;
        let mut i: usize = len - 1;
        while i >= 2
            invariant
                self.songs@.len() == len,
                len >= 2,
                1 <= i < len,
                shuffle_tail(self.songs@, state, i as int) == shuffle_tail(front, seed, len - 1),
                self.repeat == old(self).repeat,
            decreases i,
        {
            let ghost prev_state = state;
            state = state.wrapping_mul(SHUFFLE_MULTIPLIER).wrapping_add(1);
            assert(state == lcg_next(prev_state)) by {
                reveal(lcg_next);
            }
            let j: usize = 1 + (state % (i as u64)) as usize;
            assert(j == 1 + (state as int) % (i as int));
            vec_swap(&mut self.songs, i, j);
            i = i - 1;
        }
        assert(i == 1);
        assert(shuffle_tail(self.songs@, state, 1) == self.songs@);
        assert(self.songs@ == shuffle_tail(front, seed, len - 1));
        assert(spec_shuffled(before, cur, seed) == shuffle_tail(front, seed, before.len() - 1));
        assert(self.songs@ == spec_shuffled(before, cur, seed));
        self.current_index = Some(0);
        self.shuffled = true;
        proof {
            lemma_shuffle_is_permutation(before, cur, seed);
        }
    }

    /// Shuffle the queue, keeping the current track at position 0. The order depends on
    /// a seed taken from the clock; whatever it is, the result is one of the orders of
    /// `spec_shuffled` and holds the same songs.
    pub fn shuffle(&mut self)
        requires
            old(self)@.wf(),
        ensures
            old(self)@.songs.len() <= 1 ==> final(self)@ == old(self)@,
            old(self)@.songs.len() > 1 ==> {
                &&& exists|seed: u64|
                    final(self)@.songs == spec_shuffled(old(self)@.songs, old(self)@.current->0, seed)
                &&& final(self)@.songs[0] == old(self)@.songs[old(self)@.current->0]
                &&& final(self)@.current == Some(0int)
                &&& final(self)@.shuffled
                &&& final(self)@.repeat == old(self)@.repeat
            },
            final(self)@.songs.to_multiset() == old(self)@.songs.to_multiset(),
            final(self)@.wf(),
    {
        let seed = crate::util::clock_seed();
        self.shuffle_with_seed(seed);
        proof {
            if old(self)@.songs.len() > 1 {
                lemma_shuffle_is_permutation(old(self)@.songs, old(self)@.current->0, seed);
            }
        }
    }

    pub fn is_shuffled(&self) -> (b: bool)
        ensures
            b == self@.shuffled,
    {
        self.shuffled
    }

    /// Remove a song by index.
    pub fn remove(&mut self, index: usize) -> (r: Option<Song>)
        requires
            old(self)@.wf(),
        ensures
            index >= old(self)@.songs.len() ==> r is None && final(self)@ == old(self)@,
            index < old(self)@.songs.len() ==> {
                &&& r == Some(old(self)@.songs[index as int])
                &&& final(self)@.songs == old(self)@.songs.remove(index as int)
                &&& final(self)@.current == spec_index_after_remove(
                    old(self)@.current,
                    index as int,
                    old(self)@.songs.len() - 1,
                )
                &&& final(self)@.repeat == old(self)@.repeat
                &&& final(self)@.shuffled == old(self)@.shuffled
            },
            final(self)@.wf(),
    {
        if index >= self.songs.len() {
            return None;
        }
        let song = self.songs.remove(index);
        if self.songs.len() == 0 {
            self.current_index = None;
        } else if let Some(current) = self.current_index {
            if index < current {
                self.current_index = Some(current - 1);
            } else if index == current && current >= self.songs.len() {
                self.current_index = Some(self.songs.len() - 1);
            }
        }
        Some(song)
    }
}

} // verus!
