//! What the player does on a key press, an IPC request, a tick of the clock, and the result of
//! outside work: each step updates the state and names the outside work to do next.
use vstd::prelude::*;

use crate::api::types::{is_folder_song, Folder, Song};
use crate::ipc::protocol::{IpcData, IpcRequest, IpcResponse, QueueTrack};
use crate::playback::{display_title, tag_artist, track_from_song};
use crate::player::queue::RepeatMode;
use crate::text::{decimal, push_decimal, push_str, str_equal};
use crate::tui::app::{App, PlaylistDetail, StatefulList, Tab, increasing, played_after, select_down};
use crate::duration::Duration;
use crate::util::vec_swap;

verus! {

/// A key as the player reads it.
#[derive(Debug, Clone, Copy, PartialEq, Eq, Structural)]
pub enum Key {
    Char(char),
    Tab,
    BackTab,
    Down,
    Up,
    PageDown,
    PageUp,
    Enter,
    Esc,
    Insert,
    Other,
}

/// Outside work a step calls for. The caller performs it and reports the result through the
/// matching method of `App`.
#[derive(Debug)]
pub enum Effect {
    /// Nothing to do.
    Nothing,
    /// Stop the audio player.
    StopPlayer,
    /// Pause the audio player.
    PausePlayer,
    /// Set the audio player's volume.
    SetVolume(u8),
    /// Play the song at a position of the queue (report with `play_started` or `play_failed`).
    Play { index: usize, show_queue: bool, clear_on_error: bool, report_error: bool },
    /// List a folder, the root where `None` (report with `folder_loaded`).
    LoadFolder { folder_id: Option<String> },
    /// Fetch a playlist's songs (report with `playlist_fetched`).
    FetchPlaylist { id: String, name: String, play: bool },
    /// Walk folders for their audio files (drive with `FolderScan`, report with
    /// `folders_scanned`).
    Scan(FolderScan),
    /// Add the song to the favourites, or remove it (report with `favorite_toggled`).
    ToggleFavorite { song_id: String, add: bool },
}

/// How deep a folder walk descends below the folders it starts from.
pub const SCAN_DEPTH: u32 = 10;

/// A depth-first walk of folders collecting their audio files: the folders still to list, the
/// next on top (last), each with the depth still allowed below it, and the songs found so far.
/// Files of a folder come before those of its subfolders, and subfolders in listing order.
#[derive(Debug)]
pub struct FolderScan {
    pub pending: Vec<(String, u32)>,
    pub songs: Vec<Song>,
    /// The title of the single folder walked; `None` for a walk of marked folders.
    pub title: Option<String>,
}

/// The pending stack for walking `ids` in order: the first id on top.
pub open spec fn roots_stack(ids: Seq<String>, depth: u32) -> Seq<(String, u32)> {
    Seq::new(ids.len(), |k: int| (ids[ids.len() - 1 - k], depth))
}

/// The directories of a listing, in order.
pub open spec fn listing_dirs(items: Seq<Folder>) -> Seq<Folder>
    decreases items.len(),
{
    if items.len() == 0 {
        Seq::empty()
    } else if items.last().is_dir {
        listing_dirs(items.drop_last()).push(items.last())
    } else {
        listing_dirs(items.drop_last())
    }
}

/// The files of a listing, in order.
pub open spec fn listing_files(items: Seq<Folder>) -> Seq<Folder>
    decreases items.len(),
{
    if items.len() == 0 {
        Seq::empty()
    } else if items.last().is_dir {
        listing_files(items.drop_last())
    } else {
        listing_files(items.drop_last()).push(items.last())
    }
}

/// Whether `songs` are the songs the folder entries `files` stand for, in order.
pub open spec fn songs_of(songs: Seq<Song>, files: Seq<Folder>) -> bool {
    &&& songs.len() == files.len()
    &&& forall|k: int| 0 <= k < songs.len() ==> is_folder_song(#[trigger] songs[k], files[k])
}

impl FolderScan {
    /// A walk of the given folders, in order, each down to `SCAN_DEPTH` levels.
    pub fn new(ids: Vec<String>, title: Option<String>) -> (s: Self)
        ensures
            s.pending@ == roots_stack(ids@, SCAN_DEPTH),
            s.songs@.len() == 0,
            s.title == title,
    {
        let mut pending: Vec<(String, u32)> = Vec::new();
        let n = ids.len();
        let mut k: usize = 0;
        while k < n
            invariant
                n == ids@.len(),
                k <= n,
                pending@ == roots_stack(ids@, SCAN_DEPTH).take(k as int),
            decreases n - k,
        {
            let id = ids[n - 1 - k].clone();
            pending.push((id, SCAN_DEPTH));
            assert(pending@ =~= roots_stack(ids@, SCAN_DEPTH).take(k + 1));
            k = k + 1;
        }
        assert(pending@ =~= roots_stack(ids@, SCAN_DEPTH));
        FolderScan { pending, songs: Vec::new(), title }
    }

    /// The folder to list next, or `None` when the walk is over.
    pub fn next_folder(&self) -> (r: Option<String>)
        ensures
            self.pending@.len() == 0 ==> r is None,
            self.pending@.len() > 0 ==> r == Some(self.pending@.last().0),
    {
        let n = self.pending.len();
        if n == 0 {
            None
        } else {
            Some(self.pending[n - 1].0.clone())
        }
    }

    /// Take in the listing of the folder on top: its files join the songs, and its directories
    /// (while depth remains) are walked next, in listing order.
    pub fn on_listing(&mut self, items: Vec<Folder>)
        requires
            old(self).pending@.len() > 0,
        ensures
            final(self).title == old(self).title,
            ({
                let (_, depth) = old(self).pending@.last();
                let rest = old(self).pending@.drop_last();
                let dirs = listing_dirs(items@);
                let added = final(self).songs@.skip(old(self).songs@.len() as int);
                &&& final(self).songs@.take(old(self).songs@.len() as int) == old(self).songs@
                &&& final(self).songs@.len() >= old(self).songs@.len()
                &&& songs_of(added, listing_files(items@))
                &&& depth == 0 ==> final(self).pending@ == rest
                &&& depth > 0 ==> final(self).pending@ == rest + Seq::new(
                    dirs.len(),
                    |k: int| (dirs[dirs.len() - 1 - k].id, (depth - 1) as u32),
                )
            }),
    {
        let top = self.pending.pop().unwrap();
        let depth = top.1;
        let ghost rest = self.pending@;
        let ghost old_songs = self.songs@;
        let mut dirs: Vec<String> = Vec::new();
        let mut i: usize = 0;
        while i < items.len()
            invariant
                i <= items@.len(),
                self.title == old(self).title,
                self.pending@ == rest,
                self.songs@.take(old_songs.len() as int) == old_songs,
                self.songs@.len() >= old_songs.len(),
                songs_of(self.songs@.skip(old_songs.len() as int), listing_files(items@.take(i as int))),
                dirs@.len() == listing_dirs(items@.take(i as int)).len(),
                forall|k: int| 0 <= k < dirs@.len() ==> (#[trigger] dirs@[k]) == listing_dirs(items@.take(i as int))[k].id,
            decreases items.len() - i,
        {
            assert(items@.take(i + 1).drop_last() =~= items@.take(i as int));
            let ghost before = self.songs@;
            if items[i].is_dir {
                dirs.push(items[i].id.clone());
            } else {
                let s = items[i].to_song();
                self.songs.push(s);
                assert(self.songs@.skip(old_songs.len() as int) =~= before.skip(old_songs.len() as int).push(s));
                assert(self.songs@.take(old_songs.len() as int) =~= before.take(old_songs.len() as int));
            }
            i = i + 1;
        }
        assert(items@.take(items@.len() as int) =~= items@);
        if depth > 0 {
            let n = dirs.len();
            let mut k: usize = 0;
            while k < n
                invariant
                    n == dirs@.len(),
                    k <= n,
                    depth > 0,
                    self.title == old(self).title,
                    self.songs@.take(old_songs.len() as int) == old_songs,
                    self.songs@.len() >= old_songs.len(),
                    songs_of(self.songs@.skip(old_songs.len() as int), listing_files(items@)),
                    dirs@.len() == listing_dirs(items@).len(),
                    forall|j: int| 0 <= j < dirs@.len() ==> (#[trigger] dirs@[j]) == listing_dirs(items@)[j].id,
                    self.pending@ == rest + Seq::new(
                        k as nat,
                        |j: int| (dirs@[n - 1 - j], (depth - 1) as u32),
                    ),
                decreases n - k,
            {
                let id = dirs[n - 1 - k].clone();
                self.pending.push((id, depth - 1));
                assert(self.pending@ =~= rest + Seq::new(
                    (k + 1) as nat,
                    |j: int| (dirs@[n - 1 - j], (depth - 1) as u32),
                ));
                k = k + 1;
            }
            let ghost ld = listing_dirs(items@);
            assert(self.pending@ =~= rest + Seq::new(
                ld.len(),
                |j: int| (ld[ld.len() - 1 - j].id, (depth - 1) as u32),
            ));
        }
    }
}

/// `SliceRandom::shuffle` of `rand` on the items from position `from` on, with the thread's
/// random generator. Stated: only the items from `from` on move, and they are permuted (the
/// crate's shuffle swaps items within the slice). Which permutation comes out is chance.
#[verifier::external_body]
pub(crate) fn shuffle_from<T>(v: &mut Vec<T>, from: usize)
    requires
        from <= old(v)@.len(),
    ensures
        final(v)@.len() == old(v)@.len(),
        final(v)@.take(from as int) == old(v)@.take(from as int),
        final(v)@.skip(from as int).to_multiset() == old(v)@.skip(from as int).to_multiset(),
{
    rand::seq::SliceRandom::shuffle(&mut v[from..], &mut rand::thread_rng());
}

/// The queue before shuffling with the selected song moved to the front, when shuffling applies.
pub open spec fn front_swapped(q: Seq<Song>, selected: int) -> Seq<Song> {
    if 0 < selected < q.len() {
        q.update(0, q[selected]).update(selected, q[0])
    } else {
        q
    }
}

/// What preparing a queue for playing from `sel` gives: with shuffling off (or nothing to
/// play) the queue as it was and `sel`; with shuffling on, position zero, holding the selected
/// song (the first song when `sel` is out of range), the other songs in some order behind it.
pub open spec fn shuffled_for_play(shuffle: bool, q0: Seq<Song>, sel: int, q: Seq<Song>, start: int) -> bool {
    if !shuffle || q0.len() == 0 {
        start == sel && q == q0
    } else {
        &&& start == 0
        &&& q.len() == q0.len()
        &&& q[0] == front_swapped(q0, sel)[0]
        &&& q.to_multiset() == q0.to_multiset()
        &&& q0.len() <= 2 ==> q == front_swapped(q0, sel)
    }
}

/// Prepare a queue for playing from `selected_idx`: with shuffling on, the selected song moves
/// to the front and the others are shuffled behind it, and play starts at the front. Returns
/// the position to start from.
pub fn apply_shuffle(shuffle: bool, queue: &mut Vec<Song>, selected_idx: usize) -> (start: usize)
    ensures
        shuffled_for_play(shuffle, old(queue)@, selected_idx as int, final(queue)@, start as int),
{
    if !shuffle || queue.len() == 0 {
        return selected_idx;
    }
    let ghost q0 = queue@;
    if selected_idx > 0 && selected_idx < queue.len() {
        vec_swap(queue, 0, selected_idx);
        proof {
            crate::util::lemma_swap_to_multiset(q0, 0, selected_idx as int);
        }
    }
    let ghost q1 = queue@;
    assert(q1 == front_swapped(q0, selected_idx as int));
    assert(q1.to_multiset() == q0.to_multiset());
    if queue.len() > 2 {
        shuffle_from(queue, 1);
        proof {
            let q2 = queue@;
            assert(q2 =~= q2.take(1) + q2.skip(1));
            assert(q1 =~= q1.take(1) + q1.skip(1));
            vstd::seq_lib::lemma_multiset_commutative(q2.take(1), q2.skip(1));
            vstd::seq_lib::lemma_multiset_commutative(q1.take(1), q1.skip(1));
            assert(q2[0] == q2.take(1)[0]);
        }
    }
    0
}

/// The songs of the file entries of a folder listing, in order.
pub fn collect_folder_songs(items: &Vec<Folder>) -> (songs: Vec<Song>)
    ensures
        songs_of(songs@, listing_files(items@)),
{
    let mut songs: Vec<Song> = Vec::new();
    let mut i: usize = 0;
    while i < items.len()
        invariant
            i <= items@.len(),
            songs_of(songs@, listing_files(items@.take(i as int))),
        decreases items.len() - i,
    {
        assert(items@.take(i + 1).drop_last() =~= items@.take(i as int));
        if !items[i].is_dir {
            songs.push(items[i].to_song());
        }
        i = i + 1;
    }
    assert(items@.take(items@.len() as int) =~= items@);
    songs
}

/// The position of the first song with the given id, or zero when none has it.
pub open spec fn position_of_id(songs: Seq<Song>, id: Seq<char>) -> int {
    match songs.map_values(|s: Song| s.id@).index_of_first(id) {
        Some(k) => k,
        None => 0,
    }
}

/// The position of the first song with the given id, or zero when none has it.
pub fn position_or_first(songs: &Vec<Song>, id: &str) -> (k: usize)
    ensures
        k == position_of_id(songs@, id@),
        songs@.len() > 0 ==> k < songs@.len(),
{
    let ghost ids = songs@.map_values(|s: Song| s.id@);
    proof {
        ids.index_of_first_ensures(id@);
    }
    let mut i: usize = 0;
    while i < songs.len()
        invariant
            i <= songs@.len(),
            ids == songs@.map_values(|s: Song| s.id@),
            forall|j: int| 0 <= j < i ==> ids[j] != id@,
            match ids.index_of_first(id@) {
                Some(index) => {
                    &&& ids.contains(id@)
                    &&& 0 <= index < ids.len()
                    &&& ids[index] == id@
                    &&& forall|j: int| 0 <= j < index < ids.len() ==> ids[j] != id@
                },
                None => !ids.contains(id@),
            },
        decreases songs.len() - i,
    {
        if str_equal(songs[i].id.as_str(), id) {
            assert(ids[i as int] == id@);
            return i;
        }
        i = i + 1;
    }
    proof {
        if ids.contains(id@) {
            let j = choose|j: int| 0 <= j < ids.len() && ids[j] == id@;
            assert(ids[j] != id@);
        }
    }
    0
}


// --- Status texts ---

/// The word for a repeat mode.
pub open spec fn repeat_word(m: RepeatMode) -> Seq<char> {
    match m {
        RepeatMode::Off => "off"@,
        RepeatMode::One => "one"@,
        RepeatMode::All => "all"@,
    }
}

/// The repeat mode that follows another when cycling: off, all, one, off.
pub open spec fn next_repeat(m: RepeatMode) -> RepeatMode {
    match m {
        RepeatMode::Off => RepeatMode::All,
        RepeatMode::All => RepeatMode::One,
        RepeatMode::One => RepeatMode::Off,
    }
}

/// `ON` or `off`.
pub open spec fn on_off(b: bool) -> Seq<char> {
    if b {
        "ON"@
    } else {
        "off"@
    }
}

/// The status while a song is being prepared for playing.
pub open spec fn loading_status(song: Song) -> Seq<char> {
    "Loading: "@ + tag_artist(song) + " - "@ + display_title(song) + "..."@
}

/// The status once the song at position `i` of a queue of `n` songs plays.
pub open spec fn playing_status(i: nat, n: nat) -> Seq<char> {
    "Playing ["@ + decimal(i + 1) + "/"@ + decimal(n) + "]"@
}

/// `a` followed by `b`.
pub fn cat(a: &str, b: &str) -> (s: String)
    ensures
        s@ == a@ + b@,
{
    let mut s = a.to_string();
    push_str(&mut s, b);
    s
}

/// `a`, `b` and `c` in a row.
pub fn cat3(a: &str, b: &str, c: &str) -> (s: String)
    ensures
        s@ == a@ + b@ + c@,
{
    let mut s = a.to_string();
    push_str(&mut s, b);
    push_str(&mut s, c);
    s
}

/// `a`, the decimal notation of `n`, and `b`.
pub fn with_number(a: &str, n: u64, b: &str) -> (s: String)
    ensures
        s@ == a@ + decimal(n as nat) + b@,
{
    let mut s = a.to_string();
    push_decimal(&mut s, n);
    push_str(&mut s, b);
    s
}

fn repeat_text(m: RepeatMode) -> (s: &'static str)
    ensures
        s@ == repeat_word(m),
{
    match m {
        RepeatMode::Off => "off",
        RepeatMode::One => "one",
        RepeatMode::All => "all",
    }
}

fn on_off_text(b: bool) -> (s: &'static str)
    ensures
        s@ == on_off(b),
{
    if b {
        "ON"
    } else {
        "off"
    }
}

// --- State frames ---

/// The lists and folder navigation agree.
pub open spec fn same_lists(a: App, b: App) -> bool {
    &&& b.songs == a.songs
    &&& b.playlists == a.playlists
    &&& b.playlist_detail == a.playlist_detail
    &&& b.folders == a.folders
    &&& b.selected_folders == a.selected_folders
    &&& b.folder_stack == a.folder_stack
}

/// The settings agree: running, active tab, volume, shuffle and repeat.
pub open spec fn same_modes(a: App, b: App) -> bool {
    &&& b.running == a.running
    &&& b.active_tab == a.active_tab
    &&& b.volume == a.volume
    &&& b.shuffle == a.shuffle
    &&& b.repeat_mode == a.repeat_mode
}

/// Only the status may differ.
pub open spec fn only_status(a: App, b: App) -> bool {
    &&& same_lists(a, b)
    &&& same_modes(a, b)
    &&& b.queue == a.queue
    &&& b.now_playing == a.now_playing
}

/// Starting to play the song at `index` of `b`'s queue: the status says it is loading.
pub open spec fn starts_play(b: App, e: Effect, index: int, show: bool, clear: bool, report: bool) -> bool {
    &&& 0 <= index < b.queue@.len()
    &&& b.status@ == loading_status(b.queue@[index])
    &&& e == Effect::Play { index: index as usize, show_queue: show, clear_on_error: clear, report_error: report }
}

/// Putting `q` in the queue and starting it at `index`, then showing the queue; nothing
/// happens when `index` is not a position of `q`.
pub open spec fn shows_queue(a: App, b: App, e: Effect, q: Seq<Song>, index: int) -> bool {
    if q.len() == 0 || index < 0 || index >= q.len() {
        b == a && e is Nothing
    } else {
        &&& b.queue@ == q
        &&& b.now_playing == a.now_playing
        &&& same_lists(a, b)
        &&& same_modes(a, b)
        &&& starts_play(b, e, index, true, false, true)
    }
}

/// Playing a list from a selected position, shuffled when shuffling is on.
pub open spec fn plays_list(a: App, b: App, e: Effect, list: Seq<Song>, sel: int) -> bool {
    exists|q: Seq<Song>, start: int|
        shuffled_for_play(a.shuffle, list, sel, q, start) && #[trigger] shows_queue(a, b, e, q, start)
}

/// The position after skipping forward: with repeat-all the queue wraps around.
pub open spec fn skip_next_index(qi: int, len: int, m: RepeatMode) -> int {
    if m == RepeatMode::All && len > 0 {
        (qi + 1) % len
    } else {
        qi + 1
    }
}

/// The position after skipping back, if any: with repeat-all the first wraps to the last.
pub open spec fn skip_prev_index(qi: int, len: int, m: RepeatMode) -> Option<int> {
    if m == RepeatMode::All && qi == 0 {
        Some(len - 1)
    } else if qi > 0 {
        Some(qi - 1)
    } else {
        None
    }
}

/// The position to continue at when a song ends on its own, if any: repeat-one replays it.
pub open spec fn advance_index(qi: int, len: int, m: RepeatMode) -> Option<int> {
    match m {
        RepeatMode::One => Some(qi),
        RepeatMode::All => if len == 0 {
            None
        } else {
            Some((qi + 1) % len)
        },
        RepeatMode::Off => Some(qi + 1),
    }
}

/// Moving to position `next` of the queue: playing it when it exists, else the queue is
/// finished and nothing plays.
pub open spec fn moves_to(a: App, b: App, e: Effect, next: int, clear: bool, report: bool) -> bool {
    &&& same_lists(a, b)
    &&& same_modes(a, b)
    &&& b.queue == a.queue
    &&& if next < a.queue@.len() {
        b.now_playing == a.now_playing && starts_play(b, e, next, false, clear, report)
    } else {
        b.now_playing is None && b.status@ == "Queue finished."@ && e is Nothing
    }
}

/// Whether a list of songs holds one with the given id.
pub open spec fn has_song(songs: Seq<Song>, id: Seq<char>) -> bool {
    exists|k: int| 0 <= k < songs.len() && (#[trigger] songs[k]).id@ == id
}

/// The songs whose id differs from the given one, in order.
pub open spec fn without_song(songs: Seq<Song>, id: Seq<char>) -> Seq<Song>
    decreases songs.len(),
{
    if songs.len() == 0 {
        Seq::empty()
    } else if songs.last().id@ != id {
        without_song(songs.drop_last(), id).push(songs.last())
    } else {
        without_song(songs.drop_last(), id)
    }
}

/// The ids of the directories at the marked positions of a listing, in order of the marks.
pub open spec fn marked_dir_ids(items: Seq<Folder>, marks: Seq<usize>) -> Seq<String>
    decreases marks.len(),
{
    if marks.len() == 0 {
        Seq::empty()
    } else {
        let rest = marked_dir_ids(items, marks.drop_last());
        let i = marks.last() as int;
        if i < items.len() && items[i].is_dir {
            rest.push(items[i].id)
        } else {
            rest
        }
    }
}

/// The marks after toggling position `x`: removed when present, added otherwise.
pub open spec fn toggled_marks(marks: Seq<usize>, x: usize) -> Set<usize> {
    if marks.contains(x) {
        marks.to_set().remove(x)
    } else {
        marks.to_set().insert(x)
    }
}

/// Skipping forward: nothing without a playing track, else moving to the next position.
pub open spec fn skipped_next(a: App, b: App, e: Effect, report: bool) -> bool {
    match a.now_playing {
        None => b == a && e is Nothing,
        Some(np) => moves_to(
            a,
            b,
            e,
            skip_next_index(np.queue_index as int, a.queue@.len() as int, a.repeat_mode),
            true,
            report,
        ),
    }
}

/// Skipping back: nothing without a playing track or at the start, else playing the previous
/// position.
pub open spec fn skipped_prev(a: App, b: App, e: Effect, report: bool) -> bool {
    match a.now_playing {
        None => b == a && e is Nothing,
        Some(np) => match skip_prev_index(np.queue_index as int, a.queue@.len() as int, a.repeat_mode) {
            None => b == a && e is Nothing,
            Some(p) => if p < a.queue@.len() {
                only_status(a, b) && starts_play(b, e, p, false, false, report)
            } else {
                b == a && e is Nothing
            },
        },
    }
}

/// Continuing after a song ended on its own.
pub open spec fn advanced(a: App, b: App, e: Effect) -> bool {
    match a.now_playing {
        None => b == a && e is Nothing,
        Some(np) => match advance_index(np.queue_index as int, a.queue@.len() as int, a.repeat_mode) {
            None => b == a && e is Nothing,
            Some(n) => moves_to(a, b, e, n, true, true),
        },
    }
}

/// Shuffling turned on or off; turning it on shuffles the queue after the playing song.
pub open spec fn shuffle_toggled(a: App, b: App) -> bool {
    &&& same_lists(a, b)
    &&& b.running == a.running
    &&& b.active_tab == a.active_tab
    &&& b.volume == a.volume
    &&& b.repeat_mode == a.repeat_mode
    &&& b.now_playing == a.now_playing
    &&& b.shuffle == !a.shuffle
    &&& b.status@ == "Shuffle: "@ + on_off(b.shuffle)
    &&& match a.now_playing {
        Some(np) => if b.shuffle {
            &&& b.queue@.len() == a.queue@.len()
            &&& b.queue@.take(np.queue_index + 1) == a.queue@.take(np.queue_index + 1)
            &&& b.queue@.skip(np.queue_index + 1).to_multiset() == a.queue@.skip(np.queue_index + 1).to_multiset()
        } else {
            b.queue == a.queue
        },
        None => b.queue == a.queue,
    }
}

/// The repeat mode moved on to the next in the cycle.
pub open spec fn repeat_cycled(a: App, b: App) -> bool {
    &&& b.repeat_mode == next_repeat(a.repeat_mode)
    &&& b.status@ == "Repeat: "@ + repeat_word(b.repeat_mode)
    &&& same_lists(a, b)
    &&& b.queue == a.queue
    &&& b.now_playing == a.now_playing
    &&& b.running == a.running
    &&& b.active_tab == a.active_tab
    &&& b.volume == a.volume
    &&& b.shuffle == a.shuffle
}

/// The volume set to `v`, and shown.
pub open spec fn volume_set(a: App, b: App, v: u8) -> bool {
    &&& b.volume == v
    &&& b.status@ == "Volume: "@ + decimal(v as nat) + "%"@
    &&& same_lists(a, b)
    &&& b.queue == a.queue
    &&& b.now_playing == a.now_playing
    &&& b.running == a.running
    &&& b.active_tab == a.active_tab
    &&& b.shuffle == a.shuffle
    &&& b.repeat_mode == a.repeat_mode
}

impl App {
    fn begin_play(&mut self, index: usize, show_queue: bool, clear_on_error: bool, report_error: bool) -> (e: Effect)
        requires
            index < old(self).queue@.len(),
        ensures
            only_status(*old(self), *final(self)),
            starts_play(*final(self), e, index as int, show_queue, clear_on_error, report_error),
    {
        let track = track_from_song(&self.queue[index]);
        let mut s = cat3("Loading: ", track.artist.as_str(), " - ");
        push_str(&mut s, track.title.as_str());
        push_str(&mut s, "...");
        self.status = s;
        Effect::Play { index, show_queue, clear_on_error, report_error }
    }

    /// Put a list in the queue and start playing it at `index`; the queue tab shows once it
    /// plays. Nothing happens when `index` is not a position of the list.
    pub fn play_and_show_queue(&mut self, queue: Vec<Song>, index: usize) -> (e: Effect)
        requires
            old(self).wf(),
        ensures
            final(self).wf(),
            shows_queue(*old(self), *final(self), e, queue@, index as int),
    {
        if queue.len() == 0 || index >= queue.len() {
            return Effect::Nothing;
        }
        self.queue = queue;
        self.begin_play(index, true, false, true)
    }

    /// Play a list from a selected position, shuffled first when shuffling is on.
    fn play_list(&mut self, list: Vec<Song>, sel: usize) -> (e: Effect)
        requires
            old(self).wf(),
        ensures
            final(self).wf(),
            plays_list(*old(self), *final(self), e, list@, sel as int),
    {
        let mut queue = list;
        let start = apply_shuffle(self.shuffle, &mut queue, sel);
        let ghost q = queue@;
        let e = self.play_and_show_queue(queue, start);
        assert(shows_queue(*old(self), *self, e, q, start as int));
        e
    }

    /// The song at `index` plays now (after `Effect::Play`).
    pub fn play_started(&mut self, index: usize, show_queue: bool)
        requires
            old(self).wf(),
            index < old(self).queue@.len(),
        ensures
            final(self).wf(),
            same_lists(*old(self), *final(self)),
            final(self).queue == old(self).queue,
            final(self).running == old(self).running,
            final(self).volume == old(self).volume,
            final(self).shuffle == old(self).shuffle,
            final(self).repeat_mode == old(self).repeat_mode,
            final(self).now_playing matches Some(np) && np.queue_index == index && np.track.id
                == old(self).queue@[index as int].id && np.track.title@ == display_title(
                old(self).queue@[index as int],
            ),
            final(self).status@ == playing_status(index as nat, old(self).queue@.len()),
            final(self).active_tab == if show_queue {
                Tab::Queue
            } else {
                old(self).active_tab
            },
    {
        let track = track_from_song(&self.queue[index]);
        self.set_now_playing(track, index);
        let n = self.queue.len();
        let shown = index + 1;
        let mut s = with_number("Playing [", shown as u64, "/");
        push_decimal(&mut s, n as u64);
        push_str(&mut s, "]");
        self.status = s;
        if show_queue {
            self.active_tab = Tab::Queue;
        }
    }

    /// Playing failed with a message (after `Effect::Play`): the track is forgotten where
    /// `clear` says so, and the message shown where `report` says so.
    pub fn play_failed(&mut self, message: &str, clear: bool, report: bool)
        requires
            old(self).wf(),
        ensures
            final(self).wf(),
            same_lists(*old(self), *final(self)),
            same_modes(*old(self), *final(self)),
            final(self).queue == old(self).queue,
            final(self).now_playing == if clear {
                None
            } else {
                old(self).now_playing
            },
            final(self).status@ == if report {
                "Error: "@ + message@
            } else {
                old(self).status@
            },
    {
        if clear {
            self.now_playing = None;
        }
        if report {
            self.status = cat("Error: ", message);
        }
    }

    /// Some outside work failed with a message: show it.
    pub fn action_failed(&mut self, message: &str)
        ensures
            only_status(*old(self), *final(self)),
            final(self).status@ == "Error: "@ + message@,
    {
        self.status = cat("Error: ", message);
    }

    /// Skip to the next song of the queue (wrapping with repeat-all); the queue is finished
    /// past its end. Failure to play forgets the track, and is reported where `report` says so.
    pub fn skip_next(&mut self, report: bool) -> (e: Effect)
        requires
            old(self).wf(),
        ensures
            final(self).wf(),
            skipped_next(*old(self), *final(self), e, report),
    {
        let qi = match &self.now_playing {
            Some(np) => np.queue_index,
            None => return Effect::Nothing,
        };
        let len = self.queue.len();
        let next = if self.repeat_mode == RepeatMode::All && len > 0 {
            (qi + 1) % len
        } else {
            qi + 1
        };
        if next < len {
            self.begin_play(next, false, true, report)
        } else {
            self.now_playing = None;
            self.status = "Queue finished.".to_string();
            Effect::Nothing
        }
    }

    /// Skip back to the previous song of the queue (wrapping with repeat-all); nothing happens
    /// at the start of the queue. Failure to play is reported where `report` says so.
    pub fn skip_prev(&mut self, report: bool) -> (e: Effect)
        requires
            old(self).wf(),
        ensures
            final(self).wf(),
            skipped_prev(*old(self), *final(self), e, report),
    {
        let qi = match &self.now_playing {
            Some(np) => np.queue_index,
            None => return Effect::Nothing,
        };
        let prev = if self.repeat_mode == RepeatMode::All && qi == 0 {
            self.queue.len() - 1
        } else if qi > 0 {
            qi - 1
        } else {
            return Effect::Nothing;
        };
        if prev >= self.queue.len() {
            return Effect::Nothing;
        }
        self.begin_play(prev, false, false, report)
    }

    /// Continue after a song ended on its own: repeat-one replays it, repeat-all wraps around,
    /// otherwise the next song plays or the queue is finished.
    pub fn advance_queue(&mut self) -> (e: Effect)
        requires
            old(self).wf(),
        ensures
            final(self).wf(),
            advanced(*old(self), *final(self), e),
    {
        let qi = match &self.now_playing {
            Some(np) => np.queue_index,
            None => return Effect::Nothing,
        };
        let len = self.queue.len();
        let next = match self.repeat_mode {
            RepeatMode::One => qi,
            RepeatMode::All => {
                if len == 0 {
                    return Effect::Nothing;
                }
                (qi + 1) % len
            },
            RepeatMode::Off => qi + 1,
        };
        if next < len {
            self.begin_play(next, false, true, true)
        } else {
            self.now_playing = None;
            self.status = "Queue finished.".to_string();
            Effect::Nothing
        }
    }

    /// Turn shuffling on or off; turning it on shuffles the queue after the playing song.
    pub fn toggle_shuffle(&mut self)
        requires
            old(self).wf(),
        ensures
            final(self).wf(),
            shuffle_toggled(*old(self), *final(self)),
    {
        self.shuffle = !self.shuffle;
        if self.shuffle && self.queue.len() > 0 {
            match &self.now_playing {
                Some(np) => {
                    let idx = np.queue_index;
                    if idx + 1 < self.queue.len() {
                        shuffle_from(&mut self.queue, idx + 1);
                    }
                },
                None => {},
            }
        }
        self.status = cat("Shuffle: ", on_off_text(self.shuffle));
    }

    /// Cycle the repeat mode: off, all, one, off.
    pub fn cycle_repeat(&mut self)
        ensures
            repeat_cycled(*old(self), *final(self)),
    {
        self.repeat_mode = match self.repeat_mode {
            RepeatMode::Off => RepeatMode::All,
            RepeatMode::All => RepeatMode::One,
            RepeatMode::One => RepeatMode::Off,
        };
        self.status = cat("Repeat: ", repeat_text(self.repeat_mode));
    }

    /// Raise the volume by five, to at most 100.
    pub fn volume_up(&mut self)
        requires
            old(self).volume <= 250,
        ensures
            volume_set(*old(self), *final(self), raised_volume(old(self).volume)),
    {
        let v = self.volume + 5;
        self.volume = if v <= 100 {
            v
        } else {
            100
        };
        self.status = with_number("Volume: ", self.volume as u64, "%");
    }

    /// Lower the volume by five, to at least zero.
    pub fn volume_down(&mut self)
        ensures
            volume_set(*old(self), *final(self), lowered_volume(old(self).volume)),
    {
        self.volume = self.volume.saturating_sub(5);
        self.status = with_number("Volume: ", self.volume as u64, "%");
    }
}


/// The volume one step up: five more, at most 100.
pub open spec fn raised_volume(v: u8) -> u8 {
    if v + 5 <= 100 {
        (v + 5) as u8
    } else {
        100u8
    }
}

/// The volume one step down: five less, at least zero.
pub open spec fn lowered_volume(v: u8) -> u8 {
    if v >= 5 {
        (v - 5) as u8
    } else {
        0u8
    }
}

/// Toggle a position among increasing marks: removed when present, inserted in order otherwise.
fn toggle_mark(marks: &mut Vec<usize>, x: usize)
    requires
        increasing(old(marks)@),
    ensures
        increasing(final(marks)@),
        final(marks)@.to_set() == toggled_marks(old(marks)@, x),
{
    let ghost m0 = marks@;
    let mut p: usize = 0;
    while p < marks.len() && marks[p] < x
        invariant
            p <= marks@.len(),
            marks@ == m0,
            forall|k: int| 0 <= k < p ==> marks@[k] < x,
        decreases marks@.len() - p,
    {
        p = p + 1;
    }
    if p < marks.len() && marks[p] == x {
        marks.remove(p);
        proof {
            assert(m0.contains(x));
            assert forall|y: usize| #[trigger] marks@.to_set().contains(y) == toggled_marks(m0, x).contains(y) by {
                if marks@.contains(y) {
                    let k = choose|k: int| 0 <= k < marks@.len() && marks@[k] == y;
                    if k < p {
                        assert(m0[k] == y);
                    } else {
                        assert(m0[k + 1] == y);
                        assert(m0[p as int] < m0[k + 1]);
                    }
                }
                if m0.contains(y) && y != x {
                    let k = choose|k: int| 0 <= k < m0.len() && m0[k] == y;
                    if k < p {
                        assert(marks@[k] == y);
                    } else if k == p {
                    } else {
                        assert(marks@[k - 1] == y);
                    }
                }
            }
            assert(marks@.to_set() =~= toggled_marks(m0, x));
        }
    } else {
        marks.insert(p, x);
        proof {
            assert forall|k: int| 0 <= k < m0.len() implies m0[k] != x by {
                if k >= p {
                    if p < m0.len() {
                        assert(m0[p as int] > x);
                        if k > p {
                            assert(m0[p as int] < m0[k]);
                        }
                    }
                }
            }
            assert(!m0.contains(x));
            assert forall|a: int, b: int| 0 <= a < b < marks@.len() implies marks@[a] < marks@[b] by {
                if b < p {
                } else if b == p {
                } else if a < p {
                    assert(marks@[b] == m0[b - 1]);
                    if p < m0.len() {
                        assert(m0[p as int] <= m0[b - 1]);
                    }
                } else if a == p {
                    assert(marks@[b] == m0[b - 1]);
                    assert(m0[p as int] > x || p == m0.len());
                    if b - 1 > p {
                        assert(m0[p as int] < m0[b - 1]);
                    }
                } else {
                    assert(marks@[a] == m0[a - 1] && marks@[b] == m0[b - 1]);
                }
            }
            assert forall|y: usize| #[trigger] marks@.to_set().contains(y) == toggled_marks(m0, x).contains(y) by {
                if marks@.contains(y) {
                    let k = choose|k: int| 0 <= k < marks@.len() && marks@[k] == y;
                    if k < p {
                        assert(m0[k] == y);
                    } else if k > p {
                        assert(m0[k - 1] == y);
                    }
                }
                if m0.contains(y) {
                    let k = choose|k: int| 0 <= k < m0.len() && m0[k] == y;
                    if k < p {
                        assert(marks@[k] == y);
                    } else {
                        assert(marks@[k + 1] == y);
                    }
                }
                if y == x {
                    assert(marks@[p as int] == x);
                }
            }
            assert(marks@.to_set() =~= toggled_marks(m0, x));
        }
    }
}

/// Whether some song of the list has the given id.
fn contains_song(songs: &Vec<Song>, id: &str) -> (b: bool)
    ensures
        b == has_song(songs@, id@),
{
    let mut i: usize = 0;
    while i < songs.len()
        invariant
            i <= songs@.len(),
            forall|k: int| 0 <= k < i ==> (#[trigger] songs@[k]).id@ != id@,
        decreases songs.len() - i,
    {
        if str_equal(songs[i].id.as_str(), id) {
            return true;
        }
        i = i + 1;
    }
    false
}

/// The songs whose id differs from the given one, in order.
fn remove_song(songs: &Vec<Song>, id: &str) -> (r: Vec<Song>)
    ensures
        r@ == without_song(songs@, id@),
{
    let mut r: Vec<Song> = Vec::new();
    let mut i: usize = 0;
    while i < songs.len()
        invariant
            i <= songs@.len(),
            r@ == without_song(songs@.take(i as int), id@),
        decreases songs.len() - i,
    {
        assert(songs@.take(i + 1).drop_last() =~= songs@.take(i as int));
        if !str_equal(songs[i].id.as_str(), id) {
            r.push(songs[i].copy());
        }
        i = i + 1;
    }
    assert(songs@.take(songs@.len() as int) =~= songs@);
    r
}

/// The ids of the directories at the marked positions of a listing.
fn marked_ids(items: &Vec<Folder>, marks: &Vec<usize>) -> (ids: Vec<String>)
    ensures
        ids@ == marked_dir_ids(items@, marks@),
{
    let mut ids: Vec<String> = Vec::new();
    let mut k: usize = 0;
    while k < marks.len()
        invariant
            k <= marks@.len(),
            ids@ == marked_dir_ids(items@, marks@.take(k as int)),
        decreases marks.len() - k,
    {
        assert(marks@.take(k + 1).drop_last() =~= marks@.take(k as int));
        let i = marks[k];
        if i < items.len() && items[i].is_dir {
            ids.push(items[i].id.clone());
        }
        k = k + 1;
    }
    assert(marks@.take(marks@.len() as int) =~= marks@);
    ids
}


/// The selected position, or zero when nothing is selected.
pub open spec fn sel_or_zero(sel: Option<usize>) -> int {
    match sel {
        Some(i) => i as int,
        None => 0,
    }
}

/// The selected item of a list, when the selection points at one.
pub open spec fn selected_entry<T>(l: StatefulList<T>) -> Option<T> {
    match l.selected {
        Some(i) => if i < l.items@.len() {
            Some(l.items@[i as int])
        } else {
            None
        },
        None => None,
    }
}

/// Everything but the marked folders agrees, and no folder is marked in `m`.
pub open spec fn marks_cleared(a: App, m: App) -> bool {
    &&& m.selected_folders@.len() == 0
    &&& m.songs == a.songs
    &&& m.playlists == a.playlists
    &&& m.playlist_detail == a.playlist_detail
    &&& m.folders == a.folders
    &&& m.folder_stack == a.folder_stack
    &&& same_modes(a, m)
    &&& m.queue == a.queue
    &&& m.now_playing == a.now_playing
    &&& m.status == a.status
}

/// Playing the files of the current folder from the file entry `f`.
pub open spec fn plays_folder_file(a: App, b: App, e: Effect, f: Folder) -> bool {
    exists|songs: Seq<Song>|
        songs_of(songs, listing_files(a.folders.items@)) && #[trigger] plays_list(
            a,
            b,
            e,
            songs,
            position_of_id(songs, f.id@),
        )
}

/// Opening (or, when `play`, playing) the selected playlist: the status says it loads and
/// the playlist is fetched; nothing happens without a selected playlist.
pub open spec fn fetches_selected_playlist(a: App, b: App, e: Effect, play: bool) -> bool {
    match selected_entry(a.playlists) {
        Some(p) => {
            &&& only_status(a, b)
            &&& b.status@ == "Loading playlist '"@ + p.name@ + "'..."@
            &&& e == Effect::FetchPlaylist { id: p.id, name: p.name, play }
        },
        None => b == a && e is Nothing,
    }
}

/// Enter: play the Library from the selection; enter a folder or play the current folder from
/// a file; open a playlist or play an open one from its selection.
pub open spec fn entered(a: App, b: App, e: Effect) -> bool {
    match a.active_tab {
        Tab::Library => plays_list(a, b, e, a.songs.items@, sel_or_zero(a.songs.selected)),
        Tab::Folders => match selected_entry(a.folders) {
            None => b == a && e is Nothing,
            Some(f) => if f.is_dir {
                &&& b.folder_stack@ == a.folder_stack@.push((f.id, f.title))
                &&& b.songs == a.songs && b.playlists == a.playlists && b.playlist_detail == a.playlist_detail
                &&& b.folders == a.folders && b.selected_folders == a.selected_folders
                &&& same_modes(a, b) && b.queue == a.queue && b.now_playing == a.now_playing
                &&& b.status == a.status
                &&& e == Effect::LoadFolder { folder_id: Some(f.id) }
            } else {
                plays_folder_file(a, b, e, f)
            },
        },
        Tab::Playlists => match a.playlist_detail {
            Some(d) => plays_list(a, b, e, d.songs.items@, sel_or_zero(d.songs.selected)),
            None => fetches_selected_playlist(a, b, e, false),
        },
        Tab::Queue => b == a && e is Nothing,
    }
}

/// Space: stop what plays; else play the Library, walk the marked folders or the selected
/// folder, play a file's folder, or play a playlist.
pub open spec fn spaced(a: App, b: App, e: Effect) -> bool {
    if a.now_playing is Some {
        &&& b.now_playing is None
        &&& b.status@ == "Stopped."@
        &&& same_lists(a, b) && same_modes(a, b) && b.queue == a.queue
        &&& e is StopPlayer
    } else {
        match a.active_tab {
            Tab::Library => if a.songs.items@.len() == 0 {
                only_status(a, b) && b.status@ == "No favorites to play"@ && e is Nothing
            } else {
                plays_list(a, b, e, a.songs.items@, sel_or_zero(a.songs.selected))
            },
            Tab::Folders => if a.selected_folders@.len() > 0 {
                &&& only_status(a, b)
                &&& b.status@ == "Scanning "@ + decimal(a.selected_folders@.len()) + " folders..."@
                &&& e matches Effect::Scan(sc) && sc.pending@ == roots_stack(
                    marked_dir_ids(a.folders.items@, a.selected_folders@),
                    SCAN_DEPTH,
                ) && sc.songs@.len() == 0 && sc.title is None
            } else {
                match selected_entry(a.folders) {
                    None => b == a && e is Nothing,
                    Some(f) => if f.is_dir {
                        &&& only_status(a, b)
                        &&& b.status@ == "Scanning '"@ + f.title@ + "'..."@
                        &&& e matches Effect::Scan(sc) && sc.pending@ == roots_stack(seq![f.id], SCAN_DEPTH)
                            && sc.songs@.len() == 0 && sc.title == Some(f.title)
                    } else {
                        plays_folder_file(a, b, e, f)
                    },
                }
            },
            Tab::Playlists => match a.playlist_detail {
                Some(d) => plays_list(a, b, e, d.songs.items@, sel_or_zero(d.songs.selected)),
                None => fetches_selected_playlist(a, b, e, true),
            },
            Tab::Queue => b == a && e is Nothing,
        }
    }
}

/// Esc: close an open playlist, or go up one folder.
pub open spec fn escaped(a: App, b: App, e: Effect) -> bool {
    if a.active_tab == Tab::Playlists && a.playlist_detail is Some {
        &&& b.playlist_detail is None
        &&& b.songs == a.songs && b.playlists == a.playlists && b.folders == a.folders
        &&& b.selected_folders == a.selected_folders && b.folder_stack == a.folder_stack
        &&& same_modes(a, b) && b.queue == a.queue && b.now_playing == a.now_playing
        &&& b.status == a.status
        &&& e is Nothing
    } else if a.active_tab == Tab::Folders && a.folder_stack@.len() > 0 {
        let stack = a.folder_stack@.drop_last();
        &&& b.folder_stack@ == stack
        &&& b.songs == a.songs && b.playlists == a.playlists && b.playlist_detail == a.playlist_detail
        &&& b.folders == a.folders && b.selected_folders == a.selected_folders
        &&& same_modes(a, b) && b.queue == a.queue && b.now_playing == a.now_playing
        &&& b.status == a.status
        &&& e == Effect::LoadFolder {
            folder_id: if stack.len() > 0 {
                Some(stack.last().0)
            } else {
                None
            },
        }
    } else {
        b == a && e is Nothing
    }
}

/// Insert: mark or unmark the selected directory of the Folders tab and move down.
pub open spec fn mark_toggled(a: App, b: App) -> bool {
    if a.active_tab == Tab::Folders && (selected_entry(a.folders) matches Some(f) && f.is_dir) {
        let x = a.folders.selected->0;
        &&& increasing(b.selected_folders@)
        &&& b.selected_folders@.to_set() == toggled_marks(a.selected_folders@, x)
        &&& b.status@ == if b.selected_folders@.len() > 0 {
            decimal(b.selected_folders@.len()) + " folders selected"@
        } else {
            "Selection cleared"@
        }
        &&& b.folders.items@ == a.folders.items@
        &&& b.folders.selected == select_down(a.folders.selected, a.folders.items@.len(), 1)
        &&& b.songs == a.songs && b.playlists == a.playlists && b.playlist_detail == a.playlist_detail
        &&& b.folder_stack == a.folder_stack
        &&& same_modes(a, b) && b.queue == a.queue && b.now_playing == a.now_playing
    } else {
        b == a
    }
}

/// `f`: ask to add the playing song to the favourites, or to remove it when it is one.
pub open spec fn favorite_asked(a: App, b: App, e: Effect) -> bool {
    match a.now_playing {
        None => only_status(a, b) && b.status@ == "Nothing is playing"@ && e is Nothing,
        Some(np) => b == a && e == Effect::ToggleFavorite {
            song_id: np.track.id,
            add: !has_song(a.songs.items@, np.track.id@),
        },
    }
}

/// What a key press does.
pub open spec fn key_handled(a: App, b: App, key: Key, e: Effect) -> bool {
    match key {
        Key::Char('q') => {
            &&& !b.running
            &&& b.now_playing is None
            &&& b.status@ == "Stopped."@
            &&& same_lists(a, b) && b.queue == a.queue && b.active_tab == a.active_tab
            &&& b.volume == a.volume && b.shuffle == a.shuffle && b.repeat_mode == a.repeat_mode
            &&& e is StopPlayer
        },
        Key::Tab => e is Nothing && b.active_tab == crate::tui::app::tab_at(
            ((crate::tui::app::tab_index(a.active_tab) + 1) % 4) as nat,
        ) && b.playlist_detail is None && b.queue == a.queue && b.now_playing == a.now_playing
            && b.status == a.status,
        Key::BackTab => e is Nothing && b.active_tab == crate::tui::app::tab_at(
            (if crate::tui::app::tab_index(a.active_tab) == 0 {
                3
            } else {
                crate::tui::app::tab_index(a.active_tab) - 1
            }) as nat,
        ) && b.playlist_detail is None && b.queue == a.queue && b.now_playing == a.now_playing
            && b.status == a.status,
        Key::Char(' ') => spaced(a, b, e),
        Key::Down | Key::Char('j') => e is Nothing && crate::tui::app::self_same_but_lists(a, b)
            && crate::tui::app::lists_moved(a, b, 1, true),
        Key::Up | Key::Char('k') => e is Nothing && crate::tui::app::self_same_but_lists(a, b)
            && crate::tui::app::lists_moved(a, b, 1, false),
        Key::PageDown => e is Nothing && crate::tui::app::self_same_but_lists(a, b)
            && crate::tui::app::lists_moved(a, b, 10, true),
        Key::PageUp => e is Nothing && crate::tui::app::self_same_but_lists(a, b)
            && crate::tui::app::lists_moved(a, b, 10, false),
        Key::Enter => entered(a, b, e),
        Key::Esc => escaped(a, b, e),
        Key::Char('n') => skipped_next(a, b, e, true),
        Key::Char('p') => skipped_prev(a, b, e, true),
        Key::Char('s') => shuffle_toggled(a, b) && e is Nothing,
        Key::Char('r') => repeat_cycled(a, b) && e is Nothing,
        Key::Insert => mark_toggled(a, b) && e is Nothing,
        Key::Char('f') => favorite_asked(a, b, e),
        Key::Char('+') | Key::Char('=') => volume_set(a, b, raised_volume(a.volume)) && e is Nothing,
        Key::Char('-') => volume_set(a, b, lowered_volume(a.volume)) && e is Nothing,
        _ => b == a && e is Nothing,
    }
}

impl App {
    fn selected_or_zero<T>(l: &StatefulList<T>) -> (i: usize)
        ensures
            i == sel_or_zero(l.selected),
    {
        match l.selected {
            Some(i) => i,
            None => 0,
        }
    }

    fn play_folder_file(&mut self, f: &Folder) -> (e: Effect)
        requires
            old(self).wf(),
        ensures
            final(self).wf(),
            plays_folder_file(*old(self), *final(self), e, *f),
    {
        let songs = collect_folder_songs(&self.folders.items);
        let ghost sq = songs@;
        let idx = position_or_first(&songs, f.id.as_str());
        let e = self.play_list(songs, idx);
        assert(songs_of(sq, listing_files(old(self).folders.items@)));
        assert(plays_list(*old(self), *self, e, sq, position_of_id(sq, f.id@)));
        e
    }

    fn fetch_selected_playlist(&mut self, play: bool) -> (e: Effect)
        ensures
            fetches_selected_playlist(*old(self), *final(self), e, play),
    {
        let chosen = match self.playlists.selected_item() {
            Some(p) => Some((p.id.clone(), p.name.clone())),
            None => None,
        };
        match chosen {
            Some((id, name)) => {
                self.status = cat3("Loading playlist '", name.as_str(), "'...");
                Effect::FetchPlaylist { id, name, play }
            },
            None => Effect::Nothing,
        }
    }

    /// Enter on the active tab.
    pub fn enter(&mut self) -> (e: Effect)
        requires
            old(self).wf(),
        ensures
            final(self).wf(),
            entered(*old(self), *final(self), e),
    {
        match self.active_tab {
            Tab::Library => {
                let idx = Self::selected_or_zero(&self.songs);
                let list = crate::api::types::copy_songs(&self.songs.items);
                self.play_list(list, idx)
            },
            Tab::Folders => {
                let item = match self.folders.selected_item() {
                    Some(f) => Folder { id: f.id.clone(), title: f.title.clone(), is_dir: f.is_dir },
                    None => return Effect::Nothing,
                };
                if item.is_dir {
                    let id = item.id.clone();
                    self.folder_stack.push((item.id, item.title));
                    Effect::LoadFolder { folder_id: Some(id) }
                } else {
                    self.play_folder_file(&item)
                }
            },
            Tab::Playlists => {
                let detail = match &self.playlist_detail {
                    Some(d) => Some((crate::api::types::copy_songs(&d.songs.items), Self::selected_or_zero(&d.songs))),
                    None => None,
                };
                match detail {
                    Some((list, idx)) => self.play_list(list, idx),
                    None => self.fetch_selected_playlist(false),
                }
            },
            Tab::Queue => Effect::Nothing,
        }
    }

    /// Space on the active tab.
    pub fn space(&mut self) -> (e: Effect)
        requires
            old(self).wf(),
        ensures
            final(self).wf(),
            spaced(*old(self), *final(self), e),
    {
        if self.now_playing.is_some() {
            self.stop_playback();
            return Effect::StopPlayer;
        }
        match self.active_tab {
            Tab::Library => {
                if self.songs.items.len() == 0 {
                    self.status = "No favorites to play".to_string();
                    return Effect::Nothing;
                }
                let idx = Self::selected_or_zero(&self.songs);
                let list = crate::api::types::copy_songs(&self.songs.items);
                self.play_list(list, idx)
            },
            Tab::Folders => {
                if self.selected_folders.len() > 0 {
                    self.status = with_number("Scanning ", self.selected_folders.len() as u64, " folders...");
                    let ids = marked_ids(&self.folders.items, &self.selected_folders);
                    return Effect::Scan(FolderScan::new(ids, None));
                }
                let item = match self.folders.selected_item() {
                    Some(f) => Folder { id: f.id.clone(), title: f.title.clone(), is_dir: f.is_dir },
                    None => return Effect::Nothing,
                };
                if item.is_dir {
                    self.status = cat3("Scanning '", item.title.as_str(), "'...");
                    let ids = vec![item.id];
                    assert(ids@ =~= seq![item.id]);
                    Effect::Scan(FolderScan::new(ids, Some(item.title)))
                } else {
                    self.play_folder_file(&item)
                }
            },
            Tab::Playlists => {
                let detail = match &self.playlist_detail {
                    Some(d) => Some((crate::api::types::copy_songs(&d.songs.items), Self::selected_or_zero(&d.songs))),
                    None => None,
                };
                match detail {
                    Some((list, idx)) => self.play_list(list, idx),
                    None => self.fetch_selected_playlist(true),
                }
            },
            Tab::Queue => Effect::Nothing,
        }
    }

    /// Esc on the active tab.
    pub fn escape(&mut self) -> (e: Effect)
        ensures
            escaped(*old(self), *final(self), e),
    {
        if self.active_tab == Tab::Playlists && self.playlist_detail.is_some() {
            self.playlist_detail = None;
            return Effect::Nothing;
        }
        if self.active_tab == Tab::Folders && self.folder_stack.len() > 0 {
            self.folder_stack.pop();
            let n = self.folder_stack.len();
            let folder_id = if n > 0 {
                Some(self.folder_stack[n - 1].0.clone())
            } else {
                None
            };
            return Effect::LoadFolder { folder_id };
        }
        Effect::Nothing
    }

    /// Insert: mark or unmark the selected directory of the Folders tab, then move down.
    pub fn toggle_folder_mark(&mut self)
        requires
            old(self).wf(),
        ensures
            final(self).wf(),
            mark_toggled(*old(self), *final(self)),
    {
        if self.active_tab != Tab::Folders {
            return;
        }
        let idx = match self.folders.selected {
            Some(i) => i,
            None => return,
        };
        if idx >= self.folders.items.len() || !self.folders.items[idx].is_dir {
            return;
        }
        toggle_mark(&mut self.selected_folders, idx);
        let count = self.selected_folders.len();
        self.status = if count > 0 {
            with_number("", count as u64, " folders selected")
        } else {
            "Selection cleared".to_string()
        };
        assert(""@ + decimal(count as nat) + " folders selected"@ == decimal(count as nat) + " folders selected"@) by {
            reveal_strlit("");
            assert(""@ + decimal(count as nat) =~= decimal(count as nat));
        }
        self.folders.next();
    }

    /// `f`: toggle the playing song among the favourites.
    pub fn favorite_toggle(&mut self) -> (e: Effect)
        ensures
            favorite_asked(*old(self), *final(self), e),
    {
        let id = match &self.now_playing {
            Some(np) => np.track.id.clone(),
            None => {
                self.status = "Nothing is playing".to_string();
                return Effect::Nothing;
            },
        };
        let is_fav = contains_song(&self.songs.items, id.as_str());
        Effect::ToggleFavorite { song_id: id, add: !is_fav }
    }

    /// A song was added to the favourites (with its information, when it could be read) or
    /// removed from them (after `Effect::ToggleFavorite`).
    pub fn favorite_toggled(&mut self, song_id: &str, add: bool, info: Option<Song>)
        requires
            old(self).wf(),
        ensures
            final(self).wf(),
            final(self).songs.selected == old(self).songs.selected,
            final(self).songs.items@ == if add {
                match info {
                    Some(s) => old(self).songs.items@.push(s),
                    None => old(self).songs.items@,
                }
            } else {
                without_song(old(self).songs.items@, song_id@)
            },
            final(self).status@ == if add {
                "Added to favorites: "@ + song_id@
            } else {
                "Removed from favorites: "@ + song_id@
            },
            final(self).playlists == old(self).playlists,
            final(self).playlist_detail == old(self).playlist_detail,
            final(self).folders == old(self).folders,
            final(self).selected_folders == old(self).selected_folders,
            final(self).folder_stack == old(self).folder_stack,
            same_modes(*old(self), *final(self)),
            final(self).queue == old(self).queue,
            final(self).now_playing == old(self).now_playing,
    {
        if add {
            match info {
                Some(s) => self.songs.items.push(s),
                None => {},
            }
            self.status = cat("Added to favorites: ", song_id);
        } else {
            self.songs.items = remove_song(&self.songs.items, song_id);
            self.status = cat("Removed from favorites: ", song_id);
        }
    }

    /// A folder's entries arrived (after `Effect::LoadFolder`): they replace the list, the
    /// marks are cleared.
    pub fn folder_loaded(&mut self, items: Vec<Folder>)
        requires
            old(self).wf(),
        ensures
            final(self).wf(),
            final(self).folders.items@ == items@,
            final(self).folders.selected == (if items@.len() > 0 { Some(0usize) } else { None }),
            final(self).selected_folders@.len() == 0,
            final(self).status@ == "Loaded "@ + decimal(items@.len()) + " items"@,
            final(self).songs == old(self).songs,
            final(self).playlists == old(self).playlists,
            final(self).playlist_detail == old(self).playlist_detail,
            final(self).folder_stack == old(self).folder_stack,
            same_modes(*old(self), *final(self)),
            final(self).queue == old(self).queue,
            final(self).now_playing == old(self).now_playing,
    {
        let count = items.len();
        self.folders = StatefulList::with_items(items);
        self.selected_folders = Vec::new();
        self.status = with_number("Loaded ", count as u64, " items");
    }

    /// A folder walk finished with its songs (after `Effect::Scan`): play them shuffled when
    /// shuffling is on, from the start; a walk of marked folders clears the marks.
    pub fn folders_scanned(&mut self, songs: Vec<Song>, title: Option<String>) -> (e: Effect)
        requires
            old(self).wf(),
        ensures
            final(self).wf(),
            match title {
                None => exists|m: App| {
                    &&& #[trigger] marks_cleared(*old(self), m)
                    &&& if songs@.len() == 0 {
                        only_status(m, *final(self)) && final(self).status@
                            == "No audio files in selected folders"@ && e is Nothing
                    } else {
                        plays_list(m, *final(self), e, songs@, 0)
                    }
                },
                Some(t) => if songs@.len() == 0 {
                    only_status(*old(self), *final(self)) && final(self).status@ == "No audio files in '"@ + t@
                        + "'"@ && e is Nothing
                } else {
                    plays_list(*old(self), *final(self), e, songs@, 0)
                },
            },
    {
        match title {
            None => {
                self.selected_folders = Vec::new();
                let ghost m = *self;
                assert(marks_cleared(*old(self), m));
                if songs.len() == 0 {
                    self.status = "No audio files in selected folders".to_string();
                    return Effect::Nothing;
                }
                self.play_list(songs, 0)
            },
            Some(t) => {
                if songs.len() == 0 {
                    self.status = cat3("No audio files in '", t.as_str(), "'");
                    return Effect::Nothing;
                }
                self.play_list(songs, 0)
            },
        }
    }

    /// A playlist's songs arrived, or could not be read (after `Effect::FetchPlaylist`): play
    /// them from the start when asked to, else open the playlist.
    pub fn playlist_fetched(&mut self, name: &str, songs: Option<Vec<Song>>, play: bool) -> (e: Effect)
        requires
            old(self).wf(),
        ensures
            final(self).wf(),
            match songs {
                None => only_status(*old(self), *final(self)) && final(self).status@
                    == "Failed to load playlist '"@ + name@ + "'."@ && e is Nothing,
                Some(list) => if play {
                    if list@.len() == 0 {
                        only_status(*old(self), *final(self)) && final(self).status@
                            == "Playlist '"@ + name@ + "' is empty."@ && e is Nothing
                    } else {
                        plays_list(*old(self), *final(self), e, list@, 0)
                    }
                } else {
                    &&& final(self).playlist_detail matches Some(d) && d.name@ == name@
                        && d.songs.items@ == list@ && d.songs.selected == (if list@.len() > 0 {
                        Some(0usize)
                    } else {
                        None
                    })
                    &&& final(self).status@ == "Playlist '"@ + name@ + "' — "@ + decimal(list@.len())
                        + " songs"@
                    &&& final(self).songs == old(self).songs
                    &&& final(self).playlists == old(self).playlists
                    &&& final(self).folders == old(self).folders
                    &&& final(self).selected_folders == old(self).selected_folders
                    &&& final(self).folder_stack == old(self).folder_stack
                    &&& same_modes(*old(self), *final(self))
                    &&& final(self).queue == old(self).queue
                    &&& final(self).now_playing == old(self).now_playing
                    &&& e is Nothing
                },
            },
    {
        match songs {
            None => {
                self.status = cat3("Failed to load playlist '", name, "'.");
                Effect::Nothing
            },
            Some(list) => {
                if play {
                    if list.len() == 0 {
                        self.status = cat3("Playlist '", name, "' is empty.");
                        return Effect::Nothing;
                    }
                    self.play_list(list, 0)
                } else {
                    let count = list.len();
                    self.playlist_detail = Some(
                        PlaylistDetail { name: name.to_string(), songs: StatefulList::with_items(list) },
                    );
                    let mut s = cat3("Playlist '", name, "' — ");
                    push_decimal(&mut s, count as u64);
                    push_str(&mut s, " songs");
                    self.status = s;
                    Effect::Nothing
                }
            },
        }
    }

    /// The clock ticked and the player was asked whether its track ended: continue the queue
    /// when it did, stop and report when the player failed.
    pub fn on_tick(&mut self, outcome: Result<bool, String>) -> (e: Effect)
        requires
            old(self).wf(),
        ensures
            final(self).wf(),
            match outcome {
                Ok(true) => advanced(*old(self), *final(self), e),
                Ok(false) => *final(self) == *old(self) && e is Nothing,
                Err(msg) => {
                    &&& final(self).now_playing is None
                    &&& final(self).status@ == "Player error: "@ + msg@
                    &&& same_lists(*old(self), *final(self)) && same_modes(*old(self), *final(self))
                    &&& final(self).queue == old(self).queue
                    &&& e is StopPlayer
                },
            },
    {
        match outcome {
            Ok(true) => self.advance_queue(),
            Ok(false) => Effect::Nothing,
            Err(msg) => {
                self.now_playing = None;
                self.status = cat("Player error: ", msg.as_str());
                Effect::StopPlayer
            },
        }
    }

    /// The library arrived at start: favourite songs, playlists and the root folder.
    pub fn data_loaded(&mut self, favorites: Vec<Song>, playlists: Vec<crate::api::types::Playlist>, folders: Vec<Folder>)
        requires
            old(self).wf(),
        ensures
            final(self).wf(),
            final(self).songs.items@ == favorites@,
            final(self).playlists.items@ == playlists@,
            final(self).folders.items@ == folders@,
            final(self).status@ == "Loaded "@ + decimal(favorites@.len()) + " favorites, "@ + decimal(
                playlists@.len(),
            ) + " playlists, "@ + decimal(folders@.len()) + " folders"@,
            same_modes(*old(self), *final(self)),
            final(self).queue == old(self).queue,
            final(self).now_playing == old(self).now_playing,
    {
        let a = favorites.len();
        let b = playlists.len();
        let c = folders.len();
        self.songs = StatefulList::with_items(favorites);
        self.playlists = StatefulList::with_items(playlists);
        self.folders = StatefulList::with_items(folders);
        let mut s = with_number("Loaded ", a as u64, " favorites, ");
        push_decimal(&mut s, b as u64);
        push_str(&mut s, " playlists, ");
        push_decimal(&mut s, c as u64);
        push_str(&mut s, " folders");
        self.status = s;
    }
}

/// Handle a key press: update the state and name the outside work to do.
pub fn handle_key(app: &mut App, key: Key) -> (e: Effect)
    requires
        old(app).wf(),
        (key == Key::Char('+') || key == Key::Char('=')) ==> old(app).volume <= 250,
    ensures
        final(app).wf(),
        key_handled(*old(app), *final(app), key, e),
{
    match key {
        Key::Char('q') => {
            app.stop_playback();
            app.running = false;
            Effect::StopPlayer
        },
        Key::Tab => {
            app.next_tab();
            Effect::Nothing
        },
        Key::BackTab => {
            app.prev_tab();
            Effect::Nothing
        },
        Key::Char(' ') => app.space(),
        Key::Down | Key::Char('j') => {
            app.active_list_next();
            Effect::Nothing
        },
        Key::Up | Key::Char('k') => {
            app.active_list_previous();
            Effect::Nothing
        },
        Key::PageDown => {
            app.active_list_page_down(10);
            Effect::Nothing
        },
        Key::PageUp => {
            app.active_list_page_up(10);
            Effect::Nothing
        },
        Key::Enter => app.enter(),
        Key::Esc => app.escape(),
        Key::Char('n') => app.skip_next(true),
        Key::Char('p') => app.skip_prev(true),
        Key::Char('s') => {
            app.toggle_shuffle();
            Effect::Nothing
        },
        Key::Char('r') => {
            app.cycle_repeat();
            Effect::Nothing
        },
        Key::Insert => {
            app.toggle_folder_mark();
            Effect::Nothing
        },
        Key::Char('f') => app.favorite_toggle(),
        Key::Char('+') | Key::Char('=') => {
            app.volume_up();
            Effect::Nothing
        },
        Key::Char('-') => {
            app.volume_down();
            Effect::Nothing
        },
        _ => Effect::Nothing,
    }
}


/// What remains to answer an IPC request once its outside work is done.
#[derive(Debug)]
pub enum IpcPending {
    /// The answer is ready.
    Ready(IpcResponse),
    /// Answer after skipping forward.
    AfterNext,
    /// Answer after skipping back.
    AfterPrev,
}

/// `[position/total] artist - title` for the playing track.
pub open spec fn track_line(pos: nat, total: nat, artist: Seq<char>, title: Seq<char>) -> Seq<char> {
    "["@ + decimal(pos) + "/"@ + decimal(total) + "] "@ + artist + " - "@ + title
}

/// The repeat mode an IPC word names: `one`, `all`, anything else off.
pub open spec fn repeat_named(mode: Seq<char>) -> RepeatMode {
    if mode == "one"@ {
        RepeatMode::One
    } else if mode == "all"@ {
        RepeatMode::All
    } else {
        RepeatMode::Off
    }
}

/// The queue as a listing: each song's position, title, artist and length in seconds.
pub open spec fn queue_tracks_match(queue: Seq<Song>, tracks: Seq<QueueTrack>) -> bool {
    &&& tracks.len() == queue.len()
    &&& forall|k: int|
        0 <= k < tracks.len() ==> {
            &&& (#[trigger] tracks[k]).index == k
            &&& tracks[k].title@ == display_title(queue[k])
            &&& tracks[k].artist@ == tag_artist(queue[k])
            &&& tracks[k].duration_secs == crate::playback::audio_seconds(queue[k])
        }
}

fn queue_listing(queue: &Vec<Song>) -> (tracks: Vec<QueueTrack>)
    ensures
        queue_tracks_match(queue@, tracks@),
{
    let mut tracks: Vec<QueueTrack> = Vec::new();
    let mut i: usize = 0;
    while i < queue.len()
        invariant
            i <= queue@.len(),
            queue_tracks_match(queue@.take(i as int), tracks@),
        decreases queue.len() - i,
    {
        let t = track_from_song(&queue[i]);
        tracks.push(QueueTrack { index: i, title: t.title, artist: t.artist, duration_secs: t.duration.secs });
        i = i + 1;
    }
    assert(queue@.take(queue@.len() as int) =~= queue@);
    tracks
}

fn playing_line(app: &App) -> (s: String)
    requires
        app.now_playing is Some,
        app.now_playing->0.queue_index < usize::MAX,
    ensures
        s@ == track_line(
            (app.now_playing->0.queue_index + 1) as nat,
            app.queue@.len(),
            app.now_playing->0.track.artist@,
            app.now_playing->0.track.title@,
        ),
{
    match &app.now_playing {
        Some(np) => {
            let mut s = with_number("[", (np.queue_index + 1) as u64, "/");
            push_decimal(&mut s, app.queue.len() as u64);
            push_str(&mut s, "] ");
            push_str(&mut s, np.track.artist.as_str());
            push_str(&mut s, " - ");
            push_str(&mut s, np.track.title.as_str());
            s
        },
        None => String::new(),
    }
}

/// The answer to a request about the playing track: its details, or that nothing plays.
pub open spec fn now_answered(a: App, r: IpcResponse) -> bool {
    match a.now_playing {
        None => !r.ok && r.message@ == "Nothing is playing"@ && r.data is None,
        Some(np) => {
            &&& r.ok
            &&& r.message@ == np.track.artist@ + " - "@ + np.track.title@
            &&& r.data matches Some(IpcData::NowPlaying {
                title,
                artist,
                album,
                position_secs,
                duration_secs,
                volume,
                shuffle,
                repeat,
                queue_index,
                queue_total,
            }) && title@ == np.track.title@ && artist@ == np.track.artist@ && album@
                == np.track.album@ && duration_secs == np.track.duration.secs && volume == a.volume
                && shuffle == a.shuffle && repeat@ == repeat_word(a.repeat_mode) && queue_index
                == np.queue_index && queue_total == a.queue@.len() && exists|since: Duration, d: Duration|
                since.wf() && #[trigger] played_after(np.paused_elapsed, since, d) && position_secs == d.secs
        },
    }
}

/// What an IPC request does at once: the state change, the outside work, and the answer or
/// what it waits for.
pub open spec fn ipc_handled(a: App, b: App, req: IpcRequest, e: Effect, p: IpcPending) -> bool {
    match req {
        IpcRequest::Pause => if a.now_playing is Some {
            &&& only_status(a, b)
            &&& b.status@ == "Paused (via IPC)"@
            &&& e is PausePlayer
            &&& p matches IpcPending::Ready(r)
            &&& r.ok && r.message@ == "Paused"@ && r.data is None
        } else {
            &&& b == a
            &&& e is Nothing
            &&& p matches IpcPending::Ready(r)
            &&& !r.ok && r.message@ == "Nothing is playing"@ && r.data is None
        },
        IpcRequest::Resume => {
            &&& only_status(a, b)
            &&& b.status@ == "Resume not supported (subprocess player)"@
            &&& e is Nothing
            &&& p matches IpcPending::Ready(r)
            &&& !r.ok && r.message@ == "Resume not supported with subprocess player"@ && r.data is None
        },
        IpcRequest::Stop => {
            &&& b.now_playing is None
            &&& b.status@ == "Stopped."@
            &&& same_lists(a, b) && same_modes(a, b) && b.queue == a.queue
            &&& e is StopPlayer
            &&& p matches IpcPending::Ready(r)
            &&& r.ok && r.message@ == "Stopped"@ && r.data is None
        },
        IpcRequest::Next => skipped_next(a, b, e, false) && p is AfterNext,
        IpcRequest::Prev => skipped_prev(a, b, e, false) && p is AfterPrev,
        IpcRequest::Now => {
            &&& b == a
            &&& e is Nothing
            &&& p matches IpcPending::Ready(r)
            &&& now_answered(a, r)
        },
        IpcRequest::Queue => {
            &&& b == a
            &&& e is Nothing
            &&& p matches IpcPending::Ready(r)
            &&& if a.queue@.len() == 0 {
                !r.ok && r.message@ == "Queue is empty"@ && r.data is None
            } else {
                &&& r.ok
                &&& r.message@ == decimal(a.queue@.len()) + " tracks in queue"@
                &&& r.data matches Some(IpcData::QueueList { current_index, tracks })
                &&& current_index == (match a.now_playing {
                    Some(np) => np.queue_index,
                    None => 0,
                })
                &&& queue_tracks_match(a.queue@, tracks@)
            }
        },
        IpcRequest::Volume { level } => {
            let v: u8 = if level <= 100 {
                level
            } else {
                100
            };
            &&& volume_set(a, b, v)
            &&& e == Effect::SetVolume(v)
            &&& p matches IpcPending::Ready(r)
            &&& r.ok && r.message@ == "Volume set to "@ + decimal(v as nat) + "%"@ && r.data is None
        },
        IpcRequest::Shuffle { mode } => {
            &&& b.shuffle == (mode@ == "on"@)
            &&& b.status@ == "Shuffle: "@ + on_off(b.shuffle)
            &&& same_lists(a, b) && b.queue == a.queue && b.now_playing == a.now_playing
            &&& b.running == a.running && b.active_tab == a.active_tab && b.volume == a.volume
            &&& b.repeat_mode == a.repeat_mode
            &&& e is Nothing
            &&& p matches IpcPending::Ready(r)
            &&& r.ok && r.message@ == "Shuffle "@ + on_off(b.shuffle) && r.data is None
        },
        IpcRequest::Repeat { mode } => {
            &&& b.repeat_mode == repeat_named(mode@)
            &&& b.status@ == "Repeat: "@ + repeat_word(b.repeat_mode)
            &&& same_lists(a, b) && b.queue == a.queue && b.now_playing == a.now_playing
            &&& b.running == a.running && b.active_tab == a.active_tab && b.volume == a.volume
            &&& b.shuffle == a.shuffle
            &&& e is Nothing
            &&& p matches IpcPending::Ready(r)
            &&& r.ok && r.message@ == "Repeat: "@ + mode@ && r.data is None
        },
    }
}

/// Handle an IPC request the way the matching key would: update the state, name the outside
/// work, and answer at once or say what the answer waits for.
pub fn handle_ipc(app: &mut App, request: IpcRequest) -> (r: (Effect, IpcPending))
    requires
        old(app).wf(),
    ensures
        final(app).wf(),
        ipc_handled(*old(app), *final(app), request, r.0, r.1),
{
    match request {
        IpcRequest::Pause => {
            if app.now_playing.is_some() {
                app.status = "Paused (via IPC)".to_string();
                (Effect::PausePlayer, IpcPending::Ready(IpcResponse::ok("Paused")))
            } else {
                (Effect::Nothing, IpcPending::Ready(IpcResponse::err("Nothing is playing")))
            }
        },
        IpcRequest::Resume => {
            app.status = "Resume not supported (subprocess player)".to_string();
            (Effect::Nothing, IpcPending::Ready(IpcResponse::err("Resume not supported with subprocess player")))
        },
        IpcRequest::Stop => {
            app.stop_playback();
            (Effect::StopPlayer, IpcPending::Ready(IpcResponse::ok("Stopped")))
        },
        IpcRequest::Next => {
            let e = app.skip_next(false);
            (e, IpcPending::AfterNext)
        },
        IpcRequest::Prev => {
            let e = app.skip_prev(false);
            (e, IpcPending::AfterPrev)
        },
        IpcRequest::Now => {
            match &app.now_playing {
                Some(np) => {
                    let message = cat3(np.track.artist.as_str(), " - ", np.track.title.as_str());
                    let elapsed = np.elapsed();
                    proof {
                        let since = choose|since: Duration| since.wf() && #[trigger] played_after(
                            np.paused_elapsed,
                            since,
                            elapsed,
                        );
                        assert(played_after(np.paused_elapsed, since, elapsed));
                    }
                    let data = IpcData::NowPlaying {
                        title: np.track.title.clone(),
                        artist: np.track.artist.clone(),
                        album: np.track.album.clone(),
                        position_secs: elapsed.secs,
                        duration_secs: np.track.duration.secs,
                        volume: app.volume,
                        shuffle: app.shuffle,
                        repeat: repeat_text(app.repeat_mode).to_string(),
                        queue_index: np.queue_index,
                        queue_total: app.queue.len(),
                    };
                    (Effect::Nothing, IpcPending::Ready(IpcResponse::ok_with_data(message.as_str(), data)))
                },
                None => (Effect::Nothing, IpcPending::Ready(IpcResponse::err("Nothing is playing"))),
            }
        },
        IpcRequest::Queue => {
            let current_index = match &app.now_playing {
                Some(np) => np.queue_index,
                None => 0,
            };
            let tracks = queue_listing(&app.queue);
            if tracks.len() == 0 {
                (Effect::Nothing, IpcPending::Ready(IpcResponse::err("Queue is empty")))
            } else {
                let message = with_number("", tracks.len() as u64, " tracks in queue");
                proof {
                    reveal_strlit("");
                    assert(""@ + decimal(tracks@.len()) =~= decimal(tracks@.len()));
                }
                let data = IpcData::QueueList { current_index, tracks };
                (Effect::Nothing, IpcPending::Ready(IpcResponse::ok_with_data(message.as_str(), data)))
            }
        },
        IpcRequest::Volume { level } => {
            let v: u8 = if level <= 100 {
                level
            } else {
                100
            };
            app.volume = v;
            app.status = with_number("Volume: ", v as u64, "%");
            let message = with_number("Volume set to ", v as u64, "%");
            (Effect::SetVolume(v), IpcPending::Ready(IpcResponse::ok(message.as_str())))
        },
        IpcRequest::Shuffle { mode } => {
            app.shuffle = str_equal(mode.as_str(), "on");
            app.status = cat("Shuffle: ", on_off_text(app.shuffle));
            let message = cat("Shuffle ", on_off_text(app.shuffle));
            (Effect::Nothing, IpcPending::Ready(IpcResponse::ok(message.as_str())))
        },
        IpcRequest::Repeat { mode } => {
            app.repeat_mode = if str_equal(mode.as_str(), "one") {
                RepeatMode::One
            } else if str_equal(mode.as_str(), "all") {
                RepeatMode::All
            } else {
                RepeatMode::Off
            };
            app.status = cat("Repeat: ", repeat_text(app.repeat_mode));
            let message = cat("Repeat: ", mode.as_str());
            (Effect::Nothing, IpcPending::Ready(IpcResponse::ok(message.as_str())))
        },
    }
}

/// The answer to a request that waited for outside work, given how that work went.
pub fn ipc_reply(app: &App, pending: IpcPending, outcome: Result<(), String>) -> (r: IpcResponse)
    requires
        app.wf(),
    ensures
        match pending {
            IpcPending::Ready(resp) => r == resp,
            IpcPending::AfterNext => match outcome {
                Err(m) => !r.ok && r.message@ == "Error: "@ + m@ && r.data is None,
                Ok(()) => r.ok && r.data is None && r.message@ == match app.now_playing {
                    Some(np) => track_line(
                        (np.queue_index + 1) as nat,
                        app.queue@.len(),
                        np.track.artist@,
                        np.track.title@,
                    ),
                    None => "Queue finished"@,
                },
            },
            IpcPending::AfterPrev => match outcome {
                Err(m) => !r.ok && r.message@ == "Error: "@ + m@ && r.data is None,
                Ok(()) => r.ok && r.data is None && r.message@ == match app.now_playing {
                    Some(np) => track_line(
                        (np.queue_index + 1) as nat,
                        app.queue@.len(),
                        np.track.artist@,
                        np.track.title@,
                    ),
                    None => "At start of queue"@,
                },
            },
        },
{
    match pending {
        IpcPending::Ready(resp) => resp,
        IpcPending::AfterNext => match outcome {
            Err(m) => IpcResponse::err(cat("Error: ", m.as_str()).as_str()),
            Ok(()) => if app.now_playing.is_some() {
                IpcResponse::ok(playing_line(app).as_str())
            } else {
                IpcResponse::ok("Queue finished")
            },
        },
        IpcPending::AfterPrev => match outcome {
            Err(m) => IpcResponse::err(cat("Error: ", m.as_str()).as_str()),
            Ok(()) => if app.now_playing.is_some() {
                IpcResponse::ok(playing_line(app).as_str())
            } else {
                IpcResponse::ok("At start of queue")
            },
        },
    }
}


/// Switching to the next tab and back to the previous one returns to the same tab, and the
/// other way round.
pub proof fn lemma_tab_round_trip(t: Tab)
    ensures
        ({
            let n = crate::tui::app::tab_at(((crate::tui::app::tab_index(t) + 1) % 4) as nat);
            crate::tui::app::tab_at(
                (if crate::tui::app::tab_index(n) == 0 {
                    3
                } else {
                    crate::tui::app::tab_index(n) - 1
                }) as nat,
            ) == t
        }),
        ({
            let p = crate::tui::app::tab_at(
                (if crate::tui::app::tab_index(t) == 0 {
                    3
                } else {
                    crate::tui::app::tab_index(t) - 1
                }) as nat,
            );
            crate::tui::app::tab_at(((crate::tui::app::tab_index(p) + 1) % 4) as nat) == t
        }),
{
}

/// A step up and a step down of the volume undo each other away from the limits; a step up
/// never goes past 100 and a step down never raises the volume.
pub proof fn lemma_volume_steps(v: u8)
    ensures
        v <= 95 ==> lowered_volume(raised_volume(v)) == v,
        5 <= v <= 100 ==> raised_volume(lowered_volume(v)) == v,
        raised_volume(v) <= 100,
        lowered_volume(v) <= v,
{
}

/// The next and previous keys move by one position of the queue in every repeat mode (in
/// repeat-one too): `n` plays position `qi + 1`, wrapping from the last to the first only with
/// repeat-all; `p` plays position `qi - 1`, wrapping from the first to the last only with
/// repeat-all.
pub proof fn lemma_skip_keys_move_by_one(a: App, b: App, e: Effect, c: App, f: Effect)
    requires
        a.now_playing is Some,
        a.now_playing.unwrap().queue_index < a.queue@.len() <= usize::MAX,
        key_handled(a, b, Key::Char('n'), e),
        key_handled(a, c, Key::Char('p'), f),
    ensures
        ({
            let qi = a.now_playing.unwrap().queue_index as int;
            let len = a.queue@.len() as int;
            &&& qi + 1 < len ==> (e matches Effect::Play { index, .. } && index == qi + 1)
            &&& (qi + 1 == len && a.repeat_mode == RepeatMode::All) ==> (e matches Effect::Play { index, .. } && index == 0)
            &&& (qi + 1 == len && a.repeat_mode != RepeatMode::All) ==> (e is Nothing && b.now_playing is None)
            &&& qi > 0 ==> (f matches Effect::Play { index, .. } && index == qi - 1)
            &&& (qi == 0 && a.repeat_mode == RepeatMode::All) ==> (f matches Effect::Play { index, .. } && index == len - 1)
            &&& (qi == 0 && a.repeat_mode != RepeatMode::All) ==> f is Nothing
        }),
{
    let qi = a.now_playing.unwrap().queue_index as int;
    let len = a.queue@.len() as int;
    if a.repeat_mode == RepeatMode::All {
        if qi + 1 < len {
            vstd::arithmetic::div_mod::lemma_small_mod((qi + 1) as nat, len as nat);
        } else {
            vstd::arithmetic::div_mod::lemma_mod_self_0(len);
        }
    }
}

/// Cycling the repeat mode three times comes back to the same mode.
pub proof fn lemma_repeat_cycle(m: RepeatMode)
    ensures
        next_repeat(next_repeat(next_repeat(m))) == m,
{
}

/// Marking a folder and marking it again leaves the marks as they were.
pub proof fn lemma_mark_toggle_twice(marks: Seq<usize>, once: Seq<usize>, x: usize)
    requires
        once.to_set() == toggled_marks(marks, x),
    ensures
        toggled_marks(once, x) == marks.to_set(),
{
    vstd::seq_lib::seq_to_set_is_finite(marks);
    if marks.contains(x) {
        assert(!once.to_set().contains(x));
        assert(!once.contains(x));
        assert(toggled_marks(once, x) =~= marks.to_set());
    } else {
        assert(once.to_set().contains(x));
        assert(once.contains(x));
        assert(toggled_marks(once, x) =~= marks.to_set());
    }
}

/// A skip forward that lands inside the queue is undone by a skip back, in every repeat mode.
pub proof fn lemma_skip_next_then_prev(qi: int, len: int, m: RepeatMode)
    requires
        0 <= qi < len,
        skip_next_index(qi, len, m) < len,
    ensures
        skip_prev_index(skip_next_index(qi, len, m), len, m) == Some(qi),
{
    if m == RepeatMode::All {
        if qi + 1 < len {
            vstd::arithmetic::div_mod::lemma_small_mod((qi + 1) as nat, len as nat);
        } else {
            vstd::arithmetic::div_mod::lemma_mod_self_0(len);
        }
    }
}

/// Preparing a list for playing with shuffling on puts the selected song first, keeps every
/// song and starts at the front.
pub proof fn lemma_shuffled_play_starts_with_selection(list: Seq<Song>, sel: int, q: Seq<Song>, start: int)
    requires
        shuffled_for_play(true, list, sel, q, start),
        0 <= sel < list.len(),
    ensures
        start == 0,
        q[0] == list[sel],
        q.to_multiset() == list.to_multiset(),
{
}

} // verus!
