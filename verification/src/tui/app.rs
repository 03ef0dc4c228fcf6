use vstd::prelude::*;

use crate::api::types::{Folder, Playlist, Song};
use crate::duration::Duration;
use crate::player::queue::RepeatMode;
use crate::player::state::TrackInfo;

verus! {

/// A point in time of the monotonic clock.
#[verifier::external_type_specification]
#[verifier::external_body]
pub struct ExInstant(std::time::Instant);

/// `std::time::Instant::now`: the current instant of the monotonic clock. Nothing is stated of
/// it.
#[verifier::external_body]
fn instant_now() -> std::time::Instant {
    std::time::Instant::now()
}

/// `std::time::Instant::elapsed`, converted to a `Duration` through `as_secs` and
/// `subsec_nanos`. The time read from the clock is not stated; the sub-second part is below
/// one second, as `subsec_nanos` documents.
#[verifier::external_body]
fn elapsed_since(start: &std::time::Instant) -> (d: Duration)
    ensures
        d.wf(),
{
    let e = start.elapsed();
    Duration { secs: e.as_secs(), nanos: e.subsec_nanos() }
}

/// The tabs of the player, in display order.
#[derive(Debug, Clone, Copy, PartialEq, Eq, Structural)]
pub enum Tab {
    Library,
    Folders,
    Playlists,
    Queue,
}

/// The number of tabs.
pub const TAB_COUNT: usize = 4;

/// The position of a tab in display order.
pub open spec fn tab_index(t: Tab) -> nat {
    match t {
        Tab::Library => 0,
        Tab::Folders => 1,
        Tab::Playlists => 2,
        Tab::Queue => 3,
    }
}

/// The tab at a position in display order (positions past the last fall on the last).
pub open spec fn tab_at(i: nat) -> Tab {
    if i == 0 {
        Tab::Library
    } else if i == 1 {
        Tab::Folders
    } else if i == 2 {
        Tab::Playlists
    } else {
        Tab::Queue
    }
}

/// The title of a tab.
pub open spec fn tab_label(t: Tab) -> Seq<char> {
    match t {
        Tab::Library => "Library"@,
        Tab::Folders => "Folders"@,
        Tab::Playlists => "Playlists"@,
        Tab::Queue => "Queue"@,
    }
}

impl Tab {
    pub fn label(&self) -> (s: &'static str)
        ensures
            s@ == tab_label(*self),
    {
        match self {
            Tab::Library => "Library",
            Tab::Folders => "Folders",
            Tab::Playlists => "Playlists",
            Tab::Queue => "Queue",
        }
    }

    pub fn index(&self) -> (i: usize)
        ensures
            i == tab_index(*self),
    {
        match self {
            Tab::Library => 0,
            Tab::Folders => 1,
            Tab::Playlists => 2,
            Tab::Queue => 3,
        }
    }

    /// The tab at a position in display order.
    pub fn at(i: usize) -> (t: Tab)
        requires
            i < TAB_COUNT,
        ensures
            t == tab_at(i as nat),
            tab_index(t) == i,
    {
        if i == 0 {
            Tab::Library
        } else if i == 1 {
            Tab::Folders
        } else if i == 2 {
            Tab::Playlists
        } else {
            Tab::Queue
        }
    }

    /// All tabs in display order.
    pub fn all() -> (v: Vec<Tab>)
        ensures
            v@.len() == TAB_COUNT,
            forall|i: int| 0 <= i < TAB_COUNT ==> v@[i] == tab_at(i as nat),
    {
        vec![Tab::Library, Tab::Folders, Tab::Playlists, Tab::Queue]
    }
}

/// The selection after moving down by `step`: clamped to the last item; the first item when
/// nothing was selected; unchanged for an empty list.
pub open spec fn select_down(sel: Option<usize>, len: nat, step: nat) -> Option<usize> {
    if len == 0 {
        sel
    } else {
        match sel {
            Some(i) => Some(if i + step < len { (i + step) as usize } else { (len - 1) as usize }),
            None => Some(0),
        }
    }
}

/// The selection after moving up by `step`: clamped to the first item; the first item when
/// nothing was selected; unchanged for an empty list.
pub open spec fn select_up(sel: Option<usize>, len: nat, step: nat) -> Option<usize> {
    if len == 0 {
        sel
    } else {
        match sel {
            Some(i) => Some(if i >= step { (i - step) as usize } else { 0 }),
            None => Some(0),
        }
    }
}

/// A list with at most one selected item.
#[derive(Debug, Clone)]
pub struct StatefulList<T> {
    pub items: Vec<T>,
    pub selected: Option<usize>,
}

impl<T> Default for StatefulList<T> {
    /// An empty list with no selection.
    fn default() -> (l: Self)
        ensures
            l.items@.len() == 0,
            l.selected is None,
    {
        Self::empty()
    }
}

impl<T> StatefulList<T> {
    /// The selection, if any, points at an item.
    pub open spec fn wf(&self) -> bool {
        self.selected matches Some(i) ==> i < self.items@.len()
    }

    /// An empty list with no selection.
    pub fn empty() -> (l: Self)
        ensures
            l.items@.len() == 0,
            l.selected is None,
            l.wf(),
    {
        StatefulList { items: Vec::new(), selected: None }
    }

    /// A list of the given items, the first selected when there is one.
    pub fn with_items(items: Vec<T>) -> (l: Self)
        ensures
            l.items@ == items@,
            l.selected == (if items@.len() > 0 { Some(0usize) } else { None }),
            l.wf(),
    {
        let selected = if items.len() > 0 { Some(0) } else { None };
        StatefulList { items, selected }
    }

    pub fn next(&mut self)
        ensures
            old(self).items@.len() > 0 ==> final(self).wf(),
            final(self).items@ == old(self).items@,
            final(self).selected == select_down(old(self).selected, old(self).items@.len(), 1),
    {
        self.page_down(1);
    }

    pub fn previous(&mut self)
        ensures
            final(self).items@ == old(self).items@,
            final(self).selected == select_up(old(self).selected, old(self).items@.len(), 1),
    {
        self.page_up(1);
    }

    pub fn selected(&self) -> (s: Option<usize>)
        ensures
            s == self.selected,
    {
        self.selected
    }

    /// The selected item, if the selection points at one.
    pub fn selected_item(&self) -> (r: Option<&T>)
        ensures
            match self.selected {
                Some(i) => if i < self.items@.len() {
                    r matches Some(x) && *x == self.items@[i as int]
                } else {
                    r is None
                },
                None => r is None,
            },
    {
        match self.selected {
            Some(i) => if i < self.items.len() {
                Some(&self.items[i])
            } else {
                None
            },
            None => None,
        }
    }

    pub fn page_down(&mut self, page: usize)
        ensures
            old(self).items@.len() > 0 ==> final(self).wf(),
            final(self).items@ == old(self).items@,
            final(self).selected == select_down(old(self).selected, old(self).items@.len(), page as nat),
    {
        let n = self.items.len();
        if n == 0 {
            return;
        }
        let i = match self.selected {
            Some(i) => if i < n && page < n - i {
                i + page
            } else {
                n - 1
            },
            None => 0,
        };
        self.selected = Some(i);
    }

    pub fn page_up(&mut self, page: usize)
        ensures
            final(self).items@ == old(self).items@,
            final(self).selected == select_up(old(self).selected, old(self).items@.len(), page as nat),
    {
        let n = self.items.len();
        if n == 0 {
            return;
        }
        let i = match self.selected {
            Some(i) => if i >= page {
                i - page
            } else {
                0
            },
            None => 0,
        };
        self.selected = Some(i);
    }
}

/// Info about the playlist currently being viewed in the Playlists tab.
#[derive(Debug)]
pub struct PlaylistDetail {
    pub name: String,
    pub songs: StatefulList<Song>,
}

/// Currently playing track with timing info.
#[derive(Debug)]
pub struct NowPlaying {
    pub track: TrackInfo,
    pub started_at: std::time::Instant,
    pub paused_elapsed: Duration,
    pub queue_index: usize,
}

/// Whether `d` is the time played: the time played before a pause plus `since`, the time
/// since the start, or the longest span where that sum exceeds it.
pub open spec fn played_after(paused: Duration, since: Duration, d: Duration) -> bool {
    &&& d.wf()
    &&& paused.total_nanos() + since.total_nanos() <= Duration::spec_max().total_nanos()
        ==> d.total_nanos() == paused.total_nanos() + since.total_nanos()
    &&& paused.total_nanos() + since.total_nanos() > Duration::spec_max().total_nanos()
        ==> d == Duration::spec_max()
}

impl NowPlaying {
    /// Time played: the time played before a pause plus the time since the start, by the
    /// clock at the call; the longest span where that sum exceeds it.
    pub fn elapsed(&self) -> (d: Duration)
        requires
            self.paused_elapsed.wf(),
        ensures
            d.wf(),
            exists|since: Duration| since.wf() && #[trigger] played_after(self.paused_elapsed, since, d),
    {
        let since = elapsed_since(&self.started_at);
        let d = self.paused_elapsed.saturating_add(since);
        assert(played_after(self.paused_elapsed, since, d));
        d
    }
}

/// Top-level TUI application state.
///
/// The Library tab lists `songs`: the user's favourite songs.
#[derive(Debug)]
pub struct App {
    pub running: bool,
    pub active_tab: Tab,
    pub songs: StatefulList<Song>,
    pub playlists: StatefulList<Playlist>,
    pub playlist_detail: Option<PlaylistDetail>,
    pub folders: StatefulList<Folder>,
    /// Positions in `folders` marked for playing together, in increasing order.
    pub selected_folders: Vec<usize>,
    /// Breadcrumb stack for folder navigation: (id, name).
    pub folder_stack: Vec<(String, String)>,
    pub queue: Vec<Song>,
    pub now_playing: Option<NowPlaying>,
    pub volume: u8,
    pub shuffle: bool,
    pub repeat_mode: RepeatMode,
    pub status: String,
}

/// A sequence of positions in strictly increasing order.
pub open spec fn increasing(s: Seq<usize>) -> bool {
    forall|a: int, b: int| 0 <= a < b < s.len() ==> s[a] < s[b]
}

impl Default for App {
    /// The state at start, as `new` makes it.
    fn default() -> (app: Self)
        ensures
            app.wf(),
            app.running,
            app.active_tab == Tab::Library,
            app.songs.items@.len() == 0 && app.songs.selected is None,
            app.playlists.items@.len() == 0 && app.playlists.selected is None,
            app.folders.items@.len() == 0 && app.folders.selected is None,
            app.playlist_detail is None,
            app.selected_folders@.len() == 0,
            app.folder_stack@.len() == 0,
            app.queue@.len() == 0,
            app.now_playing is None,
            app.volume == 80,
            !app.shuffle,
            app.repeat_mode == RepeatMode::Off,
            app.status@ == "Ready"@,
    {
        Self::new()
    }
}

impl App {
    /// Well-formed: the marked folders are in increasing order, and a track plays only from a
    /// queue with songs.
    pub open spec fn wf(&self) -> bool {
        &&& increasing(self.selected_folders@)
        &&& (self.now_playing matches Some(np) ==> self.queue@.len() > 0 && np.paused_elapsed.wf()
            && np.queue_index < usize::MAX)
    }

    pub fn new() -> (app: Self)
        ensures
            app.wf(),
            app.running,
            app.active_tab == Tab::Library,
            app.songs.items@.len() == 0 && app.songs.selected is None,
            app.playlists.items@.len() == 0 && app.playlists.selected is None,
            app.folders.items@.len() == 0 && app.folders.selected is None,
            app.playlist_detail is None,
            app.selected_folders@.len() == 0,
            app.folder_stack@.len() == 0,
            app.queue@.len() == 0,
            app.now_playing is None,
            app.volume == 80,
            !app.shuffle,
            app.repeat_mode == RepeatMode::Off,
            app.status@ == "Ready"@,
    {
        App {
            running: true,
            active_tab: Tab::Library,
            songs: StatefulList::empty(),
            playlists: StatefulList::empty(),
            playlist_detail: None,
            folders: StatefulList::empty(),
            selected_folders: Vec::new(),
            folder_stack: Vec::new(),
            queue: Vec::new(),
            now_playing: None,
            volume: 80,
            shuffle: false,
            repeat_mode: RepeatMode::Off,
            status: "Ready".to_string(),
        }
    }

    /// Switch to the following tab, wrapping around; closes an open playlist.
    pub fn next_tab(&mut self)
        requires
            old(self).wf(),
        ensures
            final(self).wf(),
            final(self).active_tab == tab_at(((tab_index(old(self).active_tab) + 1) % 4) as nat),
            final(self).playlist_detail is None,
            final(self).queue == old(self).queue,
            final(self).now_playing == old(self).now_playing,
            final(self).status == old(self).status,
    {
        let idx = self.active_tab.index();
        self.active_tab = Tab::at((idx + 1) % TAB_COUNT);
        self.playlist_detail = None;
    }

    /// Switch to the preceding tab, wrapping around; closes an open playlist.
    pub fn prev_tab(&mut self)
        requires
            old(self).wf(),
        ensures
            final(self).wf(),
            final(self).active_tab == tab_at(
                (if tab_index(old(self).active_tab) == 0 {
                    3
                } else {
                    tab_index(old(self).active_tab) - 1
                }) as nat,
            ),
            final(self).playlist_detail is None,
            final(self).queue == old(self).queue,
            final(self).now_playing == old(self).now_playing,
            final(self).status == old(self).status,
    {
        let idx = self.active_tab.index();
        self.active_tab = Tab::at(
            if idx == 0 {
                TAB_COUNT - 1
            } else {
                idx - 1
            },
        );
        self.playlist_detail = None;
    }

    /// Whether the player should be asked if its track has ended: only while a track plays.
    pub fn tick(&self) -> (b: bool)
        ensures
            b == self.now_playing is Some,
    {
        self.now_playing.is_some()
    }

    /// Record that a track started playing now, at a position of the queue.
    pub fn set_now_playing(&mut self, track: TrackInfo, queue_index: usize)
        requires
            old(self).wf(),
            queue_index < old(self).queue@.len(),
        ensures
            final(self).wf(),
            final(self).now_playing matches Some(np) && np.track == track && np.queue_index
                == queue_index && np.paused_elapsed == Duration::spec_zero(),
            final(self).queue == old(self).queue,
            final(self).active_tab == old(self).active_tab,
            final(self).status == old(self).status,
            final(self).running == old(self).running,
            final(self).volume == old(self).volume,
            final(self).shuffle == old(self).shuffle,
            final(self).repeat_mode == old(self).repeat_mode,
            final(self).songs == old(self).songs,
            final(self).playlists == old(self).playlists,
            final(self).playlist_detail == old(self).playlist_detail,
            final(self).folders == old(self).folders,
            final(self).selected_folders == old(self).selected_folders,
            final(self).folder_stack == old(self).folder_stack,
    {
        let n = self.queue.len();
        assert(queue_index < n);
        self.now_playing = Some(
            NowPlaying {
                track,
                started_at: instant_now(),
                paused_elapsed: Duration::zero(),
                queue_index,
            },
        );
    }

    /// Forget the playing track. The caller stops the player.
    pub fn stop_playback(&mut self)
        requires
            old(self).wf(),
        ensures
            final(self).wf(),
            final(self).now_playing is None,
            final(self).status@ == "Stopped."@,
            final(self).queue == old(self).queue,
            final(self).active_tab == old(self).active_tab,
            final(self).running == old(self).running,
            final(self).volume == old(self).volume,
            final(self).shuffle == old(self).shuffle,
            final(self).repeat_mode == old(self).repeat_mode,
            final(self).songs == old(self).songs,
            final(self).playlists == old(self).playlists,
            final(self).playlist_detail == old(self).playlist_detail,
            final(self).folders == old(self).folders,
            final(self).selected_folders == old(self).selected_folders,
            final(self).folder_stack == old(self).folder_stack,
    {
        self.now_playing = None;
        self.status = "Stopped.".to_string();
    }

    /// Move the selection of the active tab's list down by one.
    pub fn active_list_next(&mut self)
        requires
            old(self).wf(),
        ensures
            final(self).wf(),
            self_same_but_lists(*old(self), *final(self)),
            lists_moved(*old(self), *final(self), 1, true),
    {
        match self.active_tab {
            Tab::Library => self.songs.next(),
            Tab::Folders => self.folders.next(),
            Tab::Playlists => {
                match &mut self.playlist_detail {
                    Some(detail) => detail.songs.next(),
                    None => self.playlists.next(),
                }
            },
            Tab::Queue => {},
        }
    }

    /// Move the selection of the active tab's list up by one.
    pub fn active_list_previous(&mut self)
        requires
            old(self).wf(),
        ensures
            final(self).wf(),
            self_same_but_lists(*old(self), *final(self)),
            lists_moved(*old(self), *final(self), 1, false),
    {
        match self.active_tab {
            Tab::Library => self.songs.previous(),
            Tab::Folders => self.folders.previous(),
            Tab::Playlists => {
                match &mut self.playlist_detail {
                    Some(detail) => detail.songs.previous(),
                    None => self.playlists.previous(),
                }
            },
            Tab::Queue => {},
        }
    }

    /// Move the selection of the active tab's list down by a page.
    pub fn active_list_page_down(&mut self, page: usize)
        requires
            old(self).wf(),
        ensures
            final(self).wf(),
            self_same_but_lists(*old(self), *final(self)),
            lists_moved(*old(self), *final(self), page as nat, true),
    {
        match self.active_tab {
            Tab::Library => self.songs.page_down(page),
            Tab::Folders => self.folders.page_down(page),
            Tab::Playlists => {
                match &mut self.playlist_detail {
                    Some(d) => d.songs.page_down(page),
                    None => self.playlists.page_down(page),
                }
            },
            Tab::Queue => {},
        }
    }

    /// Move the selection of the active tab's list up by a page.
    pub fn active_list_page_up(&mut self, page: usize)
        requires
            old(self).wf(),
        ensures
            final(self).wf(),
            self_same_but_lists(*old(self), *final(self)),
            lists_moved(*old(self), *final(self), page as nat, false),
    {
        match self.active_tab {
            Tab::Library => self.songs.page_up(page),
            Tab::Folders => self.folders.page_up(page),
            Tab::Playlists => {
                match &mut self.playlist_detail {
                    Some(d) => d.songs.page_up(page),
                    None => self.playlists.page_up(page),
                }
            },
            Tab::Queue => {},
        }
    }
}

/// Two states that agree on everything but the selections of their lists.
pub open spec fn self_same_but_lists(a: App, b: App) -> bool {
    &&& b.running == a.running
    &&& b.active_tab == a.active_tab
    &&& b.songs.items@ == a.songs.items@
    &&& b.playlists.items@ == a.playlists.items@
    &&& b.folders.items@ == a.folders.items@
    &&& b.playlist_detail is Some == a.playlist_detail is Some
    &&& (b.playlist_detail matches Some(d) ==> a.playlist_detail matches Some(e) && d.name
        == e.name && d.songs.items@ == e.songs.items@)
    &&& b.selected_folders@ == a.selected_folders@
    &&& b.folder_stack@ == a.folder_stack@
    &&& b.queue@ == a.queue@
    &&& b.now_playing == a.now_playing
    &&& b.volume == a.volume
    &&& b.shuffle == a.shuffle
    &&& b.repeat_mode == a.repeat_mode
    &&& b.status == a.status
}

/// The selection of the list the active tab shows moved by `step` (down or up), the others
/// unchanged; the Queue tab moves nothing.
pub open spec fn lists_moved(a: App, b: App, step: nat, down: bool) -> bool {
    let mv = |sel: Option<usize>, len: nat|
        if down {
            select_down(sel, len, step)
        } else {
            select_up(sel, len, step)
        };
    let on_library = a.active_tab == Tab::Library;
    let on_folders = a.active_tab == Tab::Folders;
    let on_detail = a.active_tab == Tab::Playlists && a.playlist_detail is Some;
    let on_playlists = a.active_tab == Tab::Playlists && a.playlist_detail is None;
    &&& b.songs.selected == if on_library {
        mv(a.songs.selected, a.songs.items@.len())
    } else {
        a.songs.selected
    }
    &&& b.folders.selected == if on_folders {
        mv(a.folders.selected, a.folders.items@.len())
    } else {
        a.folders.selected
    }
    &&& b.playlists.selected == if on_playlists {
        mv(a.playlists.selected, a.playlists.items@.len())
    } else {
        a.playlists.selected
    }
    &&& (b.playlist_detail matches Some(d) ==> a.playlist_detail matches Some(e) && d.songs.selected
        == if on_detail {
        mv(e.songs.selected, e.songs.items@.len())
    } else {
        e.songs.selected
    })
}

} // verus!
