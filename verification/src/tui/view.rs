//! The text the player shows: tables of songs, folders, playlists and the queue, the line of
//! the playing track and the help line. Layout and colours are the terminal's business.
use vstd::prelude::*;

use crate::api::types::{Folder, Playlist, Song};
use crate::duration::Duration;
use crate::playback::{audio_seconds, display_title, format_duration, minutes_seconds, tag_album, tag_artist, track_from_song};
use crate::player::queue::RepeatMode;
use crate::text::{decimal, push_decimal, push_str, signed_decimal, str_equal};
use crate::tui::app::{App, NowPlaying, played_after};
use crate::tui::handler::{cat, cat3, on_off, repeat_word, with_number};
use crate::util::push_char;

verus! {

/// One row of a table: its cells, whether it is the playing track, and whether it is a
/// directory.
#[derive(Debug)]
pub struct Row {
    pub cells: Vec<String>,
    pub highlighted: bool,
    pub directory: bool,
}

/// A table: its title and rows.
#[derive(Debug)]
pub struct TableView {
    pub title: String,
    pub rows: Vec<Row>,
}

/// Artist, title, album and length (`M:SS`) of a song, as the tables show them.
pub fn extract_song_display(song: &Song) -> (r: (String, String, String, String))
    ensures
        r.0@ == tag_artist(*song),
        r.1@ == display_title(*song),
        r.2@ == tag_album(*song),
        r.3@ == minutes_seconds(audio_seconds(*song) as nat),
{
    let t = track_from_song(song);
    let d = format_duration(t.duration);
    (t.artist, t.title, t.album, d)
}

/// `M:SS` for a duration.
pub fn format_dur(d: Duration) -> (s: String)
    ensures
        s@ == minutes_seconds(d.secs as nat),
{
    format_duration(d)
}

/// The id of the playing track, empty when nothing plays.
pub open spec fn playing_id(app: App) -> Seq<char> {
    match app.now_playing {
        Some(np) => np.track.id@,
        None => Seq::empty(),
    }
}

fn playing_id_of(app: &App) -> (s: String)
    ensures
        s@ == playing_id(*app),
{
    match &app.now_playing {
        Some(np) => np.track.id.clone(),
        None => String::new(),
    }
}

/// A row of a song table: the artist (marked when the song plays), title, album and length.
pub open spec fn song_row(r: Row, s: Song, playing: Seq<char>) -> bool {
    &&& r.highlighted == (s.id@ == playing)
    &&& !r.directory
    &&& r.cells@.len() == 4
    &&& r.cells@[0]@ == (if r.highlighted {
        "▶ "@
    } else {
        ""@
    }) + tag_artist(s)
    &&& r.cells@[1]@ == display_title(s)
    &&& r.cells@[2]@ == tag_album(s)
    &&& r.cells@[3]@ == minutes_seconds(audio_seconds(s) as nat)
}

/// The rows of a song table, one per song.
pub open spec fn song_rows(rows: Seq<Row>, songs: Seq<Song>, playing: Seq<char>) -> bool {
    &&& rows.len() == songs.len()
    &&& forall|k: int| 0 <= k < rows.len() ==> song_row(#[trigger] rows[k], songs[k], playing)
}

fn song_rows_of(songs: &Vec<Song>, playing: &str) -> (rows: Vec<Row>)
    ensures
        song_rows(rows@, songs@, playing@),
{
    let mut rows: Vec<Row> = Vec::new();
    let mut i: usize = 0;
    while i < songs.len()
        invariant
            i <= songs@.len(),
            song_rows(rows@, songs@.take(i as int), playing@),
        decreases songs.len() - i,
    {
        let (artist, title, album, dur) = extract_song_display(&songs[i]);
        let highlighted = str_equal(songs[i].id.as_str(), playing);
        let first = if highlighted {
            cat("▶ ", artist.as_str())
        } else {
            cat("", artist.as_str())
        };
        let cells = vec![first, title, album, dur];
        rows.push(Row { cells, highlighted, directory: false });
        i = i + 1;
    }
    assert(songs@.take(songs@.len() as int) =~= songs@);
    rows
}

/// The song table: an open playlist, or the Library.
pub fn songs_table(app: &App) -> (t: TableView)
    ensures
        match app.playlist_detail {
            Some(d) => t.title@ == " "@ + d.name@ + " "@ && song_rows(t.rows@, d.songs.items@, playing_id(*app)),
            None => t.title@ == " Songs ("@ + decimal(app.songs.items@.len()) + ") "@ && song_rows(
                t.rows@,
                app.songs.items@,
                playing_id(*app),
            ),
        },
{
    let playing = playing_id_of(app);
    match &app.playlist_detail {
        Some(d) => TableView {
            title: cat3(" ", d.name.as_str(), " "),
            rows: song_rows_of(&d.songs.items, playing.as_str()),
        },
        None => TableView {
            title: with_number(" Songs (", app.songs.items.len() as u64, ") "),
            rows: song_rows_of(&app.songs.items, playing.as_str()),
        },
    }
}

/// A row of the folder table: a directory with its title, or a file with its title, artist,
/// album and length (marked when it plays).
pub open spec fn folder_row(r: Row, f: Folder, playing: Seq<char>) -> bool {
    &&& r.cells@.len() == 5
    &&& if f.is_dir {
        &&& r.directory && !r.highlighted
        &&& r.cells@[0]@ == "[DIR]"@
        &&& r.cells@[1]@ == f.title@
        &&& r.cells@[2]@ == ""@ && r.cells@[3]@ == ""@ && r.cells@[4]@ == ""@
    } else {
        &&& !r.directory
        &&& r.highlighted == (f.id@ == playing)
        &&& r.cells@[0]@ == "  "@ + (if r.highlighted {
            " ▶"@
        } else {
            ""@
        })
        &&& r.cells@[1]@ == f.title@
        &&& r.cells@[2]@ == ""@ && r.cells@[3]@ == ""@
        &&& r.cells@[4]@ == minutes_seconds(0)
    }
}

/// The breadcrumb of the folders entered: their names joined by slashes.
pub open spec fn breadcrumb(stack: Seq<(String, String)>) -> Seq<char>
    decreases stack.len(),
{
    if stack.len() == 0 {
        Seq::empty()
    } else if stack.len() == 1 {
        stack[0].1@
    } else {
        breadcrumb(stack.drop_last()) + "/"@ + stack.last().1@
    }
}

/// The folder table of the current folder, titled with the breadcrumb.
pub fn folders_table(app: &App) -> (t: TableView)
    ensures
        t.title@ == if app.folder_stack@.len() == 0 {
            " Folders ("@ + decimal(app.folders.items@.len()) + ") "@
        } else {
            " /"@ + breadcrumb(app.folder_stack@) + " ("@ + decimal(app.folders.items@.len()) + ") "@
        },
        t.rows@.len() == app.folders.items@.len(),
        forall|k: int| 0 <= k < t.rows@.len() ==> folder_row(#[trigger] t.rows@[k], app.folders.items@[k], playing_id(*app)),
{
    let playing = playing_id_of(app);
    let items = &app.folders.items;
    let mut rows: Vec<Row> = Vec::new();
    let mut i: usize = 0;
    while i < items.len()
        invariant
            i <= items@.len(),
            playing@ == playing_id(*app),
            items == &app.folders.items,
            rows@.len() == i,
            forall|k: int| 0 <= k < i ==> folder_row(#[trigger] rows@[k], items@[k], playing@),
        decreases items.len() - i,
    {
        let f = &items[i];
        if f.is_dir {
            let cells = vec!["[DIR]".to_string(), f.title.clone(), String::new(), String::new(), String::new()];
            proof {
                reveal_strlit("");
            }
            rows.push(Row { cells, highlighted: false, directory: true });
            assert(rows@[i as int].cells@[0]@ == "[DIR]"@);
            assert(rows@[i as int].cells@[2]@ == ""@);
            assert(folder_row(rows@[i as int], items@[i as int], playing@));
        } else {
            let song = f.to_song();
            let (_artist, title, _album, dur) = extract_song_display(&song);
            let highlighted = str_equal(f.id.as_str(), playing.as_str());
            let marker = if highlighted {
                cat("  ", " ▶")
            } else {
                cat("  ", "")
            };
            proof {
                reveal_strlit("");
            }
            let cells = vec![marker, title, String::new(), String::new(), dur];
            rows.push(Row { cells, highlighted, directory: false });
            assert(rows@[i as int].cells@[1]@ == f.title@);
            assert(rows@[i as int].cells@.len() == 5);
            assert(rows@[i as int].cells@[2]@ == ""@);
            assert(rows@[i as int].cells@[3]@ == ""@);
            assert(rows@[i as int].highlighted == (f.id@ == playing@));
            assert(rows@[i as int].cells@[0]@ == "  "@ + (if rows@[i as int].highlighted { " ▶"@ } else { ""@ }));
            assert(!items@[i as int].is_dir);
            assert(rows@[i as int].cells@[4]@ == minutes_seconds(0));
            assert(folder_row(rows@[i as int], items@[i as int], playing@));
        }
        i = i + 1;
    }
    let count = items.len() as u64;
    let title = if app.folder_stack.len() == 0 {
        with_number(" Folders (", count, ") ")
    } else {
        let mut path = String::new();
        let mut k: usize = 0;
        while k < app.folder_stack.len()
            invariant
                k <= app.folder_stack@.len(),
                path@ == breadcrumb(app.folder_stack@.take(k as int)),
            decreases app.folder_stack.len() - k,
        {
            assert(app.folder_stack@.take(k + 1).drop_last() =~= app.folder_stack@.take(k as int));
            if k > 0 {
                push_char(&mut path, '/');
                proof {
                    reveal_strlit("/");
                }
            } else {
                proof {
                    assert(app.folder_stack@.take(1)[0] == app.folder_stack@[0]);
                }
            }
            push_str(&mut path, app.folder_stack[k].1.as_str());
            k = k + 1;
        }
        assert(app.folder_stack@.take(app.folder_stack@.len() as int) =~= app.folder_stack@);
        let mut t = cat(" /", path.as_str());
        push_str(&mut t, " (");
        push_decimal(&mut t, count);
        push_str(&mut t, ") ");
        t
    };
    TableView { title, rows }
}

/// A row of the playlist table: name, number of songs and library.
pub open spec fn playlist_row(r: Row, p: Playlist) -> bool {
    &&& !r.highlighted && !r.directory
    &&& r.cells@.len() == 3
    &&& r.cells@[0]@ == p.name@
    &&& r.cells@[1]@ == signed_decimal(match p.songs_count {
        Some(c) => c as int,
        None => 0,
    })
    &&& r.cells@[2]@ == p.library@
}

/// The playlist table, or the open playlist's songs.
pub fn playlists_table(app: &App) -> (t: TableView)
    ensures
        app.playlist_detail is Some ==> (match app.playlist_detail {
            Some(d) => t.title@ == " "@ + d.name@ + " "@ && song_rows(t.rows@, d.songs.items@, playing_id(*app)),
            None => true,
        }),
        app.playlist_detail is None ==> {
            &&& t.title@ == " Playlists ("@ + decimal(app.playlists.items@.len()) + ") "@
            &&& t.rows@.len() == app.playlists.items@.len()
            &&& forall|k: int| 0 <= k < t.rows@.len() ==> playlist_row(#[trigger] t.rows@[k], app.playlists.items@[k])
        },
{
    if app.playlist_detail.is_some() {
        return songs_table(app);
    }
    let items = &app.playlists.items;
    let mut rows: Vec<Row> = Vec::new();
    let mut i: usize = 0;
    while i < items.len()
        invariant
            i <= items@.len(),
            items == &app.playlists.items,
            rows@.len() == i,
            forall|k: int| 0 <= k < i ==> playlist_row(#[trigger] rows@[k], items@[k]),
        decreases items.len() - i,
    {
        let p = &items[i];
        let cells = vec![p.name.clone(), crate::text::signed_string(p.song_count()), p.library.clone()];
        rows.push(Row { cells, highlighted: false, directory: false });
        i = i + 1;
    }
    TableView { title: with_number(" Playlists (", items.len() as u64, ") "), rows }
}

/// A row of the queue table: position (marked when it plays), artist, title, album.
pub open spec fn queue_row(r: Row, s: Song, k: int, playing: bool) -> bool {
    &&& r.highlighted == playing && !r.directory
    &&& r.cells@.len() == 4
    &&& r.cells@[0]@ == (if playing {
        "▶"@
    } else {
        ""@
    }) + decimal((k + 1) as nat)
    &&& r.cells@[1]@ == tag_artist(s)
    &&& r.cells@[2]@ == display_title(s)
    &&& r.cells@[3]@ == tag_album(s)
}

/// The queue table, the playing position marked.
pub fn queue_table(app: &App) -> (t: TableView)
    ensures
        t.title@ == " Queue ("@ + decimal(app.queue@.len()) + ") "@,
        t.rows@.len() == app.queue@.len(),
        forall|k: int|
            0 <= k < t.rows@.len() ==> queue_row(
                #[trigger] t.rows@[k],
                app.queue@[k],
                k,
                app.now_playing matches Some(np) && np.queue_index == k,
            ),
{
    let playing_idx: Option<usize> = match &app.now_playing {
        Some(np) => Some(np.queue_index),
        None => None,
    };
    let queue = &app.queue;
    let mut rows: Vec<Row> = Vec::new();
    let mut i: usize = 0;
    while i < queue.len()
        invariant
            i <= queue@.len(),
            queue == &app.queue,
            playing_idx == (match app.now_playing {
                Some(np) => Some(np.queue_index),
                None => None::<usize>,
            }),
            rows@.len() == i,
            forall|k: int|
                0 <= k < i ==> queue_row(
                    #[trigger] rows@[k],
                    queue@[k],
                    k,
                    app.now_playing matches Some(np) && np.queue_index == k,
                ),
        decreases queue.len() - i,
    {
        let (artist, title, album, _dur) = extract_song_display(&queue[i]);
        let playing = match playing_idx {
            Some(p) => p == i,
            None => false,
        };
        let marker = if playing {
            with_number("▶", (i + 1) as u64, "")
        } else {
            with_number("", (i + 1) as u64, "")
        };
        proof {
            reveal_strlit("");
            assert(marker@ =~= (if playing {
                "▶"@
            } else {
                ""@
            }) + decimal((i + 1) as nat));
        }
        let cells = vec![marker, artist, title, album];
        rows.push(Row { cells, highlighted: playing, directory: false });
        i = i + 1;
    }
    TableView { title: with_number(" Queue (", queue.len() as u64, ") "), rows }
}

/// The marks of the shuffle and repeat modes.
pub open spec fn mode_marks(shuffle: bool, m: RepeatMode) -> Seq<char> {
    (if shuffle {
        " [S]"@
    } else {
        ""@
    }) + match m {
        RepeatMode::Off => ""@,
        RepeatMode::One => " [R:1]"@,
        RepeatMode::All => " [R:*]"@,
    }
}

fn mode_marks_text(shuffle: bool, m: RepeatMode) -> (s: String)
    ensures
        s@ == mode_marks(shuffle, m),
{
    let a = if shuffle {
        " [S]"
    } else {
        ""
    };
    let b = match m {
        RepeatMode::Off => "",
        RepeatMode::One => " [R:1]",
        RepeatMode::All => " [R:*]",
    };
    cat(a, b)
}

/// The player line: with a track, its artist and title, album, time played and length, and the
/// mode marks; without one, the status and the mode marks.
#[derive(Debug)]
pub struct PlayerView {
    pub playing: bool,
    pub heading: String,
    pub album: String,
    pub time: String,
    pub modes: String,
}

/// The player line for the current state, by the clock at the call.
pub fn player_view(app: &App) -> (v: PlayerView)
    requires
        app.wf(),
    ensures
        v.modes@ == mode_marks(app.shuffle, app.repeat_mode),
        match app.now_playing {
            Some(np) => {
                &&& v.playing
                &&& v.heading@ == np.track.artist@ + " - "@ + np.track.title@
                &&& v.album@ == np.track.album@
                &&& exists|since: Duration, elapsed: Duration|
                    since.wf() && #[trigger] played_after(np.paused_elapsed, since, elapsed) && v.time@ == "  "@
                        + minutes_seconds(elapsed.secs as nat) + " / "@ + minutes_seconds(np.track.duration.secs as nat)
            },
            None => !v.playing && v.heading@ == app.status@ && v.album@.len() == 0 && v.time@.len() == 0,
        },
{
    let modes = mode_marks_text(app.shuffle, app.repeat_mode);
    match &app.now_playing {
        Some(np) => {
            let elapsed = np.elapsed();
            proof {
                let since = choose|since: Duration| since.wf() && #[trigger] played_after(np.paused_elapsed, since, elapsed);
                assert(played_after(np.paused_elapsed, since, elapsed));
            }
            let mut time = cat("  ", format_dur(elapsed).as_str());
            push_str(&mut time, " / ");
            push_str(&mut time, format_dur(np.track.duration).as_str());
            PlayerView {
                playing: true,
                heading: cat3(np.track.artist.as_str(), " - ", np.track.title.as_str()),
                album: np.track.album.clone(),
                time,
                modes,
            }
        },
        None => PlayerView {
            playing: false,
            heading: app.status.clone(),
            album: String::new(),
            time: String::new(),
            modes,
        },
    }
}

/// The labels of the help line for shuffle and repeat.
pub fn help_labels(app: &App) -> (r: (String, String))
    ensures
        r.0@ == on_off(app.shuffle),
        r.1@ == repeat_word(app.repeat_mode),
{
    let s = if app.shuffle {
        "ON"
    } else {
        "off"
    };
    let m = match app.repeat_mode {
        RepeatMode::Off => "off",
        RepeatMode::One => "one",
        RepeatMode::All => "all",
    };
    (s.to_string(), m.to_string())
}

} // verus!
