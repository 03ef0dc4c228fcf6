use synoplayer::api::types::{Folder, Playlist, Song};
use synoplayer::ipc::protocol::{IpcData, IpcRequest};
use synoplayer::player::queue::RepeatMode;
use synoplayer::tui::app::{App, StatefulList, Tab};
use synoplayer::tui::handler::{handle_ipc, handle_key, ipc_reply, Effect, FolderScan, IpcPending, Key};
use synoplayer::tui::view::{folders_table, queue_table, songs_table};

fn song(id: &str) -> Song {
    Song { id: id.to_string(), title: format!("Song {id}"), path: String::new(), additional: None }
}

fn folder(id: &str, dir: bool) -> Folder {
    Folder { id: id.to_string(), title: format!("T{id}"), is_dir: dir }
}

#[test]
fn stateful_list_next_previous() {
    let mut list = StatefulList::with_items(vec![song("a"), song("b"), song("c")]);
    assert_eq!(list.selected(), Some(0));
    list.next();
    assert_eq!(list.selected(), Some(1));
    list.next();
    assert_eq!(list.selected(), Some(2));
    list.next();
    assert_eq!(list.selected(), Some(2));
    list.previous();
    assert_eq!(list.selected(), Some(1));
    list.previous();
    assert_eq!(list.selected(), Some(0));
    list.previous();
    assert_eq!(list.selected(), Some(0));
}

#[test]
fn stateful_list_empty() {
    let mut list: StatefulList<Song> = StatefulList::empty();
    assert_eq!(list.selected(), None);
    assert!(list.selected_item().is_none());
    list.next();
    list.previous();
    assert_eq!(list.selected(), None);
}

#[test]
fn stateful_list_page_navigation() {
    let items: Vec<Song> = (0..20).map(|i| song(&format!("{i}"))).collect();
    let mut list = StatefulList::with_items(items);
    list.page_down(10);
    assert_eq!(list.selected(), Some(10));
    list.page_down(10);
    assert_eq!(list.selected(), Some(19));
    list.page_up(5);
    assert_eq!(list.selected(), Some(14));
    list.page_up(100);
    assert_eq!(list.selected(), Some(0));
}

#[test]
fn tab_switching() {
    let mut app = App::new();
    assert_eq!(app.active_tab, Tab::Library);
    app.next_tab();
    assert_eq!(app.active_tab, Tab::Folders);
    app.next_tab();
    assert_eq!(app.active_tab, Tab::Playlists);
    app.next_tab();
    assert_eq!(app.active_tab, Tab::Queue);
    app.next_tab();
    assert_eq!(app.active_tab, Tab::Library);
    app.prev_tab();
    assert_eq!(app.active_tab, Tab::Queue);
}

#[test]
fn tab_labels_and_indices() {
    assert_eq!(Tab::Library.label(), "Library");
    assert_eq!(Tab::Queue.label(), "Queue");
    assert_eq!(Tab::Playlists.index(), 2);
    assert_eq!(Tab::all().len(), 4);
}

#[test]
fn enter_on_library_plays_from_selection_and_shows_queue() {
    let mut app = App::new();
    app.songs = StatefulList::with_items(vec![song("a"), song("b"), song("c")]);
    app.songs.next();
    let e = handle_key(&mut app, Key::Enter);
    match e {
        Effect::Play { index, show_queue, .. } => {
            assert_eq!(index, 1);
            assert!(show_queue);
        }
        other => panic!("unexpected effect {other:?}"),
    }
    assert_eq!(app.queue.len(), 3);
    assert_eq!(app.status, "Loading:  - Song b...");
    app.play_started(1, true);
    assert_eq!(app.active_tab, Tab::Queue);
    assert_eq!(app.status, "Playing [2/3]");
    assert_eq!(app.now_playing.as_ref().unwrap().queue_index, 1);
}

#[test]
fn skip_next_wraps_with_repeat_all_and_finishes_without() {
    let mut app = App::new();
    app.play_and_show_queue(vec![song("a"), song("b")], 1);
    app.play_started(1, true);
    let e = handle_key(&mut app, Key::Char('n'));
    assert!(matches!(e, Effect::Nothing));
    assert!(app.now_playing.is_none());
    assert_eq!(app.status, "Queue finished.");

    app.play_started(1, false);
    app.repeat_mode = RepeatMode::All;
    let e = handle_key(&mut app, Key::Char('n'));
    assert!(matches!(e, Effect::Play { index: 0, .. }));
}

#[test]
fn advance_repeats_one_track() {
    let mut app = App::new();
    app.play_and_show_queue(vec![song("a"), song("b")], 0);
    app.play_started(0, true);
    app.repeat_mode = RepeatMode::One;
    let e = app.on_tick(Ok(true));
    assert!(matches!(e, Effect::Play { index: 0, clear_on_error: true, .. }));
    let e = app.on_tick(Err("boom".to_string()));
    assert!(matches!(e, Effect::StopPlayer));
    assert_eq!(app.status, "Player error: boom");
    assert!(app.now_playing.is_none());
}

#[test]
fn repeat_cycles_and_volume_clamps() {
    let mut app = App::new();
    handle_key(&mut app, Key::Char('r'));
    assert_eq!(app.repeat_mode, RepeatMode::All);
    assert_eq!(app.status, "Repeat: all");
    handle_key(&mut app, Key::Char('r'));
    assert_eq!(app.repeat_mode, RepeatMode::One);
    handle_key(&mut app, Key::Char('r'));
    assert_eq!(app.repeat_mode, RepeatMode::Off);
    app.volume = 98;
    handle_key(&mut app, Key::Char('+'));
    assert_eq!(app.volume, 100);
    assert_eq!(app.status, "Volume: 100%");
    app.volume = 3;
    handle_key(&mut app, Key::Char('-'));
    assert_eq!(app.volume, 0);
}

#[test]
fn quit_stops_playback() {
    let mut app = App::new();
    let e = handle_key(&mut app, Key::Char('q'));
    assert!(matches!(e, Effect::StopPlayer));
    assert!(!app.running);
    assert_eq!(app.status, "Stopped.");
}

#[test]
fn insert_marks_directories_and_space_scans_them() {
    let mut app = App::new();
    app.active_tab = Tab::Folders;
    app.folder_loaded(vec![folder("d1", true), folder("f1", false), folder("d2", true)]);
    assert_eq!(app.status, "Loaded 3 items");
    handle_key(&mut app, Key::Insert);
    assert_eq!(app.status, "1 folders selected");
    assert_eq!(app.folders.selected(), Some(1));
    handle_key(&mut app, Key::Insert);
    assert_eq!(app.selected_folders, vec![0]);
    handle_key(&mut app, Key::Down);
    handle_key(&mut app, Key::Insert);
    assert_eq!(app.selected_folders, vec![0, 2]);
    let e = handle_key(&mut app, Key::Char(' '));
    assert_eq!(app.status, "Scanning 2 folders...");
    let scan = match e {
        Effect::Scan(s) => s,
        other => panic!("unexpected effect {other:?}"),
    };
    assert_eq!(scan.next_folder(), Some("d1".to_string()));
    let e = app.folders_scanned(Vec::new(), None);
    assert!(matches!(e, Effect::Nothing));
    assert!(app.selected_folders.is_empty());
    assert_eq!(app.status, "No audio files in selected folders");
}

#[test]
fn folder_scan_walks_depth_first() {
    let mut scan = FolderScan::new(vec!["root".to_string()], Some("Root".to_string()));
    assert_eq!(scan.next_folder(), Some("root".to_string()));
    scan.on_listing(vec![folder("s1", false), folder("sub", true), folder("s2", false)]);
    assert_eq!(scan.next_folder(), Some("sub".to_string()));
    scan.on_listing(vec![folder("s3", false)]);
    assert_eq!(scan.next_folder(), None);
    let ids: Vec<&str> = scan.songs.iter().map(|s| s.id.as_str()).collect();
    assert_eq!(ids, vec!["s1", "s2", "s3"]);
}

#[test]
fn escape_leaves_folder() {
    let mut app = App::new();
    app.active_tab = Tab::Folders;
    app.folder_stack = vec![("a".to_string(), "A".to_string()), ("b".to_string(), "B".to_string())];
    let e = handle_key(&mut app, Key::Esc);
    assert!(matches!(e, Effect::LoadFolder { folder_id: Some(ref id) } if id == "a"));
    assert_eq!(app.folder_stack.len(), 1);
}

#[test]
fn playlist_open_and_favorite_toggle() {
    let mut app = App::new();
    app.active_tab = Tab::Playlists;
    app.playlists = StatefulList::with_items(vec![Playlist {
        id: "playlist_1".to_string(),
        name: "Mix".to_string(),
        library: "personal".to_string(),
        songs_count: Some(2),
    }]);
    let e = handle_key(&mut app, Key::Enter);
    assert!(matches!(e, Effect::FetchPlaylist { play: false, .. }));
    assert_eq!(app.status, "Loading playlist 'Mix'...");
    app.playlist_fetched("Mix", Some(vec![song("x"), song("y")]), false);
    assert_eq!(app.status, "Playlist 'Mix' — 2 songs");
    assert_eq!(app.playlist_detail.as_ref().unwrap().songs.items.len(), 2);

    let e = handle_key(&mut app, Key::Char('f'));
    assert!(matches!(e, Effect::Nothing));
    assert_eq!(app.status, "Nothing is playing");
    app.play_and_show_queue(vec![song("x")], 0);
    app.play_started(0, true);
    let e = handle_key(&mut app, Key::Char('f'));
    assert!(matches!(e, Effect::ToggleFavorite { add: true, .. }));
    app.favorite_toggled("x", true, Some(song("x")));
    assert_eq!(app.status, "Added to favorites: x");
    let e = handle_key(&mut app, Key::Char('f'));
    assert!(matches!(e, Effect::ToggleFavorite { add: false, .. }));
    app.favorite_toggled("x", false, None);
    assert!(app.songs.items.is_empty());
}

#[test]
fn ipc_requests_answer() {
    let mut app = App::new();
    let (_, p) = handle_ipc(&mut app, IpcRequest::Pause);
    match p {
        IpcPending::Ready(r) => {
            assert!(!r.ok);
            assert_eq!(r.message, "Nothing is playing");
        }
        _ => panic!("expected a ready answer"),
    }
    let (e, p) = handle_ipc(&mut app, IpcRequest::Volume { level: 150 });
    assert!(matches!(e, Effect::SetVolume(100)));
    assert!(matches!(p, IpcPending::Ready(ref r) if r.message == "Volume set to 100%"));
    app.play_and_show_queue(vec![song("a"), song("b")], 0);
    app.play_started(0, true);
    let (_, p) = handle_ipc(&mut app, IpcRequest::Queue);
    match p {
        IpcPending::Ready(r) => {
            assert_eq!(r.message, "2 tracks in queue");
            assert!(matches!(r.data, Some(IpcData::QueueList { current_index: 0, .. })));
        }
        _ => panic!("expected a ready answer"),
    }
    let (e, p) = handle_ipc(&mut app, IpcRequest::Next);
    assert!(matches!(e, Effect::Play { index: 1, report_error: false, .. }));
    app.play_started(1, false);
    let r = ipc_reply(&app, p, Ok(()));
    assert_eq!(r.message, "[2/2]  - Song b");
    let (_, p) = handle_ipc(&mut app, IpcRequest::Repeat { mode: "one".to_string() });
    assert!(matches!(p, IpcPending::Ready(ref r) if r.message == "Repeat: one"));
    assert_eq!(app.repeat_mode, RepeatMode::One);
}

#[test]
fn tables_show_what_plays() {
    let mut app = App::new();
    app.songs = StatefulList::with_items(vec![song("a"), song("b")]);
    app.play_and_show_queue(vec![song("a"), song("b")], 1);
    app.play_started(1, true);
    let t = songs_table(&app);
    assert_eq!(t.title, " Songs (2) ");
    assert_eq!(t.rows[1].cells[0], "▶ ");
    assert!(t.rows[1].highlighted && !t.rows[0].highlighted);
    let q = queue_table(&app);
    assert_eq!(q.title, " Queue (2) ");
    assert_eq!(q.rows[1].cells[0], "▶2");
    assert_eq!(q.rows[0].cells[0], "1");
    app.folder_stack = vec![("1".to_string(), "Music".to_string()), ("2".to_string(), "Rock".to_string())];
    app.folders = StatefulList::with_items(vec![folder("d", true)]);
    let f = folders_table(&app);
    assert_eq!(f.title, " /Music/Rock (1) ");
    assert_eq!(f.rows[0].cells[0], "[DIR]");
}

#[test]
fn volume_steps_undo_each_other() {
    let mut app = App::new();
    assert_eq!(app.volume, 80);
    app.volume_up();
    assert_eq!(app.volume, 85);
    assert_eq!(app.status, "Volume: 85%");
    app.volume_down();
    assert_eq!(app.volume, 80);
    app.volume = 98;
    app.volume_up();
    assert_eq!(app.volume, 100);
    app.volume = 3;
    app.volume_down();
    assert_eq!(app.volume, 0);
    assert!(matches!(handle_key(&mut app, Key::Char('+')), Effect::Nothing));
    assert_eq!(app.volume, 5);
    assert!(matches!(handle_key(&mut app, Key::Char('-')), Effect::Nothing));
    assert_eq!(app.volume, 0);
}

#[test]
fn defaults_match_new() {
    let app = App::default();
    assert!(app.running);
    assert_eq!(app.active_tab, Tab::Library);
    assert_eq!(app.status, "Ready");
    let list: StatefulList<Song> = StatefulList::default();
    assert!(list.items.is_empty());
    assert_eq!(list.selected(), None);
}
