use synoplayer::api::types::{Playlist, Song, SongAdditional, SongRating, SongTag};
use synoplayer::cli::support::{
    check_smart_filter, download_file_name, entry_search_key, favorite_type_label, file_stem, find_playlist_id,
    is_playlist_id, is_song_id, m3u_playlist_name, next_playlist_index, parse_days, parse_m3u, playlist_start,
    repeat_mode_named, resolve_playlist_id, song_line, rating_in_range, rating_report, playlist_order, import_entries, ImportTally,
};
use synoplayer::duration::Duration;
use synoplayer::player::queue::RepeatMode;
use synoplayer::player::state::TrackInfo;

fn tagged(genre: &str, artist: &str, rating: i32, year: i32) -> Song {
    Song {
        id: "music_5".to_string(),
        title: "t".to_string(),
        path: String::new(),
        additional: Some(SongAdditional {
            song_tag: Some(SongTag {
                title: "Title".to_string(),
                album: "Album".to_string(),
                artist: artist.to_string(),
                album_artist: String::new(),
                composer: String::new(),
                genre: genre.to_string(),
                year,
                track: 0,
                disc: 0,
                comment: String::new(),
            }),
            song_audio: None,
            song_rating: Some(SongRating { rating }),
        }),
    }
}

fn playlist(id: &str, name: &str) -> Playlist {
    Playlist { id: id.to_string(), name: name.to_string(), library: "personal".to_string(), songs_count: None }
}

#[test]
fn ids_are_recognised_by_prefix() {
    assert!(is_song_id("music_42"));
    assert!(!is_song_id("Bohemian Rhapsody"));
    assert!(is_playlist_id("playlist_personal_normal/3"));
    assert!(!is_playlist_id("Road trip"));
}

#[test]
fn playlists_resolve_by_name_ignoring_case() {
    let lists = vec![playlist("p1", "Chill"), playlist("p2", "Road Trip"), playlist("p3", "road trip")];
    assert_eq!(find_playlist_id(&lists, "ROAD TRIP"), Some("p2".to_string()));
    assert_eq!(resolve_playlist_id("playlist_9", &lists).unwrap(), "playlist_9");
    assert_eq!(resolve_playlist_id("nope", &lists).unwrap_err(), "Playlist not found: nope");
}

#[test]
fn smart_filter_rules() {
    let s = tagged("Progressive Rock", "Pink Floyd", 4, 1973);
    assert!(check_smart_filter(&s, Some("rock"), Some("FLOYD"), Some(3), Some(1973)));
    assert!(!check_smart_filter(&s, Some("jazz"), None, None, None));
    assert!(!check_smart_filter(&s, None, None, Some(5), None));
    assert!(!check_smart_filter(&s, None, None, None, Some(1974)));
    let bare = Song { id: "m".to_string(), title: "x".to_string(), path: String::new(), additional: None };
    assert!(check_smart_filter(&bare, None, None, None, None));
    assert!(!check_smart_filter(&bare, None, None, Some(0), None));
}

#[test]
fn file_stems_follow_path_rules() {
    assert_eq!(file_stem("/volume1/music/My List.m3u"), Some("My List".to_string()));
    assert_eq!(file_stem("dir/.hidden"), Some(".hidden".to_string()));
    assert_eq!(file_stem("a/b.tar.gz"), Some("b.tar".to_string()));
    assert_eq!(file_stem("a/b/"), Some("b".to_string()));
    assert_eq!(file_stem("a/.."), None);
    assert_eq!(file_stem("/"), None);
    assert_eq!(m3u_playlist_name("/x/Party.m3u", None), "Party");
    assert_eq!(m3u_playlist_name("/x/Party.m3u", Some("Mine")), "Mine");
    assert_eq!(m3u_playlist_name("/", None), "Imported");
    assert_eq!(entry_search_key("Music/Artist/01 - Song.flac"), "01 - Song");
}

#[test]
fn m3u_parsing_skips_comments_and_blanks() {
    let text = "#EXTM3U\r\n#EXTINF:123,Song\r\n  Music/a.mp3  \r\n\r\nMusic/b.flac\n";
    let entries = parse_m3u(text);
    assert_eq!(entries, vec!["Music/a.mp3".to_string(), "Music/b.flac".to_string()]);
    assert!(parse_m3u("").is_empty());
}

#[test]
fn song_line_shows_rating_stars() {
    let s = tagged("Rock", "Queen", 3, 1975);
    assert_eq!(song_line(&s), "  [music_5] Queen - Title (Album) [0:00] ***");
}

#[test]
fn playlist_playback_positions() {
    assert_eq!(repeat_mode_named("ONE"), RepeatMode::One);
    assert_eq!(repeat_mode_named("All"), RepeatMode::All);
    assert_eq!(repeat_mode_named("x"), RepeatMode::Off);
    assert_eq!(playlist_start(1, false, 5), 0);
    assert_eq!(playlist_start(3, false, 5), 2);
    assert_eq!(playlist_start(9, false, 5), 4);
    assert_eq!(playlist_start(3, true, 5), 0);
    assert_eq!(next_playlist_index(4, 5, RepeatMode::Off), None);
    assert_eq!(next_playlist_index(4, 5, RepeatMode::All), Some(0));
    assert_eq!(next_playlist_index(2, 5, RepeatMode::One), Some(2));
}

#[test]
fn days_parse_with_optional_suffix() {
    assert_eq!(parse_days("30"), Some(30));
    assert_eq!(parse_days("+7"), Some(7));
    assert_eq!(parse_days("4294967295"), Some(u32::MAX));
    assert_eq!(parse_days("4294967296"), None);
    assert_eq!(parse_days("-1"), None);
    assert_eq!(parse_days(""), None);
    assert_eq!(parse_days("+"), None);
    assert_eq!(parse_days("30d"), Some(30));
    assert_eq!(parse_days("d"), None);
    assert_eq!(parse_days("30dd"), None);
    assert_eq!(parse_days("3x"), None);
}

#[test]
fn download_names_and_labels() {
    let t = TrackInfo { id: "m".to_string(), title: "Song".to_string(), artist: String::new(), album: String::new(), duration: Duration::zero() };
    assert_eq!(download_file_name(&t), "Unknown - Song.mp3");
    assert_eq!(favorite_type_label("album"), "Album");
    assert_eq!(favorite_type_label("folder"), "folder");
}

#[test]
fn rating_range_and_report() {
    assert!(rating_in_range(0) && rating_in_range(5));
    assert!(!rating_in_range(-1) && !rating_in_range(6));
    assert_eq!(rating_report("music_1", 0), "Rating cleared for music_1.");
    assert_eq!(rating_report("music_1", 3), "Rating set to *** (3/5) for music_1.");
}

#[test]
fn playlist_order_keeps_songs() {
    let songs: Vec<Song> = (0..20)
        .map(|i| Song { id: format!("s{i}"), title: String::new(), path: String::new(), additional: None })
        .collect();
    let mut same = songs.clone();
    playlist_order(false, &mut same);
    let ids = |v: &Vec<Song>| v.iter().map(|s| s.id.clone()).collect::<Vec<_>>();
    assert_eq!(ids(&same), ids(&songs));
    let mut shuffled = songs.clone();
    playlist_order(true, &mut shuffled);
    let mut a = ids(&shuffled);
    a.sort();
    let mut b = ids(&songs);
    b.sort();
    assert_eq!(a, b);
}

#[test]
fn import_collects_first_hits_in_order() {
    assert!(import_entries("/x/a.m3u", None).unwrap_err().starts_with("Cannot read '/x/a.m3u'"));
    assert_eq!(import_entries("/x/a.m3u", Some("#EXTM3U\n\n")).unwrap_err(), "No entries found in '/x/a.m3u'.");
    let entries = import_entries("/x/a.m3u", Some("#EXTM3U\n a.mp3 \nb.flac\n")).unwrap();
    assert_eq!(entries, vec!["a.mp3", "b.flac"]);
    let song = |id: &str| Song { id: id.to_string(), title: String::new(), path: String::new(), additional: None };
    let mut tally = ImportTally::new();
    tally.add(&vec![song("music_1"), song("music_9")]);
    tally.add(&Vec::new());
    tally.add(&vec![song("music_2")]);
    assert_eq!(tally.missing, 1);
    assert_eq!(tally.result("Mix".to_string()), Ok(("Mix".to_string(), vec!["music_1".to_string(), "music_2".to_string()])));
    let mut none = ImportTally::new();
    none.add(&Vec::new());
    assert_eq!(none.result("Mix".to_string()), Err("No matching songs found in Audio Station.".to_string()));
}
