use synoplayer::api::types::{Song, SongAdditional, SongAudio, SongRating, SongTag};
use synoplayer::duration::Duration;
use synoplayer::playback::{format_duration, song_meta_from_song, track_from_cache, track_from_song, SongMeta, SourcePlan};

fn tagged_song() -> Song {
    Song {
        id: "music_1".to_string(),
        title: "fallback".to_string(),
        path: String::new(),
        additional: Some(SongAdditional {
            song_tag: Some(SongTag {
                title: "Real Title".to_string(),
                artist: "Artist".to_string(),
                album: "Album".to_string(),
                album_artist: String::new(),
                composer: String::new(),
                genre: String::new(),
                year: 2024,
                track: 1,
                disc: 1,
                comment: String::new(),
            }),
            song_audio: Some(SongAudio {
                duration: 240,
                bitrate: 320,
                codec: "mp3".to_string(),
                container: String::new(),
                frequency: 44100,
                channel: 2,
                lossless: false,
                filesize: 0,
            }),
            song_rating: None,
        }),
    }
}

#[test]
fn format_duration_zero() {
    assert_eq!(format_duration(Duration::zero()), "0:00");
}

#[test]
fn format_duration_minutes_seconds() {
    assert_eq!(format_duration(Duration::from_secs(185)), "3:05");
    assert_eq!(format_duration(Duration::from_secs(60)), "1:00");
    assert_eq!(format_duration(Duration::from_secs(3661)), "61:01");
}

#[test]
fn track_from_song_with_metadata() {
    let song = tagged_song();
    let track = track_from_song(&song);
    assert_eq!(track.id, "music_1");
    assert_eq!(track.title, "Real Title");
    assert_eq!(track.artist, "Artist");
    assert_eq!(track.album, "Album");
    assert_eq!(track.duration, Duration::from_secs(240));
}

#[test]
fn track_from_song_without_additional() {
    let song = Song {
        id: "music_2".to_string(),
        title: "Basic Song".to_string(),
        path: String::new(),
        additional: None,
    };
    let track = track_from_song(&song);
    assert_eq!(track.title, "Basic Song");
    assert!(track.artist.is_empty());
    assert_eq!(track.duration, Duration::zero());
}

#[test]
fn song_meta_extracts_tag_fields() {
    let song = Song {
        id: "music_3".to_string(),
        title: "fallback".to_string(),
        path: String::new(),
        additional: Some(SongAdditional {
            song_tag: Some(SongTag {
                title: "Tagged".to_string(),
                artist: "Art".to_string(),
                album: "Alb".to_string(),
                album_artist: String::new(),
                composer: String::new(),
                genre: String::new(),
                year: 0,
                track: 0,
                disc: 0,
                comment: String::new(),
            }),
            song_audio: None,
            song_rating: None,
        }),
    };
    let meta = song_meta_from_song(&song);
    assert_eq!(meta.title, "Tagged");
    assert_eq!(meta.artist, "Art");
    assert_eq!(meta.album, "Alb");
}

#[test]
fn track_from_song_uses_song_title_when_tag_title_empty() {
    let mut song = tagged_song();
    if let Some(add) = song.additional.as_mut() {
        if let Some(tag) = add.song_tag.as_mut() {
            tag.title = String::new();
        }
        add.song_rating = Some(SongRating { rating: 3 });
    }
    let track = track_from_song(&song);
    assert_eq!(track.title, "fallback");
    assert_eq!(track.artist, "Artist");
}

#[test]
fn track_from_cache_fills_missing_fields() {
    let t = track_from_cache(None, "music_9");
    assert_eq!(t.id, "music_9");
    assert_eq!(t.title, "music_9");
    assert_eq!(t.artist, "Unknown");
    let meta = SongMeta { title: "T".to_string(), artist: String::new(), album: "A".to_string() };
    let t = track_from_cache(Some(meta), "music_9");
    assert_eq!(t.title, "T");
    assert_eq!(t.artist, "Unknown");
    assert_eq!(t.album, "A");
}

#[test]
fn format_duration_pads_single_digit_seconds() {
    assert_eq!(format_duration(Duration::from_secs(9)), "0:09");
    assert_eq!(format_duration(Duration::new(70, 999_999_999)), "1:10");
}

#[test]
fn source_falls_back_to_stream() {
    let plan = || SourcePlan::Stream { url: "http://u".to_string(), download: true, cache_path: "/c/x.audio".to_string() };
    assert_eq!(plan().source(true), "/c/x.audio");
    assert_eq!(plan().source(false), "http://u");
    let no_download = SourcePlan::Stream { url: "http://u".to_string(), download: false, cache_path: "/c/x.audio".to_string() };
    assert_eq!(no_download.source(true), "http://u");
    assert_eq!(SourcePlan::Cached("/c/y.audio".to_string()).source(false), "/c/y.audio");
}
