//! Shared playback utilities used by both CLI and TUI composition roots.
use vstd::prelude::*;

use crate::api::client::SynoClient;
use crate::api::requests::{media_address, StreamApi};
use crate::api::types::Song;
use crate::cache::manager::CacheManager;
use crate::cache::storage::{audio_ext, id_hash, listed, with_ext, DirEntry};
use crate::error::Result;
use crate::history::HistoryEntry;
use crate::platform::join_path;
use crate::duration::Duration;
use crate::player::state::TrackInfo;
use crate::text::{decimal, pad2, push_decimal, push_pad2};

verus! {

/// Title, artist and album of a cached song.
#[derive(Debug, Clone, Default)]
pub struct SongMeta {
    pub title: String,
    pub artist: String,
    pub album: String,
}

/// The title shown for a song: the tag title when the song has a non-empty one, else the
/// song's own title.
pub open spec fn display_title(song: Song) -> Seq<char> {
    match song.additional {
        Some(add) => match add.song_tag {
            Some(tag) => if tag.title@.len() > 0 {
                tag.title@
            } else {
                song.title@
            },
            None => song.title@,
        },
        None => song.title@,
    }
}

/// The tag artist of a song, empty when it has no tag.
pub open spec fn tag_artist(song: Song) -> Seq<char> {
    match song.additional {
        Some(add) => match add.song_tag {
            Some(tag) => tag.artist@,
            None => Seq::empty(),
        },
        None => Seq::empty(),
    }
}

/// The tag album of a song, empty when it has no tag.
pub open spec fn tag_album(song: Song) -> Seq<char> {
    match song.additional {
        Some(add) => match add.song_tag {
            Some(tag) => tag.album@,
            None => Seq::empty(),
        },
        None => Seq::empty(),
    }
}

/// The length of a song in seconds as a duration; zero without audio information. Negative
/// lengths wrap as the unsigned cast does.
pub open spec fn audio_seconds(song: Song) -> u64 {
    match song.additional {
        Some(add) => match add.song_audio {
            Some(audio) => audio.duration as u64,
            None => 0,
        },
        None => 0,
    }
}

/// Build TrackInfo from a Song's metadata.
pub fn track_from_song(song: &Song) -> (t: TrackInfo)
    ensures
        t.id == song.id,
        t.title@ == display_title(*song),
        t.artist@ == tag_artist(*song),
        t.album@ == tag_album(*song),
        t.duration == Duration::from_secs_spec(audio_seconds(*song)),
{
    let (title, artist, album, duration) = match &song.additional {
        Some(add) => {
            let title = match &add.song_tag {
                Some(tag) => if !tag.title.as_str().is_empty() {
                    tag.title.clone()
                } else {
                    song.title.clone()
                },
                None => song.title.clone(),
            };
            let artist = match &add.song_tag {
                Some(tag) => tag.artist.clone(),
                None => String::new(),
            };
            let album = match &add.song_tag {
                Some(tag) => tag.album.clone(),
                None => String::new(),
            };
            let duration = match &add.song_audio {
                Some(audio) => Duration::from_secs(audio.duration as u64),
                None => Duration::zero(),
            };
            (title, artist, album, duration)
        },
        None => (song.title.clone(), String::new(), String::new(), Duration::zero()),
    };
    TrackInfo { id: song.id.clone(), title, artist, album, duration }
}

/// Extract SongMeta from a Song for caching: the tag title (even when empty), artist and
/// album, or the song's own title when it has no tag.
pub fn song_meta_from_song(song: &Song) -> (m: SongMeta)
    ensures
        m.title@ == (match song.additional {
            Some(add) => match add.song_tag {
                Some(tag) => tag.title@,
                None => song.title@,
            },
            None => song.title@,
        }),
        m.artist@ == tag_artist(*song),
        m.album@ == tag_album(*song),
{
    match &song.additional {
        Some(add) => match &add.song_tag {
            Some(tag) => SongMeta {
                title: tag.title.clone(),
                artist: tag.artist.clone(),
                album: tag.album.clone(),
            },
            None => SongMeta { title: song.title.clone(), artist: String::new(), album: String::new() },
        },
        None => SongMeta { title: song.title.clone(), artist: String::new(), album: String::new() },
    }
}

/// Build a TrackInfo for offline playback from the cache metadata of `song_id`, if any:
/// an empty or missing title becomes the song id, an empty or missing artist `Unknown`.
pub fn track_from_cache(entry: Option<SongMeta>, song_id: &str) -> (t: TrackInfo)
    ensures
        t.id@ == song_id@,
        t.title@ == (match entry {
            Some(e) => if e.title@.len() > 0 {
                e.title@
            } else {
                song_id@
            },
            None => song_id@,
        }),
        t.artist@ == (match entry {
            Some(e) => if e.artist@.len() > 0 {
                e.artist@
            } else {
                "Unknown"@
            },
            None => "Unknown"@,
        }),
        t.album@ == (match entry {
            Some(e) => e.album@,
            None => Seq::<char>::empty(),
        }),
        t.duration == Duration::spec_zero(),
{
    match entry {
        Some(e) => TrackInfo {
            id: song_id.to_string(),
            title: if e.title.as_str().is_empty() {
                song_id.to_string()
            } else {
                e.title
            },
            artist: if e.artist.as_str().is_empty() {
                "Unknown".to_string()
            } else {
                e.artist
            },
            album: e.album,
            duration: Duration::zero(),
        },
        None => TrackInfo {
            id: song_id.to_string(),
            title: song_id.to_string(),
            artist: "Unknown".to_string(),
            album: String::new(),
            duration: Duration::zero(),
        },
    }
}

/// `M:SS` for a number of seconds.
pub open spec fn minutes_seconds(secs: nat) -> Seq<char> {
    decimal(secs / 60) + seq![':'] + pad2(secs % 60)
}

/// Format a duration as M:SS.
pub fn format_duration(d: Duration) -> (s: String)
    ensures
        s@ == minutes_seconds(d.secs as nat),
{
    let secs = d.as_secs();
    let mut s = String::new();
    push_decimal(&mut s, secs / 60);
    crate::util::push_char(&mut s, ':');
    push_pad2(&mut s, secs % 60);
    assert(Seq::<char>::empty() + decimal((secs / 60) as nat) == decimal((secs / 60) as nat));
    s
}


/// Where to play a song from.
#[derive(Debug)]
pub enum SourcePlan {
    /// The cached file at this path (touch its access time first).
    Cached(String),
    /// Stream from this URL; when `download` is set, first try to download it into the cache
    /// (at `cache_path`) and play the file instead, falling back to the URL on failure.
    Stream { url: String, download: bool, cache_path: String },
}

impl SourcePlan {
    /// What to play once the plan was carried out: the cached file; for a stream, the cache
    /// file when it was to be downloaded and storing it succeeded, else the stream URL.
    pub fn source(self, stored: bool) -> (s: String)
        ensures
            match self {
                SourcePlan::Cached(p) => s == p,
                SourcePlan::Stream { url, download, cache_path } => s == if download && stored {
                    cache_path
                } else {
                    url
                },
            },
    {
        match self {
            SourcePlan::Cached(p) => p,
            SourcePlan::Stream { url, download, cache_path } => if download && stored {
                cache_path
            } else {
                url
            },
        }
    }
}

/// Decide where to play a song from: the cache when it holds the song (by a listing of the
/// cache directory), else its stream URL, downloading it into the cache first when the cache
/// is on and caches what plays.
pub fn resolve_audio_source(client: &SynoClient, song: &Song, cache: &CacheManager, listing: &Vec<DirEntry>) -> (r: Result<SourcePlan>)
    ensures
        cache.config.enabled && listed(listing@, with_ext(id_hash(song.id@), audio_ext())) ==> (r matches Ok(
            SourcePlan::Cached(p),
        ) && p@ == join_path(cache.storage.base_path@, with_ext(id_hash(song.id@), audio_ext()))),
        !(cache.config.enabled && listed(listing@, with_ext(id_hash(song.id@), audio_ext()))) ==> {
            &&& media_address(
                *client,
                "SYNO.AudioStation.Stream"@,
                "/0.mp3?api=SYNO.AudioStation.Stream&version=2&method=stream&id="@,
                song.id@,
                match r {
                    Ok(SourcePlan::Stream { url, .. }) => Ok(url),
                    Ok(SourcePlan::Cached(p)) => Ok(p),
                    Err(e) => Err(e),
                },
            )
            &&& r matches Ok(plan) ==> (plan matches SourcePlan::Stream { download, cache_path, .. } && download
                == (cache.config.enabled && cache.config.cache_on_play) && cache_path@ == join_path(
                cache.storage.base_path@,
                with_ext(id_hash(song.id@), audio_ext()),
            ))
        },
{
    if cache.contains(song.id.as_str(), listing) {
        return Ok(SourcePlan::Cached(cache.file_path(song.id.as_str())));
    }
    let url = match StreamApi::stream_url(client, song.id.as_str()) {
        Ok(u) => u,
        Err(e) => return Err(e),
    };
    let download = cache.config.enabled && cache.config.cache_on_play;
    Ok(SourcePlan::Stream { url, download, cache_path: cache.file_path(song.id.as_str()) })
}

/// The current time in RFC 3339 form, from `chrono::Utc::now().to_rfc3339()`. It reads the
/// system clock, so nothing is stated of the text.
#[verifier::external_body]
fn now_rfc3339() -> String {
    chrono::Utc::now().to_rfc3339()
}

/// The history entry that records a track as played now.
pub fn record_history(track: &TrackInfo) -> (e: HistoryEntry)
    ensures
        e.song_id == track.id,
        e.title == track.title,
        e.artist == track.artist,
        e.album == track.album,
{
    HistoryEntry {
        song_id: track.id.clone(),
        title: track.title.clone(),
        artist: track.artist.clone(),
        album: track.album.clone(),
        played_at: now_rfc3339(),
    }
}

} // verus!
