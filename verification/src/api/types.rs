use vstd::prelude::*;

verus! {

// --- Generic API response wrapper ---

/// The envelope of every Web API response: a success flag, the payload or an error.
#[derive(Debug, Default)]
pub struct ApiResponse<T> {
    pub success: bool,
    pub data: Option<T>,
    pub error: Option<ApiError>,
}

/// The error part of a failed response: the Synology error code.
#[derive(Debug, Default, Clone, Copy, PartialEq, Eq, Structural)]
pub struct ApiError {
    pub code: i32,
}

// --- API Info (discovery) ---

/// Where an API lives and which versions it supports.
#[derive(Debug, Clone)]
pub struct ApiInfo {
    pub path: String,
    pub min_version: i32,
    pub max_version: i32,
}

// --- Auth ---

/// Payload of a successful login.
#[derive(Debug, Default)]
pub struct AuthData {
    pub sid: String,
}

// --- Song ---

/// A song of the library.
#[derive(Debug, Clone)]
pub struct Song {
    pub id: String,
    pub title: String,
    pub path: String,
    pub additional: Option<SongAdditional>,
}

/// Optional extra information about a song.
#[derive(Debug, Clone)]
pub struct SongAdditional {
    pub song_tag: Option<SongTag>,
    pub song_audio: Option<SongAudio>,
    pub song_rating: Option<SongRating>,
}

/// Tag metadata of a song.
#[derive(Debug, Clone)]
pub struct SongTag {
    pub title: String,
    pub album: String,
    pub artist: String,
    pub album_artist: String,
    pub composer: String,
    pub genre: String,
    pub year: i32,
    pub track: i32,
    pub disc: i32,
    pub comment: String,
}

/// Audio properties of a song; `duration` is in seconds.
#[derive(Debug, Clone)]
pub struct SongAudio {
    pub duration: i64,
    pub bitrate: i32,
    pub codec: String,
    pub container: String,
    pub frequency: i32,
    pub channel: i32,
    pub lossless: bool,
    pub filesize: i64,
}

/// The user's rating of a song.
#[derive(Debug, Clone, Copy, PartialEq, Eq, Structural)]
pub struct SongRating {
    pub rating: i32,
}

/// One page of songs.
#[derive(Debug, Default)]
pub struct SongListData {
    pub songs: Vec<Song>,
    pub total: i64,
    pub offset: i64,
}

// --- Album ---

#[derive(Debug, Clone)]
pub struct Album {
    pub name: String,
    pub artist: String,
    pub album_artist: String,
    pub year: i32,
    pub display_artist: String,
}

#[derive(Debug, Default)]
pub struct AlbumListData {
    pub albums: Vec<Album>,
    pub total: i64,
    pub offset: i64,
}

// --- Artist ---

#[derive(Debug, Clone)]
pub struct Artist {
    pub name: String,
}

#[derive(Debug, Default)]
pub struct ArtistListData {
    pub artists: Vec<Artist>,
    pub total: i64,
    pub offset: i64,
}

// --- Playlist ---

#[derive(Debug, Clone)]
pub struct Playlist {
    pub id: String,
    pub name: String,
    pub library: String,
    pub songs_count: Option<i64>,
}

#[derive(Debug, Default)]
pub struct PlaylistListData {
    pub playlists: Vec<Playlist>,
    pub total: i64,
    pub offset: i64,
}

#[derive(Debug, Default)]
pub struct PlaylistDetailData {
    pub playlist: PlaylistDetail,
}

#[derive(Debug, Default)]
pub struct PlaylistDetail {
    pub id: String,
    pub name: String,
    pub songs: Vec<Song>,
}

// --- Genre ---

#[derive(Debug, Clone)]
pub struct Genre {
    pub name: String,
}

#[derive(Debug, Default)]
pub struct GenreListData {
    pub genres: Vec<Genre>,
    pub total: i64,
    pub offset: i64,
}

// --- Composer ---

#[derive(Debug, Clone)]
pub struct Composer {
    pub name: String,
}

#[derive(Debug, Default)]
pub struct ComposerListData {
    pub composers: Vec<Composer>,
    pub total: i64,
    pub offset: i64,
}

// --- Folder ---

/// An entry of a folder listing: a directory or a file.
#[derive(Debug, Clone)]
pub struct Folder {
    pub id: String,
    pub title: String,
    pub is_dir: bool,
}

#[derive(Debug, Default)]
pub struct FolderListData {
    pub items: Vec<Folder>,
    pub total: i64,
    pub offset: i64,
}

// --- Pin (Favorites) ---

#[derive(Debug, Clone)]
pub struct PinItem {
    pub id: String,
    pub title: String,
    pub item_type: String,
}

#[derive(Debug, Default)]
pub struct PinListData {
    pub items: Vec<PinItem>,
}

// --- Search ---

#[derive(Debug, Default)]
pub struct SearchData {
    pub songs: Vec<Song>,
    pub albums: Vec<Album>,
    pub artists: Vec<Artist>,
}

// --- Lyrics ---

#[derive(Debug, Default)]
pub struct LyricsData {
    pub lyrics: String,
}

// --- Radio ---

/// An internet radio station.
#[derive(Debug, Clone)]
pub struct RadioStation {
    pub id: String,
    pub title: String,
    pub url: String,
}

#[derive(Debug, Default)]
pub struct RadioListData {
    pub radios: Vec<RadioStation>,
    pub total: i64,
    pub offset: i64,
}

// --- Audio Station Info ---

#[derive(Debug, Default)]
pub struct AudioStationInfo {
    pub version: String,
    pub is_manager: bool,
}


/// Whether `s` is the song that a folder file entry stands for: same id and title, no path
/// and no extra information.
pub open spec fn is_folder_song(s: Song, f: Folder) -> bool {
    &&& s.id == f.id
    &&& s.title == f.title
    &&& s.path@.len() == 0
    &&& s.additional is None
}

impl Folder {
    /// Whether the entry is a directory.
    pub fn is_directory(&self) -> (b: bool)
        ensures
            b == self.is_dir,
    {
        self.is_dir
    }

    /// The song a file entry stands for: its id and title, without path or extra information.
    pub fn to_song(&self) -> (s: Song)
        ensures
            is_folder_song(s, *self),
    {
        Song { id: self.id.clone(), title: self.title.clone(), path: String::new(), additional: None }
    }
}

impl Playlist {
    /// The number of songs the server reported, zero when it reported none.
    pub fn song_count(&self) -> (n: i64)
        ensures
            n == match self.songs_count {
                Some(c) => c,
                None => 0,
            },
    {
        match self.songs_count {
            Some(c) => c,
            None => 0,
        }
    }
}

impl PlaylistDetail {
    /// The songs of the playlist.
    pub fn all_songs(&self) -> (s: &Vec<Song>)
        ensures
            s@ == self.songs@,
    {
        &self.songs
    }
}

impl PlaylistDetailData {
    /// The playlist the response describes.
    pub fn into_playlist(self) -> (p: Option<PlaylistDetail>)
        ensures
            p == Some(self.playlist),
    {
        Some(self.playlist)
    }
}


impl SongTag {
    /// An equal copy.
    pub fn copy(&self) -> (r: SongTag)
        ensures
            r == *self,
    {
        SongTag {
            title: self.title.clone(),
            album: self.album.clone(),
            artist: self.artist.clone(),
            album_artist: self.album_artist.clone(),
            composer: self.composer.clone(),
            genre: self.genre.clone(),
            year: self.year,
            track: self.track,
            disc: self.disc,
            comment: self.comment.clone(),
        }
    }
}

impl SongAudio {
    /// An equal copy.
    pub fn copy(&self) -> (r: SongAudio)
        ensures
            r == *self,
    {
        SongAudio {
            duration: self.duration,
            bitrate: self.bitrate,
            codec: self.codec.clone(),
            container: self.container.clone(),
            frequency: self.frequency,
            channel: self.channel,
            lossless: self.lossless,
            filesize: self.filesize,
        }
    }
}

impl SongAdditional {
    /// An equal copy.
    pub fn copy(&self) -> (r: SongAdditional)
        ensures
            r == *self,
    {
        SongAdditional {
            song_tag: match &self.song_tag {
                Some(t) => Some(t.copy()),
                None => None,
            },
            song_audio: match &self.song_audio {
                Some(a) => Some(a.copy()),
                None => None,
            },
            song_rating: self.song_rating,
        }
    }
}

impl Song {
    /// An equal copy.
    pub fn copy(&self) -> (r: Song)
        ensures
            r == *self,
    {
        Song {
            id: self.id.clone(),
            title: self.title.clone(),
            path: self.path.clone(),
            additional: match &self.additional {
                Some(a) => Some(a.copy()),
                None => None,
            },
        }
    }
}

/// An equal copy of a list of songs.
pub fn copy_songs(songs: &Vec<Song>) -> (r: Vec<Song>)
    ensures
        r@ == songs@,
{
    let mut r: Vec<Song> = Vec::new();
    let mut i: usize = 0;
    while i < songs.len()
        invariant
            i <= songs@.len(),
            r@ == songs@.take(i as int),
        decreases songs.len() - i,
    {
        r.push(songs[i].copy());
        assert(r@ =~= songs@.take(i + 1));
        i = i + 1;
    }
    assert(songs@.take(songs@.len() as int) =~= songs@);
    r
}

} // verus!
