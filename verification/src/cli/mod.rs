//! The command line: its commands and their actions, and the decisions the commands make.
use vstd::prelude::*;

pub mod support;

verus! {

/// Shells that completion scripts can be written for.
#[derive(Debug, Clone, Copy, PartialEq, Eq, Structural)]
pub enum Shell {
    Bash,
    Elvish,
    Fish,
    PowerShell,
    Zsh,
}

/// The commands of the program.
#[derive(Debug)]
#[allow(inconsistent_fields)]
pub enum Commands {
    /// Login to Synology NAS
    Login { no_save: bool },
    /// Logout from Synology NAS
    Logout,
    /// Clear saved credentials
    Credentials { action: CredentialAction },
    /// Play a song
    Play { target: String },
    /// Pause playback
    Pause,
    /// Resume playback
    Resume,
    /// Stop playback
    Stop,
    /// Next track
    Next,
    /// Previous track
    Prev,
    /// Set volume (0-100)
    Volume { level: u8 },
    /// Show current track
    Now,
    /// Show play queue
    Queue,
    /// List songs
    Songs { album: Option<String>, artist: Option<String>, genre: Option<String>, limit: i64 },
    /// List albums
    Albums { artist: Option<String> },
    /// List artists
    Artists,
    /// List genres
    Genres,
    /// List composers
    Composers,
    /// Browse folders
    Folders { path: Option<String> },
    /// Search music
    Search { keyword: String },
    /// Manage playlists
    Playlist { action: PlaylistAction },
    /// List all playlists
    Playlists,
    /// Rate a song (1-5)
    Rate { song_id: String, rating: i32 },
    /// Add to favorites
    Favorite { song_id: String },
    /// Remove from favorites
    Unfavorite { song_id: String },
    /// List favorites
    Favorites,
    /// Show lyrics
    Lyrics { song_id: Option<String> },
    /// Internet radio
    Radio { action: RadioAction },
    /// Set shuffle mode
    Shuffle { mode: String },
    /// Set repeat mode
    Repeat { mode: String },
    /// Download a track to local file
    Download { song_id: String, output: Option<String> },
    /// View or manage playback history
    History { action: Option<HistoryAction> },
    /// Cache management
    Cache { action: CacheAction },
    /// Configuration management
    Config { action: ConfigAction },
    /// Launch interactive TUI player
    Tui,
    /// Generate shell completion scripts
    Completion { shell: Shell, install: bool },
}

/// What to do with saved credentials.
#[derive(Debug, Clone, Copy, PartialEq, Eq, Structural)]
pub enum CredentialAction {
    /// Clear saved credentials
    Clear,
}

/// What to do with playlists.
#[derive(Debug)]
#[allow(inconsistent_fields)]
pub enum PlaylistAction {
    /// Show playlist contents
    Show { name: String },
    /// Create a new playlist
    Create { name: String },
    /// Delete a playlist
    Delete { name: String },
    /// Rename a playlist
    Rename { name: String, new_name: String },
    /// Add a song to a playlist
    Add { playlist: String, song_id: String },
    /// Remove a song from a playlist
    Remove { playlist: String, song_id: String },
    /// Play entire playlist sequentially, from track `from` (1-based)
    Play { name: String, from: usize, shuffle: bool, repeat: String },
    /// Import a .m3u playlist file from NAS filesystem
    Import { path: String, name: Option<String> },
    /// Create a smart playlist with filter rules
    Smart {
        name: String,
        genre: Option<String>,
        artist: Option<String>,
        min_rating: Option<i32>,
        year: Option<i32>,
        limit: i64,
    },
}

/// What to do with internet radio.
#[derive(Debug)]
pub enum RadioAction {
    /// List radio stations
    List,
    /// Play a radio station
    Play { station: String },
    /// Add a radio station
    Add { name: String, url: String },
}

/// What to do with the playback history.
#[derive(Debug, Clone, Copy, PartialEq, Eq, Structural)]
pub enum HistoryAction {
    /// Clear playback history
    Clear,
}

/// What to do with the cache.
#[derive(Debug)]
pub enum CacheAction {
    /// Show cache status
    Status,
    /// Clear cache, or only entries older than a number of days
    Clear { older: Option<String> },
    /// Preload a playlist
    Preload { playlist: String },
    /// List cached tracks
    List,
}

/// What to do with the configuration.
#[derive(Debug)]
pub enum ConfigAction {
    /// Set server address
    SetServer { host: String },
    /// Set server port
    SetPort { port: u16 },
    /// Show current config
    Show,
}

} // verus!
