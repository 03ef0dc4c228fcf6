use vstd::prelude::*;

use crate::platform::{join, join_path};
use crate::text::{decimal, push_decimal};

verus! {

/// The whole configuration file.
#[derive(Debug, Clone, PartialEq)]
pub struct AppConfig {
    pub server: ServerConfig,
    pub auth: AuthConfig,
    pub player: PlayerConfig,
    pub cache: CacheConfig,
    pub display: DisplayConfig,
}

/// Where the NAS is reached.
#[derive(Debug, Clone, PartialEq)]
pub struct ServerConfig {
    pub host: String,
    pub port: u16,
    pub https: bool,
    pub verify_ssl: bool,
    pub quickconnect_id: String,
}

/// Who logs in and where the credentials are kept.
#[derive(Debug, Clone, PartialEq)]
pub struct AuthConfig {
    pub username: String,
    pub credential_store: String,
}

/// Playback settings.
#[derive(Debug, Clone, PartialEq)]
pub struct PlayerConfig {
    pub default_volume: u8,
    pub output_device: String,
    pub buffer_size_kb: u32,
    pub favorites_playlist: String,
}

/// Audio cache settings; `path` is the cache directory.
#[derive(Debug, Clone, PartialEq)]
pub struct CacheConfig {
    pub enabled: bool,
    pub path: String,
    pub max_size_mb: u64,
    pub ttl_days: u32,
    pub cache_on_play: bool,
    pub preload_playlist: bool,
    pub transcode_before_cache: bool,
    pub verify_integrity: bool,
}

/// Display settings.
#[derive(Debug, Clone, PartialEq)]
pub struct DisplayConfig {
    pub show_lyrics: bool,
    pub show_cover: bool,
}

// --- Defaults ---

fn default_favorites_playlist() -> (s: String)
    ensures
        s@ == "Favorites"@,
{
    "Favorites".to_string()
}

fn default_host() -> (s: String)
    ensures
        s@ == "localhost"@,
{
    "localhost".to_string()
}

fn default_port() -> (p: u16)
    ensures
        p == 5001,
{
    5001
}

fn default_true() -> (b: bool)
    ensures
        b,
{
    true
}

fn default_credential_store() -> (s: String)
    ensures
        s@ == "keyring"@,
{
    "keyring".to_string()
}

fn default_volume() -> (v: u8)
    ensures
        v == 80,
{
    80
}

fn default_buffer_size() -> (n: u32)
    ensures
        n == 256,
{
    256
}

/// The cache directory used when the configuration names none: `synoplayer/audio` under the
/// user's cache directory, or under `/tmp` where there is none.
pub open spec fn cache_path_under(dir: Option<String>) -> Seq<char> {
    join_path(
        match dir {
            Some(d) => d@,
            None => "/tmp"@,
        },
        "synoplayer/audio"@,
    )
}

fn default_cache_path() -> (p: String)
    ensures
        exists|dir: Option<String>| p@ == cache_path_under(dir),
{
    let dir = crate::platform::cache_dir();
    let p = match &dir {
        Some(d) => join(d.as_str(), "synoplayer/audio"),
        None => join("/tmp", "synoplayer/audio"),
    };
    assert(p@ == cache_path_under(dir));
    p
}

fn default_max_size() -> (n: u64)
    ensures
        n == 2048,
{
    2048
}

fn default_ttl() -> (n: u32)
    ensures
        n == 30,
{
    30
}

impl Default for ServerConfig {
    fn default() -> (c: Self)
        ensures
            c.host@ == "localhost"@,
            c.port == 5001,
            c.https,
            c.verify_ssl,
            c.quickconnect_id@ == Seq::<char>::empty(),
    {
        ServerConfig {
            host: default_host(),
            port: default_port(),
            https: true,
            verify_ssl: true,
            quickconnect_id: String::new(),
        }
    }
}

impl Default for AuthConfig {
    fn default() -> (c: Self)
        ensures
            c.username@ == Seq::<char>::empty(),
            c.credential_store@ == "keyring"@,
    {
        AuthConfig { username: String::new(), credential_store: default_credential_store() }
    }
}

impl Default for PlayerConfig {
    fn default() -> (c: Self)
        ensures
            c.default_volume == 80,
            c.output_device@ == Seq::<char>::empty(),
            c.buffer_size_kb == 256,
            c.favorites_playlist@ == "Favorites"@,
    {
        PlayerConfig {
            default_volume: default_volume(),
            output_device: String::new(),
            buffer_size_kb: default_buffer_size(),
            favorites_playlist: default_favorites_playlist(),
        }
    }
}

impl Default for CacheConfig {
    fn default() -> (c: Self)
        ensures
            c.enabled,
            exists|dir: Option<String>| c.path@ == cache_path_under(dir),
            c.max_size_mb == 2048,
            c.ttl_days == 30,
            c.cache_on_play,
            !c.preload_playlist,
            !c.transcode_before_cache,
            c.verify_integrity,
    {
        CacheConfig {
            enabled: default_true(),
            path: default_cache_path(),
            max_size_mb: default_max_size(),
            ttl_days: default_ttl(),
            cache_on_play: true,
            preload_playlist: false,
            transcode_before_cache: false,
            verify_integrity: true,
        }
    }
}

impl Default for DisplayConfig {
    fn default() -> (c: Self)
        ensures
            !c.show_lyrics,
            !c.show_cover,
    {
        DisplayConfig { show_lyrics: false, show_cover: false }
    }
}

impl Default for AppConfig {
    fn default() -> (c: Self)
        ensures
            c.server.host@ == "localhost"@,
            c.server.port == 5001,
            c.server.https,
            c.server.verify_ssl,
            c.auth.credential_store@ == "keyring"@,
            c.player.default_volume == 80,
            c.cache.enabled,
            c.cache.max_size_mb == 2048,
            c.cache.ttl_days == 30,
            !c.display.show_lyrics,
    {
        AppConfig {
            server: ServerConfig::default(),
            auth: AuthConfig::default(),
            player: PlayerConfig::default(),
            cache: CacheConfig::default(),
            display: DisplayConfig::default(),
        }
    }
}

/// The base URL of the Web API for a server configuration.
pub open spec fn spec_base_url(server: ServerConfig) -> Seq<char> {
    (if server.https { "https"@ } else { "http"@ }) + "://"@ + server.host@ + ":"@ + decimal(
        server.port as nat,
    )
}

/// A file `name` in the `synoplayer` directory under the configuration directory, or
/// under the current directory where there is none.
pub open spec fn config_file_under(dir: Option<String>, name: Seq<char>) -> Seq<char> {
    join_path(
        match dir {
            Some(d) => d@,
            None => "."@,
        },
        "synoplayer/"@ + name,
    )
}

impl AppConfig {
    /// Build the base URL for the Synology API.
    pub fn base_url(&self) -> (u: String)
        ensures
            u@ == spec_base_url(self.server),
    {
        let mut u = if self.server.https {
            "https".to_string()
        } else {
            "http".to_string()
        };
        u.append("://");
        u.append(self.server.host.as_str());
        u.append(":");
        push_decimal(&mut u, self.server.port as u64);
        u
    }

    /// Path to the config file.
    pub fn config_path() -> (p: String)
        ensures
            exists|dir: Option<String>| p@ == config_file_under(dir, "config.toml"@),
    {
        let dir = crate::platform::config_dir();
        let p = match &dir {
            Some(d) => join(d.as_str(), "synoplayer/config.toml"),
            None => join(".", "synoplayer/config.toml"),
        };
        proof {
            reveal_strlit("synoplayer/config.toml");
            reveal_strlit("synoplayer/");
            reveal_strlit("config.toml");
            assert("synoplayer/config.toml"@ =~= "synoplayer/"@ + "config.toml"@);
        }
        assert(p@ == config_file_under(dir, "config.toml"@));
        p
    }

    /// Path to session file.
    pub fn session_path() -> (p: String)
        ensures
            exists|dir: Option<String>| p@ == config_file_under(dir, "session.json"@),
    {
        let dir = crate::platform::config_dir();
        let p = match &dir {
            Some(d) => join(d.as_str(), "synoplayer/session.json"),
            None => join(".", "synoplayer/session.json"),
        };
        proof {
            reveal_strlit("synoplayer/session.json");
            reveal_strlit("synoplayer/");
            reveal_strlit("session.json");
            assert("synoplayer/session.json"@ =~= "synoplayer/"@ + "session.json"@);
        }
        assert(p@ == config_file_under(dir, "session.json"@));
        p
    }
}

} // verus!
