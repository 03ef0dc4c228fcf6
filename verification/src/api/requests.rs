//! The calls of the Audio Station APIs, and the decisions made on their answers. Sending a
//! call and reading its answer is the caller's work.
use vstd::prelude::*;

use crate::api::client::{api_path, same_params, ApiCall, SynoClient};
use crate::api::types::{RadioStation, Song, SongListData, Playlist};
use crate::error::{Result, SynoError};
use crate::text::{push_str, same_ignoring_ascii_case, signed_decimal, signed_string, str_equal, eq_ignore_ascii_case};
use crate::tui::handler::{cat, cat3};

verus! {

/// Whether a call is the given one.
pub open spec fn call_is(c: ApiCall, api: Seq<char>, version: i32, method: Seq<char>, params: Seq<(Seq<char>, Seq<char>)>) -> bool {
    &&& c.api@ == api
    &&& c.version == version
    &&& c.method@ == method
    &&& same_params(c.params@, params)
}

fn make_call(api: &str, version: i32, method: &str, params: Vec<(String, String)>) -> (c: ApiCall)
    ensures
        c.api@ == api@,
        c.version == version,
        c.method@ == method@,
        c.params == params,
{
    ApiCall { api: api.to_string(), version, method: method.to_string(), params }
}

fn pair(a: &str, b: &str) -> (p: (String, String))
    ensures
        p.0@ == a@,
        p.1@ == b@,
{
    (a.to_string(), b.to_string())
}

/// `offset` and `limit` as parameters.
fn page(offset: i64, limit: i64) -> (v: Vec<(String, String)>)
    ensures
        same_params(v@, seq![("offset"@, signed_decimal(offset as int)), ("limit"@, signed_decimal(limit as int))]),
{
    let v = vec![("offset".to_string(), signed_string(offset)), ("limit".to_string(), signed_string(limit))];
    v
}

/// The extra information asked for songs.
pub open spec fn song_extras() -> Seq<char> {
    "song_tag,song_audio,song_rating"@
}

/// Listing albums.
pub struct AlbumApi;

impl AlbumApi {
    pub fn list(offset: i64, limit: i64) -> (c: ApiCall)
        ensures
            call_is(c, "SYNO.AudioStation.Album"@, 3, "list"@, seq![("offset"@, signed_decimal(offset as int)), ("limit"@, signed_decimal(limit as int))]),
    {
        make_call("SYNO.AudioStation.Album", 3, "list", page(offset, limit))
    }
}

/// Listing artists.
pub struct ArtistApi;

impl ArtistApi {
    pub fn list(offset: i64, limit: i64) -> (c: ApiCall)
        ensures
            call_is(c, "SYNO.AudioStation.Artist"@, 4, "list"@, seq![("offset"@, signed_decimal(offset as int)), ("limit"@, signed_decimal(limit as int))]),
    {
        make_call("SYNO.AudioStation.Artist", 4, "list", page(offset, limit))
    }
}

/// Listing composers.
pub struct ComposerApi;

impl ComposerApi {
    pub fn list(offset: i64, limit: i64) -> (c: ApiCall)
        ensures
            call_is(c, "SYNO.AudioStation.Composer"@, 2, "list"@, seq![("offset"@, signed_decimal(offset as int)), ("limit"@, signed_decimal(limit as int))]),
    {
        make_call("SYNO.AudioStation.Composer", 2, "list", page(offset, limit))
    }
}

/// Listing genres.
pub struct GenreApi;

impl GenreApi {
    pub fn list(offset: i64, limit: i64) -> (c: ApiCall)
        ensures
            call_is(c, "SYNO.AudioStation.Genre"@, 3, "list"@, seq![("offset"@, signed_decimal(offset as int)), ("limit"@, signed_decimal(limit as int))]),
    {
        make_call("SYNO.AudioStation.Genre", 3, "list", page(offset, limit))
    }
}

/// Reading and writing lyrics.
pub struct LyricsApi;

impl LyricsApi {
    pub fn get(song_id: &str) -> (c: ApiCall)
        ensures
            call_is(c, "SYNO.AudioStation.Lyrics"@, 2, "getlyrics"@, seq![("id"@, song_id@)]),
    {
        make_call("SYNO.AudioStation.Lyrics", 2, "getlyrics", vec![pair("id", song_id)])
    }

    pub fn set(song_id: &str, lyrics: &str) -> (c: ApiCall)
        ensures
            call_is(c, "SYNO.AudioStation.Lyrics"@, 2, "setlyrics"@, seq![("id"@, song_id@), ("lyrics"@, lyrics@)]),
    {
        make_call("SYNO.AudioStation.Lyrics", 2, "setlyrics", vec![pair("id", song_id), pair("lyrics", lyrics)])
    }
}

/// Pinned items.
pub struct PinApi;

impl PinApi {
    pub fn list() -> (c: ApiCall)
        ensures
            call_is(c, "SYNO.AudioStation.Pin"@, 1, "list"@, seq![("limit"@, "200"@)]),
    {
        make_call("SYNO.AudioStation.Pin", 1, "list", vec![pair("limit", "200")])
    }

    pub fn pin(id: &str) -> (c: ApiCall)
        ensures
            call_is(c, "SYNO.AudioStation.Pin"@, 1, "pin"@, seq![("id"@, id@)]),
    {
        make_call("SYNO.AudioStation.Pin", 1, "pin", vec![pair("id", id)])
    }

    pub fn unpin(id: &str) -> (c: ApiCall)
        ensures
            call_is(c, "SYNO.AudioStation.Pin"@, 1, "unpin"@, seq![("id"@, id@)]),
    {
        make_call("SYNO.AudioStation.Pin", 1, "unpin", vec![pair("id", id)])
    }
}

/// Searching the library.
pub struct SearchApi;

impl SearchApi {
    pub fn search(keyword: &str, offset: i64, limit: i64) -> (c: ApiCall)
        ensures
            call_is(c, "SYNO.AudioStation.Search"@, 1, "list"@, seq![
                ("keyword"@, keyword@),
                ("offset"@, signed_decimal(offset as int)),
                ("limit"@, signed_decimal(limit as int)),
                ("additional"@, song_extras()),
            ]),
    {
        let params = vec![
            pair("keyword", keyword),
            ("offset".to_string(), signed_string(offset)),
            ("limit".to_string(), signed_string(limit)),
            pair("additional", "song_tag,song_audio,song_rating"),
        ];
        make_call("SYNO.AudioStation.Search", 1, "list", params)
    }
}

/// Browsing folders.
pub struct FolderApi;

impl FolderApi {
    /// List a folder's entries sorted by title; the root where `id` is `None`.
    pub fn list(id: Option<&str>, offset: i64, limit: i64) -> (c: ApiCall)
        ensures
            call_is(c, "SYNO.AudioStation.Folder"@, 3, "list"@, seq![
                ("offset"@, signed_decimal(offset as int)),
                ("limit"@, signed_decimal(limit as int)),
                ("sort_by"@, "title"@),
                ("sort_direction"@, "asc"@),
                ("additional"@, song_extras()),
            ] + match id {
                Some(f) => seq![("id"@, f@)],
                None => Seq::empty(),
            }),
    {
        let mut params = vec![
            ("offset".to_string(), signed_string(offset)),
            ("limit".to_string(), signed_string(limit)),
            pair("sort_by", "title"),
            pair("sort_direction", "asc"),
            pair("additional", "song_tag,song_audio,song_rating"),
        ];
        match id {
            Some(f) => params.push(pair("id", f)),
            None => {},
        }
        make_call("SYNO.AudioStation.Folder", 3, "list", params)
    }
}

/// Internet radio stations.
pub struct RadioApi;

/// The position of the first station whose id is the reference or whose title matches it
/// (ASCII case ignored).
pub open spec fn first_station(radios: Seq<RadioStation>, name_or_id: Seq<char>) -> Option<int> {
    if exists|k: int| 0 <= k < radios.len() && station_matches(#[trigger] radios[k], name_or_id) {
        Some(
            choose|k: int|
                0 <= k < radios.len() && station_matches(#[trigger] radios[k], name_or_id) && forall|j: int|
                    0 <= j < k ==> !station_matches(#[trigger] radios[j], name_or_id),
        )
    } else {
        None
    }
}

/// Whether a station is the one a reference names: by id, or by title ignoring ASCII case.
pub open spec fn station_matches(r: RadioStation, name_or_id: Seq<char>) -> bool {
    r.id@ == name_or_id || same_ignoring_ascii_case(r.title@, name_or_id)
}

impl RadioApi {
    pub fn list(offset: i64, limit: i64) -> (c: ApiCall)
        ensures
            call_is(c, "SYNO.AudioStation.Radio"@, 2, "list"@, seq![("offset"@, signed_decimal(offset as int)), ("limit"@, signed_decimal(limit as int))]),
    {
        make_call("SYNO.AudioStation.Radio", 2, "list", page(offset, limit))
    }

    pub fn add(title: &str, url: &str) -> (c: ApiCall)
        ensures
            call_is(c, "SYNO.AudioStation.Radio"@, 2, "add"@, seq![("title"@, title@), ("url"@, url@)]),
    {
        make_call("SYNO.AudioStation.Radio", 2, "add", vec![pair("title", title), pair("url", url)])
    }

    /// The first station named by id or title (ASCII case ignored) among those listed.
    pub fn find(radios: Vec<RadioStation>, name_or_id: &str) -> (r: Option<RadioStation>)
        ensures
            match first_station(radios@, name_or_id@) {
                Some(k) => r == Some(radios@[k]),
                None => r is None,
            },
    {
        let ghost all = radios@;
        let mut rest = radios;
        let mut i: usize = 0;
        let n = rest.len();
        while i < n
            invariant
                n == all.len(),
                i <= n,
                rest@ == all,
                all == radios@,
                forall|j: int| 0 <= j < i ==> !station_matches(#[trigger] all[j], name_or_id@),
            decreases n - i,
        {
            if str_equal(rest[i].id.as_str(), name_or_id) || eq_ignore_ascii_case(rest[i].title.as_str(), name_or_id) {
                proof {
                    assert(station_matches(all[i as int], name_or_id@));
                    assert(exists|k: int| 0 <= k < all.len() && station_matches(#[trigger] all[k], name_or_id@));
                    assert(forall|j: int| 0 <= j < i ==> !station_matches(#[trigger] all[j], name_or_id@));
                    let k = choose|k: int|
                        0 <= k < all.len() && station_matches(#[trigger] all[k], name_or_id@) && forall|j: int|
                            0 <= j < k ==> !station_matches(#[trigger] all[j], name_or_id@);
                    if k > i {
                        assert(!station_matches(all[i as int], name_or_id@));
                    }
                    if k < i {
                        assert(!station_matches(all[k], name_or_id@));
                    }
                    assert(k == i);
                    assert(first_station(all, name_or_id@) == Some(i as int));
                }
                return Some(rest.swap_remove(i));
            }
            i = i + 1;
        }
        None
    }
}

/// Songs of the library.
pub struct SongApi;

impl SongApi {
    pub fn list(offset: i64, limit: i64) -> (c: ApiCall)
        ensures
            call_is(c, "SYNO.AudioStation.Song"@, 3, "list"@, seq![
                ("offset"@, signed_decimal(offset as int)),
                ("limit"@, signed_decimal(limit as int)),
                ("additional"@, song_extras()),
            ]),
    {
        let params = vec![
            ("offset".to_string(), signed_string(offset)),
            ("limit".to_string(), signed_string(limit)),
            pair("additional", "song_tag,song_audio,song_rating"),
        ];
        make_call("SYNO.AudioStation.Song", 3, "list", params)
    }

    /// List songs, filtered by artist, album and genre where given.
    pub fn list_filtered(offset: i64, limit: i64, artist: Option<&str>, album: Option<&str>, genre: Option<&str>) -> (c: ApiCall)
        ensures
            call_is(c, "SYNO.AudioStation.Song"@, 3, "list"@, seq![
                ("offset"@, signed_decimal(offset as int)),
                ("limit"@, signed_decimal(limit as int)),
                ("additional"@, song_extras()),
            ] + match artist {
                Some(a) => seq![("artist"@, a@)],
                None => Seq::empty(),
            } + match album {
                Some(a) => seq![("album"@, a@)],
                None => Seq::empty(),
            } + match genre {
                Some(g) => seq![("genre"@, g@)],
                None => Seq::empty(),
            }),
    {
        let mut params = vec![
            ("offset".to_string(), signed_string(offset)),
            ("limit".to_string(), signed_string(limit)),
            pair("additional", "song_tag,song_audio,song_rating"),
        ];
        match artist {
            Some(a) => params.push(pair("artist", a)),
            None => {},
        }
        match album {
            Some(a) => params.push(pair("album", a)),
            None => {},
        }
        match genre {
            Some(g) => params.push(pair("genre", g)),
            None => {},
        }
        make_call("SYNO.AudioStation.Song", 3, "list", params)
    }

    pub fn search(keyword: &str, offset: i64, limit: i64) -> (c: ApiCall)
        ensures
            call_is(c, "SYNO.AudioStation.Song"@, 3, "search"@, seq![
                ("keyword"@, keyword@),
                ("offset"@, signed_decimal(offset as int)),
                ("limit"@, signed_decimal(limit as int)),
                ("additional"@, song_extras()),
            ]),
    {
        let params = vec![
            pair("keyword", keyword),
            ("offset".to_string(), signed_string(offset)),
            ("limit".to_string(), signed_string(limit)),
            pair("additional", "song_tag,song_audio,song_rating"),
        ];
        make_call("SYNO.AudioStation.Song", 3, "search", params)
    }

    pub fn get_info(id: &str) -> (c: ApiCall)
        ensures
            call_is(c, "SYNO.AudioStation.Song"@, 3, "getinfo"@, seq![("id"@, id@), ("additional"@, song_extras())]),
    {
        make_call("SYNO.AudioStation.Song", 3, "getinfo", vec![pair("id", id), pair("additional", "song_tag,song_audio,song_rating")])
    }

    /// The song an information call answered with: the first listed, else an error.
    pub fn song_from_info(data: SongListData, id: &str) -> (r: Result<Song>)
        ensures
            data.songs@.len() > 0 ==> r == Ok::<Song, SynoError>(data.songs@[0]),
            data.songs@.len() == 0 ==> (r matches Err(SynoError::Api { code, message }) && code == 100
                && message@ == "Song not found: "@ + id@),
    {
        let mut songs = data.songs;
        if songs.len() > 0 {
            Ok(songs.swap_remove(0))
        } else {
            Err(SynoError::Api { code: 100, message: cat("Song not found: ", id) })
        }
    }

    pub fn set_rating(id: &str, rating: i32) -> (c: ApiCall)
        ensures
            call_is(c, "SYNO.AudioStation.Song"@, 2, "setrating"@, seq![("id"@, id@), ("rating"@, signed_decimal(rating as int))]),
    {
        make_call("SYNO.AudioStation.Song", 2, "setrating", vec![pair("id", id), ("rating".to_string(), signed_string(rating as i64))])
    }
}

/// The ids of songs joined by commas.
pub open spec fn joined_ids(ids: Seq<Seq<char>>) -> Seq<char>
    decreases ids.len(),
{
    if ids.len() == 0 {
        Seq::empty()
    } else if ids.len() == 1 {
        ids[0]
    } else {
        joined_ids(ids.drop_last()) + ","@ + ids.last()
    }
}

/// Playlists.
pub struct PlaylistApi;

impl PlaylistApi {
    pub fn list(offset: i64, limit: i64) -> (c: ApiCall)
        ensures
            call_is(c, "SYNO.AudioStation.Playlist"@, 3, "list"@, seq![("offset"@, signed_decimal(offset as int)), ("limit"@, signed_decimal(limit as int))]),
    {
        make_call("SYNO.AudioStation.Playlist", 3, "list", page(offset, limit))
    }

    pub fn get_info(id: &str) -> (c: ApiCall)
        ensures
            call_is(c, "SYNO.AudioStation.Playlist"@, 3, "getinfo"@, seq![("id"@, id@), ("additional"@, song_extras())]),
    {
        make_call("SYNO.AudioStation.Playlist", 3, "getinfo", vec![pair("id", id), pair("additional", "song_tag,song_audio,song_rating")])
    }

    pub fn create(name: &str, library: &str) -> (c: ApiCall)
        ensures
            call_is(c, "SYNO.AudioStation.Playlist"@, 3, "create"@, seq![("name"@, name@), ("library"@, library@)]),
    {
        make_call("SYNO.AudioStation.Playlist", 3, "create", vec![pair("name", name), pair("library", library)])
    }

    pub fn delete(id: &str) -> (c: ApiCall)
        ensures
            call_is(c, "SYNO.AudioStation.Playlist"@, 3, "delete"@, seq![("id"@, id@)]),
    {
        make_call("SYNO.AudioStation.Playlist", 3, "delete", vec![pair("id", id)])
    }

    pub fn rename(id: &str, new_name: &str) -> (c: ApiCall)
        ensures
            call_is(c, "SYNO.AudioStation.Playlist"@, 3, "rename"@, seq![("id"@, id@), ("new_name"@, new_name@)]),
    {
        make_call("SYNO.AudioStation.Playlist", 3, "rename", vec![pair("id", id), pair("new_name", new_name)])
    }

    /// Replace a playlist's songs by the given ids, in order.
    pub fn update_songs(id: &str, song_ids: &Vec<String>) -> (c: ApiCall)
        ensures
            call_is(c, "SYNO.AudioStation.Playlist"@, 3, "updatesongs"@, seq![
                ("id"@, id@),
                ("songs"@, joined_ids(song_ids@.map_values(|s: String| s@))),
            ]),
    {
        let mut songs = String::new();
        let mut i: usize = 0;
        while i < song_ids.len()
            invariant
                i <= song_ids@.len(),
                songs@ == joined_ids(song_ids@.take(i as int).map_values(|s: String| s@)),
            decreases song_ids.len() - i,
        {
            proof {
                let t = song_ids@.take(i + 1).map_values(|s: String| s@);
                assert(t.drop_last() =~= song_ids@.take(i as int).map_values(|s: String| s@));
            }
            if i > 0 {
                push_str(&mut songs, ",");
            } else {
                assert(Seq::<char>::empty() + song_ids@[0]@ =~= song_ids@[0]@);
            }
            push_str(&mut songs, song_ids[i].as_str());
            i = i + 1;
        }
        assert(song_ids@.take(song_ids@.len() as int) =~= song_ids@);
        make_call("SYNO.AudioStation.Playlist", 3, "updatesongs", vec![pair("id", id), ("songs".to_string(), songs)])
    }
}

/// Logging in and out, and finding the APIs.
pub struct AuthApi;

impl AuthApi {
    /// The call that lists every API and where it lives.
    pub fn discover() -> (c: ApiCall)
        ensures
            call_is(c, "SYNO.API.Info"@, 1, "query"@, seq![("query"@, "all"@)]),
    {
        make_call("SYNO.API.Info", 1, "query", vec![pair("query", "all")])
    }

    /// The call that logs in for Audio Station with a session id.
    pub fn login(username: &str, password: &str) -> (c: ApiCall)
        ensures
            call_is(c, "SYNO.API.Auth"@, 6, "login"@, seq![
                ("account"@, username@),
                ("passwd"@, password@),
                ("session"@, "AudioStation"@),
                ("format"@, "sid"@),
            ]),
    {
        let params = vec![pair("account", username), pair("passwd", password), pair("session", "AudioStation"), pair("format", "sid")];
        make_call("SYNO.API.Auth", 6, "login", params)
    }

    /// A login succeeded: keep the session id and the credentials for logging in again.
    pub fn logged_in(client: &mut SynoClient, sid: String, username: &str, password: &str)
        ensures
            final(client).sid == Some(sid),
            final(client).credentials matches Some((u, p)) && u@ == username@ && p@ == password@,
            final(client).base_url == old(client).base_url,
            final(client).api_paths == old(client).api_paths,
    {
        client.set_sid(sid);
        client.set_credentials(username.to_string(), password.to_string());
    }

    /// The credentials to log in again with after a call failed: those kept by the client,
    /// when the failure is an expired session (Synology codes 106 and 119); else `None`.
    pub fn relogin_credentials(client: &SynoClient, error: &SynoError) -> (r: Option<(String, String)>)
        ensures
            (*error is SessionExpired && client.credentials is Some) ==> (r matches Some((u, p))
                && client.credentials matches Some((cu, cp)) && u@ == cu@ && p@ == cp@),
            !(*error is SessionExpired && client.credentials is Some) ==> r is None,
    {
        if !error.is_session_expired() {
            return None;
        }
        match &client.credentials {
            Some((u, p)) => Some((u.clone(), p.clone())),
            None => None,
        }
    }

    /// The call that logs out, when logged in.
    pub fn logout(client: &SynoClient) -> (c: Option<ApiCall>)
        ensures
            client.sid is None ==> c is None,
            client.sid is Some ==> (c matches Some(call) && call_is(call, "SYNO.API.Auth"@, 6, "logout"@, seq![("session"@, "AudioStation"@)])),
    {
        if client.is_authenticated() {
            Some(make_call("SYNO.API.Auth", 6, "logout", vec![pair("session", "AudioStation")]))
        } else {
            None
        }
    }
}

/// The address of a media resource of an API: the API's URL, then `tail`, the song id and the
/// session id; an unknown API or a missing session is an error.
pub open spec fn media_address(client: SynoClient, api: Seq<char>, tail: Seq<char>, song_id: Seq<char>, r: Result<String>) -> bool {
    match api_path(client.api_paths@, api) {
        None => r matches Err(SynoError::Api { code, message }) && code == 102 && message@ == "Unknown API: "@ + api
            + ". Run API discovery first."@,
        Some(p) => match client.sid {
            None => r matches Err(SynoError::NotAuthenticated),
            Some(s) => r matches Ok(u) && u@ == client.base_url@ + "/webapi/"@ + p + tail + song_id + "&_sid="@ + s@,
        },
    }
}

fn media_url(client: &SynoClient, api: &str, tail: &str, song_id: &str) -> (r: Result<String>)
    ensures
        media_address(*client, api@, tail@, song_id@, r),
{
    let base = match client.build_url(api) {
        Ok(b) => b,
        Err(e) => return Err(e),
    };
    let sid = match client.sid() {
        Some(s) => s,
        None => return Err(SynoError::NotAuthenticated),
    };
    let mut u = cat(base.as_str(), tail);
    push_str(&mut u, song_id);
    push_str(&mut u, "&_sid=");
    push_str(&mut u, sid);
    Ok(u)
}

/// Audio streams.
pub struct StreamApi;

impl StreamApi {
    /// The URL that streams a song.
    pub fn stream_url(client: &SynoClient, song_id: &str) -> (r: Result<String>)
        ensures
            media_address(*client, "SYNO.AudioStation.Stream"@, "/0.mp3?api=SYNO.AudioStation.Stream&version=2&method=stream&id="@, song_id@, r),
    {
        media_url(client, "SYNO.AudioStation.Stream", "/0.mp3?api=SYNO.AudioStation.Stream&version=2&method=stream&id=", song_id)
    }

    /// The URL that streams a song transcoded.
    pub fn transcode_url(client: &SynoClient, song_id: &str) -> (r: Result<String>)
        ensures
            media_address(*client, "SYNO.AudioStation.Stream"@, "/0.mp3?api=SYNO.AudioStation.Stream&version=2&method=transcode&id="@, song_id@, r),
    {
        media_url(client, "SYNO.AudioStation.Stream", "/0.mp3?api=SYNO.AudioStation.Stream&version=2&method=transcode&id=", song_id)
    }
}

/// Cover art.
pub struct CoverApi;

impl CoverApi {
    /// The URL of a song's cover image.
    pub fn song_cover_url(client: &SynoClient, song_id: &str) -> (r: Result<String>)
        ensures
            media_address(*client, "SYNO.AudioStation.Cover"@, "?api=SYNO.AudioStation.Cover&version=3&method=getsongcover&id="@, song_id@, r),
    {
        media_url(client, "SYNO.AudioStation.Cover", "?api=SYNO.AudioStation.Cover&version=3&method=getsongcover&id=", song_id)
    }
}


/// The ids of songs, in order.
pub open spec fn song_ids(songs: Seq<Song>) -> Seq<Seq<char>> {
    songs.map_values(|s: Song| s.id@)
}

/// The ids of the songs whose id differs from the given one, in order.
pub open spec fn ids_without(songs: Seq<Song>, id: Seq<char>) -> Seq<Seq<char>>
    decreases songs.len(),
{
    if songs.len() == 0 {
        Seq::empty()
    } else if songs.last().id@ != id {
        ids_without(songs.drop_last(), id).push(songs.last().id@)
    } else {
        ids_without(songs.drop_last(), id)
    }
}

/// Removing a favourite keeps every other song: the ids left are the songs' ids, in order,
/// with exactly those equal to the removed id filtered out.
pub proof fn lemma_remove_keeps_others(songs: Seq<Song>, id: Seq<char>)
    ensures
        ids_without(songs, id) == songs.map_values(|s: Song| s.id@).filter(|x: Seq<char>| x != id),
    decreases songs.len(),
{
    reveal(Seq::filter);
    if songs.len() > 0 {
        lemma_remove_keeps_others(songs.drop_last(), id);
        assert(songs.map_values(|s: Song| s.id@).drop_last() =~= songs.drop_last().map_values(|s: Song| s.id@));
    } else {
        assert(songs.map_values(|s: Song| s.id@) =~= Seq::<Seq<char>>::empty());
    }
}

/// The position of the first playlist with exactly the given name.
pub open spec fn first_exact(playlists: Seq<Playlist>, name: Seq<char>) -> Option<int> {
    if exists|k: int| 0 <= k < playlists.len() && (#[trigger] playlists[k]).name@ == name {
        Some(
            choose|k: int|
                0 <= k < playlists.len() && (#[trigger] playlists[k]).name@ == name && forall|j: int|
                    0 <= j < k ==> (#[trigger] playlists[j]).name@ != name,
        )
    } else {
        None
    }
}

/// Favourites kept as a playlist of the given name (the Pin API cannot pin single songs).
#[derive(Debug)]
pub struct FavoritesApi {
    pub playlist_name: String,
}

impl FavoritesApi {
    pub fn new(playlist_name: &str) -> (f: Self)
        ensures
            f.playlist_name@ == playlist_name@,
    {
        FavoritesApi { playlist_name: playlist_name.to_string() }
    }

    /// The id of the favourites playlist among the playlists listed (personal, then shared).
    pub fn find_playlist_id(&self, playlists: &Vec<Playlist>) -> (r: Option<String>)
        ensures
            match first_exact(playlists@, self.playlist_name@) {
                Some(k) => r == Some(playlists@[k].id),
                None => r is None,
            },
    {
        let mut i: usize = 0;
        while i < playlists.len()
            invariant
                i <= playlists@.len(),
                forall|j: int| 0 <= j < i ==> (#[trigger] playlists@[j]).name@ != self.playlist_name@,
            decreases playlists.len() - i,
        {
            if str_equal(playlists[i].name.as_str(), self.playlist_name.as_str()) {
                proof {
                    let k = choose|k: int|
                        0 <= k < playlists@.len() && (#[trigger] playlists@[k]).name@ == self.playlist_name@
                            && forall|j: int| 0 <= j < k ==> (#[trigger] playlists@[j]).name@ != self.playlist_name@;
                    if k > i {
                        assert(playlists@[i as int].name@ != self.playlist_name@);
                    }
                    if k < i {
                        assert(playlists@[k].name@ != self.playlist_name@);
                    }
                }
                return Some(playlists[i].id.clone());
            }
            i = i + 1;
        }
        None
    }

    /// Whether a song is among the favourites' songs.
    pub fn contains(songs: &Vec<Song>, song_id: &str) -> (b: bool)
        ensures
            b == song_ids(songs@).contains(song_id@),
    {
        let mut i: usize = 0;
        while i < songs.len()
            invariant
                i <= songs@.len(),
                forall|j: int| 0 <= j < i ==> (#[trigger] songs@[j]).id@ != song_id@,
            decreases songs.len() - i,
        {
            if str_equal(songs[i].id.as_str(), song_id) {
                assert(song_ids(songs@)[i as int] == song_id@);
                return true;
            }
            i = i + 1;
        }
        proof {
            if song_ids(songs@).contains(song_id@) {
                let k = choose|k: int| 0 <= k < song_ids(songs@).len() && song_ids(songs@)[k] == song_id@;
                assert(songs@[k].id@ != song_id@);
            }
        }
        false
    }

    /// The song ids the favourites playlist holds after adding a song: `None` when it is
    /// there already, else its ids with the song's last.
    pub fn ids_after_add(songs: &Vec<Song>, song_id: &str) -> (r: Option<Vec<String>>)
        ensures
            song_ids(songs@).contains(song_id@) ==> r is None,
            !song_ids(songs@).contains(song_id@) ==> (r matches Some(ids) && ids@.map_values(|s: String| s@)
                == song_ids(songs@).push(song_id@)),
    {
        if Self::contains(songs, song_id) {
            return None;
        }
        let mut ids: Vec<String> = Vec::new();
        let mut i: usize = 0;
        while i < songs.len()
            invariant
                i <= songs@.len(),
                ids@.len() == i,
                ids@.map_values(|s: String| s@) == song_ids(songs@.take(i as int)),
            decreases songs.len() - i,
        {
            let ghost before = ids@;
            ids.push(songs[i].id.clone());
            proof {
                let m = ids@.map_values(|s: String| s@);
                let t = song_ids(songs@.take(i + 1));
                assert forall|k: int| 0 <= k < m.len() implies m[k] == t[k] by {
                    if k < i {
                        assert(ids@[k] == before[k]);
                        assert(before.map_values(|s: String| s@)[k] == song_ids(songs@.take(i as int))[k]);
                    }
                }
                assert(m =~= t);
            }
            i = i + 1;
        }
        assert(songs@.take(songs@.len() as int) =~= songs@);
        let ghost before = ids@;
        ids.push(song_id.to_string());
        proof {
            let m = ids@.map_values(|s: String| s@);
            let t = song_ids(songs@).push(song_id@);
            assert forall|k: int| 0 <= k < m.len() implies m[k] == t[k] by {
                if k < before.len() {
                    assert(ids@[k] == before[k]);
                    assert(before.map_values(|s: String| s@)[k] == song_ids(songs@)[k]);
                }
            }
            assert(m =~= t);
        }
        Some(ids)
    }

    /// The song ids the favourites playlist holds after removing a song.
    pub fn ids_after_remove(songs: &Vec<Song>, song_id: &str) -> (ids: Vec<String>)
        ensures
            ids@.map_values(|s: String| s@) == ids_without(songs@, song_id@),
    {
        let mut ids: Vec<String> = Vec::new();
        let mut i: usize = 0;
        while i < songs.len()
            invariant
                i <= songs@.len(),
                ids@.map_values(|s: String| s@) == ids_without(songs@.take(i as int), song_id@),
            decreases songs.len() - i,
        {
            assert(songs@.take(i + 1).drop_last() =~= songs@.take(i as int));
            if !str_equal(songs[i].id.as_str(), song_id) {
                let ghost before = ids@;
                ids.push(songs[i].id.clone());
                proof {
                    let m = ids@.map_values(|s: String| s@);
                    let t = ids_without(songs@.take(i + 1), song_id@);
                    assert forall|k: int| 0 <= k < m.len() implies m[k] == t[k] by {
                        if k < before.len() {
                            assert(ids@[k] == before[k]);
                            assert(before.map_values(|s: String| s@)[k] == ids_without(songs@.take(i as int), song_id@)[k]);
                        }
                    }
                    assert(m =~= t);
                }
            }
            i = i + 1;
        }
        assert(songs@.take(songs@.len() as int) =~= songs@);
        ids
    }

    /// The error when the favourites playlist cannot be read back.
    pub fn playlist_missing() -> (e: SynoError)
        ensures
            e matches SynoError::Api { code, message } && code == 0 && message@ == "Playlist not found"@,
    {
        SynoError::Api { code: 0, message: "Playlist not found".to_string() }
    }

    /// The error when the favourites playlist cannot be found after creating it.
    pub fn creation_failed() -> (e: SynoError)
        ensures
            e matches SynoError::Player(m) && m@ == "Failed to create favorites playlist"@,
    {
        SynoError::Player("Failed to create favorites playlist".to_string())
    }
}


/// After adding a song, the favourites hold it; after removing it, they do not.
pub proof fn lemma_favorite_add_remove(songs: Seq<Song>, id: Seq<char>)
    ensures
        song_ids(songs).push(id).contains(id),
        !ids_without(songs, id).contains(id),
    decreases songs.len(),
{
    assert(song_ids(songs).push(id)[songs.len() as int] == id);
    if songs.len() > 0 {
        lemma_favorite_add_remove(songs.drop_last(), id);
        let rest = ids_without(songs.drop_last(), id);
        if songs.last().id@ != id {
            assert forall|k: int| 0 <= k < rest.push(songs.last().id@).len() implies rest.push(songs.last().id@)[k] != id by {
                if k < rest.len() {
                    assert(!rest.contains(id));
                    assert(rest[k] != id);
                }
            }
        }
    }
}

} // verus!
