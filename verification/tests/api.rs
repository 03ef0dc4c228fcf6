use synoplayer::api::client::SynoClient;
use synoplayer::api::requests::{AuthApi, FavoritesApi, FolderApi, PlaylistApi, RadioApi, SongApi, StreamApi, CoverApi};
use synoplayer::api::types::{ApiError, ApiInfo, ApiResponse, Playlist, RadioStation, Song, SongListData};
use synoplayer::error::SynoError;

fn client_with_stream_path() -> SynoClient {
    let mut client = SynoClient::new("https://nas.local:5001");
    client.set_sid("test_sid".to_string());
    client.set_api_paths(vec![(
        "SYNO.AudioStation.Stream".to_string(),
        ApiInfo { path: "AudioStation/stream.cgi".to_string(), min_version: 1, max_version: 2 },
    )]);
    client
}

fn song(id: &str) -> Song {
    Song { id: id.to_string(), title: String::new(), path: String::new(), additional: None }
}

#[test]
fn new_client_is_not_authenticated() {
    let client = SynoClient::new("https://example.com:5001");
    assert!(!client.is_authenticated());
    assert!(client.sid().is_none());
}

#[test]
fn set_and_clear_sid() {
    let mut client = SynoClient::new("https://example.com:5001");
    client.set_sid("test_sid".to_string());
    assert!(client.is_authenticated());
    assert_eq!(client.sid(), Some("test_sid"));
    client.clear_sid();
    assert!(!client.is_authenticated());
}

#[test]
fn build_url_fallback_for_known_apis() {
    let client = SynoClient::new("https://nas.local:5001");
    assert_eq!(client.build_url("SYNO.API.Info").unwrap(), "https://nas.local:5001/webapi/query.cgi");
    assert_eq!(client.build_url("SYNO.API.Auth").unwrap(), "https://nas.local:5001/webapi/entry.cgi");
}

#[test]
fn build_url_unknown_api_fails() {
    let client = SynoClient::new("https://nas.local:5001");
    assert!(client.build_url("SYNO.AudioStation.Song").is_err());
}

#[test]
fn build_url_with_discovered_path() {
    let mut client = SynoClient::new("https://nas.local:5001");
    client.set_api_paths(vec![(
        "SYNO.AudioStation.Song".to_string(),
        ApiInfo { path: "AudioStation/song.cgi".to_string(), min_version: 1, max_version: 3 },
    )]);
    assert_eq!(
        client.build_url("SYNO.AudioStation.Song").unwrap(),
        "https://nas.local:5001/webapi/AudioStation/song.cgi"
    );
}

#[test]
fn base_url_strips_trailing_slash() {
    let client = SynoClient::new("https://nas.local:5001/");
    assert_eq!(client.base_url(), "https://nas.local:5001");
    assert_eq!(SynoClient::new("http://a//").base_url(), "http://a");
}

#[test]
fn stream_url_contains_song_id_and_sid() {
    let client = client_with_stream_path();
    let url = StreamApi::stream_url(&client, "music_123").unwrap();
    assert!(url.contains("id=music_123"));
    assert!(url.contains("_sid=test_sid"));
    assert!(url.contains("method=stream"));
    assert!(url.starts_with("https://nas.local:5001/webapi/AudioStation/stream.cgi"));
}

#[test]
fn transcode_url_uses_transcode_method() {
    let client = client_with_stream_path();
    let url = StreamApi::transcode_url(&client, "music_123").unwrap();
    assert!(url.contains("method=transcode"));
}

#[test]
fn stream_url_fails_without_auth() {
    let mut client = client_with_stream_path();
    client.clear_sid();
    assert!(matches!(StreamApi::stream_url(&client, "music_123"), Err(SynoError::NotAuthenticated)));
}

#[test]
fn cover_url_needs_cover_api() {
    let client = client_with_stream_path();
    match CoverApi::song_cover_url(&client, "m") {
        Err(SynoError::Api { code, .. }) => assert_eq!(code, 102),
        other => panic!("unexpected {other:?}"),
    }
}

#[test]
fn error_code_mapping() {
    assert!(matches!(SynoError::from_api_code(106), SynoError::SessionExpired));
    assert!(matches!(SynoError::from_api_code(119), SynoError::SessionExpired));
    assert!(matches!(SynoError::from_api_code(400), SynoError::InvalidCredentials));
    assert!(matches!(SynoError::from_api_code(403), SynoError::TwoFactorRequired));
    match SynoError::from_api_code(105) {
        SynoError::Api { code, message } => {
            assert_eq!(code, 105);
            assert_eq!(message, "No permission");
        }
        _ => panic!("expected api error"),
    }
    assert!(SynoError::from_api_code(106).is_session_expired());
}

#[test]
fn query_params_carry_session() {
    let client = client_with_stream_path();
    let call = SongApi::set_rating("music_1", 5);
    let q = client.query_params(&call);
    let pairs: Vec<(&str, &str)> = q.iter().map(|(a, b)| (a.as_str(), b.as_str())).collect();
    assert_eq!(
        pairs,
        vec![("api", "SYNO.AudioStation.Song"), ("method", "setrating"), ("version", "2"), ("_sid", "test_sid"), ("id", "music_1"), ("rating", "5")]
    );
}

#[test]
fn decode_response_outcomes() {
    let ok: ApiResponse<i32> = ApiResponse { success: true, data: Some(7), error: None };
    assert_eq!(SynoClient::decode(ok).unwrap(), 7);
    let empty: ApiResponse<i32> = ApiResponse { success: true, data: None, error: None };
    assert!(matches!(SynoClient::decode(empty), Err(SynoError::Api { code: 100, .. })));
    let failed: ApiResponse<i32> = ApiResponse { success: false, data: None, error: Some(ApiError { code: 119 }) };
    assert!(matches!(SynoClient::decode(failed), Err(SynoError::SessionExpired)));
}

#[test]
fn folder_and_playlist_calls() {
    let c = FolderApi::list(Some("dir_1"), 0, 500);
    assert_eq!(c.params.last().unwrap(), &("id".to_string(), "dir_1".to_string()));
    let u = PlaylistApi::update_songs("pl", &vec!["a".to_string(), "b".to_string(), "c".to_string()]);
    assert_eq!(u.params[1].1, "a,b,c");
    let f = SongApi::list_filtered(0, -1, Some("Art"), None, Some("Rock"));
    assert_eq!(f.params[1].1, "-1");
    assert_eq!(f.params[3], ("artist".to_string(), "Art".to_string()));
    assert_eq!(f.params[4], ("genre".to_string(), "Rock".to_string()));
}

#[test]
fn song_info_takes_first_song() {
    let data = SongListData { songs: vec![song("m1"), song("m2")], total: 2, offset: 0 };
    assert_eq!(SongApi::song_from_info(data, "m1").unwrap().id, "m1");
    let none = SongListData { songs: vec![], total: 0, offset: 0 };
    match SongApi::song_from_info(none, "m9") {
        Err(SynoError::Api { message, .. }) => assert_eq!(message, "Song not found: m9"),
        _ => panic!("expected error"),
    }
}

#[test]
fn radio_find_by_id_or_title() {
    let radios = vec![
        RadioStation { id: "r1".to_string(), title: "Jazz FM".to_string(), url: "u1".to_string() },
        RadioStation { id: "r2".to_string(), title: "Rock".to_string(), url: "u2".to_string() },
    ];
    assert_eq!(RadioApi::find(radios.clone(), "jazz fm").unwrap().id, "r1");
    assert_eq!(RadioApi::find(radios.clone(), "r2").unwrap().url, "u2");
    assert!(RadioApi::find(radios, "pop").is_none());
}

#[test]
fn favorites_playlist_updates() {
    let fav = FavoritesApi::new("Favorites");
    let lists = vec![
        Playlist { id: "p1".to_string(), name: "favorites".to_string(), library: String::new(), songs_count: None },
        Playlist { id: "p2".to_string(), name: "Favorites".to_string(), library: String::new(), songs_count: None },
    ];
    assert_eq!(fav.find_playlist_id(&lists), Some("p2".to_string()));
    let songs = vec![song("music_1"), song("music_2")];
    assert!(FavoritesApi::contains(&songs, "music_1"));
    assert!(FavoritesApi::ids_after_add(&songs, "music_1").is_none());
    assert_eq!(FavoritesApi::ids_after_add(&songs, "music_3").unwrap(), vec!["music_1", "music_2", "music_3"]);
    assert_eq!(FavoritesApi::ids_after_remove(&songs, "music_1"), vec!["music_2"]);
}

#[test]
fn relogin_only_for_expired_sessions_with_credentials() {
    let mut client = SynoClient::new("https://nas.local:5001");
    assert_eq!(AuthApi::relogin_credentials(&client, &SynoError::SessionExpired), None);
    AuthApi::logged_in(&mut client, "sid".to_string(), "user", "pw");
    assert_eq!(
        AuthApi::relogin_credentials(&client, &SynoError::from_api_code(119)),
        Some(("user".to_string(), "pw".to_string()))
    );
    assert_eq!(AuthApi::relogin_credentials(&client, &SynoError::from_api_code(105)), None);
    assert_eq!(AuthApi::relogin_credentials(&client, &SynoError::InvalidCredentials), None);
}

#[test]
fn discovered_paths_keep_first_place_of_each_name() {
    let mut client = SynoClient::new("https://nas.local:5001");
    let info = |p: &str| ApiInfo { path: p.to_string(), min_version: 1, max_version: 2 };
    client.set_api_paths(vec![
        ("SYNO.A".to_string(), info("a.cgi")),
        ("SYNO.B".to_string(), info("b.cgi")),
        ("SYNO.A".to_string(), info("other.cgi")),
    ]);
    assert_eq!(client.api_paths().len(), 2);
    assert_eq!(client.build_url("SYNO.A").unwrap(), "https://nas.local:5001/webapi/a.cgi");
    assert_eq!(client.build_url("SYNO.B").unwrap(), "https://nas.local:5001/webapi/b.cgi");
}
