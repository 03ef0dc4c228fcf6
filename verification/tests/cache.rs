use synoplayer::cache::manager::{lru_order, CacheEntry, CacheManager, CacheMeta, CachedRead, Timestamp};
use synoplayer::cache::storage::{name_has_extension, CacheStorage, DirEntry};
use synoplayer::config::model::CacheConfig;

fn test_config() -> CacheConfig {
    CacheConfig {
        enabled: true,
        path: "/tmp/cache".to_string(),
        max_size_mb: 100,
        ttl_days: 30,
        cache_on_play: true,
        preload_playlist: false,
        transcode_before_cache: false,
        verify_integrity: true,
    }
}

fn audio(id: &str, size: u64) -> DirEntry {
    DirEntry { name: CacheStorage::audio_file_name(id), is_file: true, size }
}

fn ts(secs: i64) -> Timestamp {
    Timestamp { secs, nanos: 0 }
}

fn entry(id: &str, cached: i64, accessed: i64, size: u64) -> CacheEntry {
    CacheEntry { song_id: id.to_string(), cached_at: ts(cached), last_accessed: ts(accessed), size_bytes: size }
}

#[test]
fn hash_id_is_deterministic() {
    let h1 = CacheStorage::hash_id("music_123");
    let h2 = CacheStorage::hash_id("music_123");
    assert_eq!(h1, h2);
    assert_eq!(h1.len(), 16);
}

#[test]
fn hash_id_differs_for_different_ids() {
    let h1 = CacheStorage::hash_id("music_1");
    let h2 = CacheStorage::hash_id("music_2");
    assert_ne!(h1, h2);
}

#[test]
fn content_hash_detects_changes() {
    let h1 = CacheStorage::hash_content(b"original");
    let h2 = CacheStorage::hash_content(b"modified");
    assert_ne!(h1, h2);
}

#[test]
fn content_hash_known_value() {
    assert_eq!(
        CacheStorage::hash_content(b"abc"),
        "ba7816bf8f01cfea414140de5dae2223b00361a396177a9cb410ff61f20015ad"
    );
    assert_eq!(CacheStorage::hash_id("abc"), "ba7816bf8f01cfea");
}

#[test]
fn paths_are_named_by_hash() {
    let storage = CacheStorage::new("/tmp/cache".to_string());
    let h = CacheStorage::hash_id("song_1");
    assert_eq!(storage.audio_path("song_1"), format!("/tmp/cache/{h}.audio"));
    assert_eq!(storage.meta_path("song_1"), format!("/tmp/cache/{h}.meta"));
    assert_eq!(storage.base_path(), "/tmp/cache");
}

#[test]
fn exists_returns_true_after_write() {
    let storage = CacheStorage::new("/tmp/cache".to_string());
    assert!(!storage.has_audio_file("song_1", &vec![]));
    assert!(storage.has_audio_file("song_1", &vec![audio("song_1", 4)]));
}

#[test]
fn total_size_sums_files() {
    let storage = CacheStorage::new("/tmp/cache".to_string());
    let listing = vec![audio("s1", 1000), audio("s2", 2000), DirEntry { name: "sub".to_string(), is_file: false, size: 4096 }];
    assert_eq!(storage.total_size(&listing), 3000);
}

#[test]
fn file_count_counts_audio_files() {
    let storage = CacheStorage::new("/tmp/cache".to_string());
    let listing = vec![audio("s1", 4), audio("s2", 4), DirEntry { name: "x.meta".to_string(), is_file: true, size: 10 }];
    assert_eq!(storage.file_count(&listing), 2);
}

#[test]
fn extension_follows_last_dot() {
    assert!(name_has_extension("a.audio", "audio"));
    assert!(!name_has_extension(".audio", "audio"));
    assert!(!name_has_extension("audio", "audio"));
    assert!(name_has_extension("a.b.meta", "meta"));
}

#[test]
fn store_and_retrieve() {
    let cache = CacheManager::new(test_config());
    let data = b"fake audio data";
    let hash = CacheStorage::hash_content(data);
    assert!(cache.contains("song_1", &vec![audio("song_1", 15)]));
    assert!(cache.integrity_ok(data, Some(&hash)));
}

#[test]
fn miss_returns_none() {
    let cache = CacheManager::new(test_config());
    assert!(!cache.contains("nonexistent", &vec![audio("song_1", 15)]));
}

#[test]
fn disabled_cache_does_not_store() {
    let mut config = test_config();
    config.enabled = false;
    let cache = CacheManager::new(config);
    assert!(!cache.is_enabled());
    assert!(!cache.contains("song_1", &vec![audio("song_1", 4)]));
}

#[test]
fn integrity_check_detects_corruption() {
    let cache = CacheManager::new(test_config());
    let hash = CacheStorage::hash_content(b"original data");
    assert!(!cache.integrity_ok(b"corrupted!", Some(&hash)));
    assert!(cache.integrity_ok(b"corrupted!", None));
    let mut config = test_config();
    config.verify_integrity = false;
    assert!(CacheManager::new(config).integrity_ok(b"corrupted!", Some(&hash)));
}

#[test]
fn status_reports_correct_stats() {
    let cache = CacheManager::new(test_config());
    let listing = vec![audio("s1", 1000), audio("s2", 2000)];
    let status = cache.status(&listing);
    assert_eq!(status.file_count, 2);
    assert!(status.total_size_bytes >= 3000);
    assert_eq!(status.max_size_bytes, 100 * 1024 * 1024);
    assert_eq!(status.path, "/tmp/cache");
}

#[test]
fn manager_clear_removes_all() {
    let cache = CacheManager::new(test_config());
    let empty: Vec<DirEntry> = Vec::new();
    assert!(!cache.contains("s1", &empty));
    assert!(!cache.contains("s2", &empty));
    assert_eq!(cache.file_path("s1"), cache.storage.audio_path("s1"));
}

#[test]
fn lru_eviction_removes_oldest() {
    let mut config = test_config();
    config.max_size_mb = 1;
    let cache = CacheManager::new(config);
    let entries = vec![entry("s1", 1, 10, 400_000), entry("s2", 2, 20, 400_000), entry("s3", 3, 30, 400_000)];
    assert!(cache.start_eviction(1_000_000, entries.clone()).is_none());
    let mut ev = cache.start_eviction(1_200_000, entries).unwrap();
    let first = ev.next_victim().unwrap();
    assert_eq!(first, "s1");
    ev.record(true);
    assert_eq!(ev.current, 800_000);
    assert!(ev.next_victim().is_none());
}

#[test]
fn eviction_skips_size_of_failed_deletions() {
    let cache = CacheManager::new(CacheConfig { max_size_mb: 1, ..test_config() });
    let entries = vec![entry("b", 0, 5, 600_000), entry("a", 0, 5, 600_000), entry("c", 0, 1, 100)];
    let mut ev = cache.start_eviction(1_300_000, entries).unwrap();
    assert_eq!(ev.next_victim().unwrap(), "c");
    ev.record(false);
    assert_eq!(ev.next_victim().unwrap(), "b");
    ev.record(true);
    assert!(ev.next_victim().is_none());
}

#[test]
fn lru_order_is_stable() {
    let order = lru_order(vec![entry("x", 0, 7, 1), entry("y", 0, 3, 1), entry("z", 0, 7, 1)]);
    let ids: Vec<&str> = order.iter().map(|e| e.song_id.as_str()).collect();
    assert_eq!(ids, vec!["y", "x", "z"]);
}

#[test]
fn list_entries_returns_all_cached() {
    let cache = CacheManager::new(test_config());
    let metas = vec![
        CacheMeta {
            song_id: Some("song_a".to_string()),
            sha256: None,
            cached_at: Some("2026-03-19T12:00:00Z".to_string()),
            last_accessed: None,
            size_bytes: Some(5),
        },
        CacheMeta {
            song_id: Some("song_b".to_string()),
            sha256: None,
            cached_at: Some("not a date".to_string()),
            last_accessed: Some("2026-03-20T00:00:00+00:00".to_string()),
            size_bytes: None,
        },
        CacheMeta { song_id: None, sha256: None, cached_at: None, last_accessed: None, size_bytes: Some(1) },
    ];
    let entries = cache.list_entries(&metas);
    assert_eq!(entries.len(), 2);
    let ids: Vec<&str> = entries.iter().map(|e| e.song_id.as_str()).collect();
    assert!(ids.contains(&"song_a"));
    assert!(ids.contains(&"song_b"));
    assert_eq!(entries[0].cached_at, Timestamp { secs: 1773921600, nanos: 0 });
    assert_eq!(entries[0].last_accessed, entries[0].cached_at);
    assert_eq!(entries[1].cached_at, Timestamp { secs: 0, nanos: 0 });
    assert_eq!(entries[1].size_bytes, 0);
}

#[test]
fn clear_older_than_days_removes_old_entries() {
    let cache = CacheManager::new(test_config());
    let now = 4_000_000_000i64;
    let entries = vec![entry("old_song", now - 60 * 86_400, 0, 4), entry("new_song", now, 0, 4)];
    let removed = synoplayer::cache::manager::ids_older_than(&entries, Timestamp { secs: now, nanos: 0 }, 30);
    assert_eq!(removed, vec!["old_song".to_string()]);
    let by_clock = cache.clear_older_than_days(&vec![entry("ancient", 0, 0, 1)], 30);
    assert_eq!(by_clock, vec!["ancient".to_string()]);
}

#[test]
fn zero_ttl_expires_everything_cached_before_now() {
    let mut config = test_config();
    config.ttl_days = 0;
    let cache = CacheManager::new(config);
    let entries = vec![entry("ancient", 0, 0, 1), entry("future", 9_000_000_000, 0, 1)];
    assert_eq!(cache.cleanup_expired(&entries), vec!["ancient".to_string()]);
    let mut config = test_config();
    config.ttl_days = 30;
    let now = 4_000_000_000i64;
    let kept = synoplayer::cache::manager::ids_older_than(&vec![entry("fresh", now - 86_400, 0, 1)], Timestamp { secs: now, nanos: 0 }, 30);
    assert!(kept.is_empty());
    assert_eq!(CacheManager::new(config).cleanup_expired(&vec![entry("ancient", 0, 0, 1)]), vec!["ancient".to_string()]);
}

#[test]
fn eviction_continues_at_exactly_ninety_percent() {
    let cache = CacheManager::new(CacheConfig { max_size_mb: 1, ..test_config() });
    // 90% of 1 MiB rounded up.
    let target = 943_719u64;
    let entries = vec![entry("a", 0, 1, 100_000), entry("b", 0, 2, 100_000)];
    assert!(cache.start_eviction(1_048_576, entries.clone()).is_none());
    let mut ev = cache.start_eviction(1_048_577, entries).unwrap();
    assert_eq!(ev.target, target);
    assert_eq!(ev.next_victim().unwrap(), "a");
    ev.record(true);
    assert_eq!(ev.current, 948_577);
    assert_eq!(ev.next_victim().unwrap(), "b");
    ev.record(true);
    assert_eq!(ev.current, 848_577);
    assert!(ev.next_victim().is_none());
    let mut ev = cache.start_eviction(1_048_577, vec![entry("x", 0, 1, 1_048_577 - target), entry("y", 0, 2, 1)]).unwrap();
    ev.record(true);
    assert_eq!(ev.current, target);
    assert_eq!(ev.next_victim().unwrap(), "y");
    ev.record(true);
    assert!(ev.next_victim().is_none());
}

#[test]
fn reading_cached_audio_checks_integrity() {
    let hash = CacheStorage::hash_content(b"audio");
    let checked = CacheManager::new(test_config());
    assert_eq!(checked.on_read(b"audio", Some(&hash)), CachedRead::Use { touch: true });
    assert_eq!(checked.on_read(b"changed", Some(&hash)), CachedRead::Discard);
    assert_eq!(checked.on_read(b"changed", None), CachedRead::Use { touch: true });
    let unchecked = CacheManager::new(CacheConfig { verify_integrity: false, ..test_config() });
    assert_eq!(unchecked.on_read(b"changed", Some(&hash)), CachedRead::Use { touch: false });
}
