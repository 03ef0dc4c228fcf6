use synoplayer::history::{HistoryEntry, PlayHistory};

fn test_history() -> PlayHistory {
    PlayHistory { path: "/tmp/history.json".to_string(), max_entries: 5 }
}

fn entry(id: &str, title: &str) -> HistoryEntry {
    HistoryEntry {
        song_id: id.to_string(),
        title: title.to_string(),
        artist: "Artist".to_string(),
        album: "Album".to_string(),
        played_at: "2026-03-19T12:00:00Z".to_string(),
    }
}

#[test]
fn add_and_list() {
    let history = test_history();
    let mut entries = Vec::new();
    history.add(&mut entries, entry("s1", "Song 1"));
    history.add(&mut entries, entry("s2", "Song 2"));
    let items = history.list(entries, 10);
    assert_eq!(items.len(), 2);
    assert_eq!(items[0].song_id, "s2");
    assert_eq!(items[1].song_id, "s1");
}

#[test]
fn list_respects_limit() {
    let history = test_history();
    let mut entries = Vec::new();
    for i in 0..5 {
        history.add(&mut entries, entry(&format!("s{i}"), &format!("Song {i}")));
    }
    let items = history.list(entries, 3);
    assert_eq!(items.len(), 3);
}

#[test]
fn max_entries_trims_oldest() {
    let history = test_history();
    let mut entries = Vec::new();
    for i in 0..8 {
        history.add(&mut entries, entry(&format!("s{i}"), &format!("Song {i}")));
    }
    assert_eq!(history.count(&entries), 5);
    let items = history.list(entries, 10);
    assert_eq!(items[0].song_id, "s7");
    assert_eq!(items[4].song_id, "s3");
}

#[test]
fn history_clear_removes_all() {
    let history = test_history();
    let mut entries = Vec::new();
    history.add(&mut entries, entry("s1", "Song"));
    assert_eq!(history.count(&entries), 1);
    let cleared: Vec<HistoryEntry> = Vec::new();
    assert_eq!(history.count(&cleared), 0);
    assert!(history.list(cleared, 10).is_empty());
}

#[test]
fn empty_history_returns_empty() {
    let history = test_history();
    assert!(history.list(Vec::new(), 10).is_empty());
    assert_eq!(history.count(&Vec::new()), 0);
}

#[test]
fn entries_persist_across_instances() {
    let h1 = test_history();
    let mut entries = Vec::new();
    h1.add(&mut entries, entry("s1", "Song 1"));
    let h2 = test_history();
    let items = h2.list(entries, 10);
    assert_eq!(items.len(), 1);
    assert_eq!(items[0].song_id, "s1");
}

#[test]
fn default_history_keeps_five_hundred() {
    let h = PlayHistory::new();
    assert_eq!(h.max_entries, 500);
    assert!(h.path.ends_with("history.json"));
}
