use synoplayer::api::types::Song;
use synoplayer::player::queue::{PlayQueue, RepeatMode};

fn song(id: &str) -> Song {
    Song {
        id: id.to_string(),
        title: format!("Song {id}"),
        path: String::new(),
        additional: None,
    }
}

#[test]
fn new_queue_is_empty() {
    let q = PlayQueue::new();
    assert!(q.is_empty());
    assert_eq!(q.len(), 0);
    assert!(q.current().is_none());
}

#[test]
fn add_and_current() {
    let mut q = PlayQueue::new();
    q.add(song("a"));
    q.add(song("b"));
    assert_eq!(q.len(), 2);
    assert_eq!(q.current().unwrap().id, "a");
}

#[test]
fn from_songs_sets_current_to_first() {
    let q = PlayQueue::from_songs(vec![song("x"), song("y"), song("z")]);
    assert_eq!(q.current().unwrap().id, "x");
    assert_eq!(q.len(), 3);
}

#[test]
fn from_empty_songs_has_no_current() {
    let q = PlayQueue::from_songs(vec![]);
    assert!(q.current().is_none());
}

#[test]
fn next_advances() {
    let mut q = PlayQueue::from_songs(vec![song("a"), song("b"), song("c")]);
    assert!(q.next());
    assert_eq!(q.current().unwrap().id, "b");
    assert!(q.next());
    assert_eq!(q.current().unwrap().id, "c");
}

#[test]
fn next_at_end_returns_false() {
    let mut q = PlayQueue::from_songs(vec![song("a"), song("b")]);
    q.next();
    assert!(!q.next());
    assert_eq!(q.current().unwrap().id, "b");
}

#[test]
fn prev_goes_back() {
    let mut q = PlayQueue::from_songs(vec![song("a"), song("b"), song("c")]);
    q.next();
    q.next();
    assert!(q.prev());
    assert_eq!(q.current().unwrap().id, "b");
}

#[test]
fn prev_at_start_returns_false() {
    let mut q = PlayQueue::from_songs(vec![song("a"), song("b")]);
    assert!(!q.prev());
    assert_eq!(q.current().unwrap().id, "a");
}

#[test]
fn repeat_one_stays_on_track() {
    let mut q = PlayQueue::from_songs(vec![song("a"), song("b")]);
    q.set_repeat(RepeatMode::One);
    assert!(q.next());
    assert_eq!(q.current().unwrap().id, "a");
}

#[test]
fn repeat_all_wraps_around() {
    let mut q = PlayQueue::from_songs(vec![song("a"), song("b")]);
    q.set_repeat(RepeatMode::All);
    q.next();
    q.next();
    assert_eq!(q.current().unwrap().id, "a");
}

#[test]
fn repeat_all_prev_wraps_around() {
    let mut q = PlayQueue::from_songs(vec![song("a"), song("b"), song("c")]);
    q.set_repeat(RepeatMode::All);
    q.prev();
    assert_eq!(q.current().unwrap().id, "c");
}

#[test]
fn shuffle_preserves_all_songs() {
    let ids: Vec<String> = (0..10).map(|i| format!("s{i}")).collect();
    let songs: Vec<Song> = ids.iter().map(|id| song(id)).collect();
    let mut q = PlayQueue::from_songs(songs);
    q.shuffle();
    assert_eq!(q.len(), 10);
    let shuffled_ids: Vec<&str> = q.list().iter().map(|s| s.id.as_str()).collect();
    for id in &ids {
        assert!(shuffled_ids.contains(&id.as_str()));
    }
}

#[test]
fn shuffle_keeps_current_at_front() {
    let mut q = PlayQueue::from_songs(vec![song("a"), song("b"), song("c"), song("d")]);
    q.next();
    q.shuffle();
    assert_eq!(q.current().unwrap().id, "b");
    assert_eq!(q.current_index(), Some(0));
}

#[test]
fn clear_empties_queue() {
    let mut q = PlayQueue::from_songs(vec![song("a"), song("b")]);
    q.clear();
    assert!(q.is_empty());
    assert!(q.current().is_none());
}

#[test]
fn remove_adjusts_index() {
    let mut q = PlayQueue::from_songs(vec![song("a"), song("b"), song("c")]);
    q.next();
    q.remove(0);
    assert_eq!(q.current().unwrap().id, "b");
    assert_eq!(q.current_index(), Some(0));
}

#[test]
fn remove_current_adjusts() {
    let mut q = PlayQueue::from_songs(vec![song("a"), song("b"), song("c")]);
    q.next();
    q.remove(1);
    assert_eq!(q.current().unwrap().id, "c");
}

#[test]
fn remove_last_when_current_adjusts() {
    let mut q = PlayQueue::from_songs(vec![song("a"), song("b")]);
    q.next();
    q.remove(1);
    assert_eq!(q.current().unwrap().id, "a");
}

#[test]
fn next_on_empty_returns_false() {
    let mut q = PlayQueue::new();
    assert!(!q.next());
}

#[test]
fn prev_on_empty_returns_false() {
    let mut q = PlayQueue::new();
    assert!(!q.prev());
}

#[test]
fn next_then_prev_returns_to_same_song() {
    let mut q = PlayQueue::from_songs(vec![song("a"), song("b"), song("c")]);
    q.next();
    assert!(q.next());
    assert!(q.prev());
    assert_eq!(q.current().unwrap().id, "b");
}

#[test]
fn shuffle_with_seed_is_repeatable() {
    let mut q1 = PlayQueue::from_songs((0..8).map(|i| song(&format!("s{i}"))).collect());
    let mut q2 = PlayQueue::from_songs((0..8).map(|i| song(&format!("s{i}"))).collect());
    q1.shuffle_with_seed(42);
    q2.shuffle_with_seed(42);
    let a: Vec<&str> = q1.list().iter().map(|s| s.id.as_str()).collect();
    let b: Vec<&str> = q2.list().iter().map(|s| s.id.as_str()).collect();
    assert_eq!(a, b);
    assert_eq!(a[0], "s0");
    assert!(q1.is_shuffled());
}

#[test]
fn remove_out_of_range_returns_none() {
    let mut q = PlayQueue::from_songs(vec![song("a")]);
    assert!(q.remove(3).is_none());
    assert_eq!(q.len(), 1);
    assert_eq!(q.remove(0).unwrap().id, "a");
    assert!(q.current().is_none());
}

#[test]
fn repeat_getter_reflects_setter() {
    let mut q = PlayQueue::new();
    assert_eq!(q.repeat(), RepeatMode::Off);
    q.set_repeat(RepeatMode::All);
    assert_eq!(q.repeat(), RepeatMode::All);
}
