use synoplayer::duration::Duration;
use synoplayer::player::state::{PlayerState, TrackInfo};

fn sample_track() -> TrackInfo {
    TrackInfo {
        id: "music_1".to_string(),
        title: "Test Song".to_string(),
        artist: "Test Artist".to_string(),
        album: "Test Album".to_string(),
        duration: Duration::from_secs(240),
    }
}

#[test]
fn initial_state_is_stopped() {
    let state = PlayerState::Stopped;
    assert!(state.is_stopped());
    assert!(!state.is_playing());
    assert!(!state.is_paused());
    assert!(state.track().is_none());
    assert!(state.position().is_none());
}

#[test]
fn play_creates_playing_state() {
    let state = PlayerState::play(sample_track());
    assert!(state.is_playing());
    assert_eq!(state.track().unwrap().id, "music_1");
    assert_eq!(state.position().unwrap(), Duration::zero());
}

#[test]
fn pause_from_playing() {
    let mut state = PlayerState::play(sample_track());
    state.set_position(Duration::from_secs(30));
    state.pause();
    assert!(state.is_paused());
    assert_eq!(state.position().unwrap(), Duration::from_secs(30));
}

#[test]
fn resume_from_paused() {
    let mut state = PlayerState::play(sample_track());
    state.set_position(Duration::from_secs(60));
    state.pause();
    state.resume();
    assert!(state.is_playing());
    assert_eq!(state.position().unwrap(), Duration::from_secs(60));
}

#[test]
fn pause_from_stopped_does_nothing() {
    let mut state = PlayerState::Stopped;
    state.pause();
    assert!(state.is_stopped());
}

#[test]
fn resume_from_stopped_does_nothing() {
    let mut state = PlayerState::Stopped;
    state.resume();
    assert!(state.is_stopped());
}

#[test]
fn stop_from_playing() {
    let mut state = PlayerState::play(sample_track());
    state.stop();
    assert!(state.is_stopped());
    assert!(state.track().is_none());
}

#[test]
fn stop_from_paused() {
    let mut state = PlayerState::play(sample_track());
    state.pause();
    state.stop();
    assert!(state.is_stopped());
}

#[test]
fn track_info_accessible_in_playing_and_paused() {
    let state = PlayerState::play(sample_track());
    assert_eq!(state.track().unwrap().title, "Test Song");
    assert_eq!(state.track().unwrap().artist, "Test Artist");
    assert_eq!(state.track().unwrap().album, "Test Album");
    assert_eq!(state.track().unwrap().duration, Duration::from_secs(240));
}

#[test]
fn pause_then_resume_restores_playing_state() {
    let mut state = PlayerState::play(sample_track());
    state.set_position(Duration::from_secs(12));
    state.pause();
    state.resume();
    assert!(state.is_playing());
    assert_eq!(state.track().unwrap().id, "music_1");
    assert_eq!(state.position().unwrap(), Duration::from_secs(12));
}

#[test]
fn duration_saturating_add_caps_at_max() {
    let a = Duration::new(u64::MAX, 999_999_999);
    let b = Duration::new(0, 1);
    let s = a.saturating_add(b);
    assert_eq!(s.as_secs(), u64::MAX);
    assert_eq!(s.subsec_nanos(), 999_999_999);
    let c = Duration::new(1, 600_000_000).saturating_add(Duration::new(2, 500_000_000));
    assert_eq!(c.as_secs(), 4);
    assert_eq!(c.subsec_nanos(), 100_000_000);
    assert!(Duration::new(u64::MAX, 0).checked_add(Duration::from_secs(1)).is_none());
}
