use synoplayer::duration::Duration;
use synoplayer::player::engine::{apply_system_volume, failed_early, spawn_plan, AudioEngine, Tools};
use synoplayer::player::state::TrackInfo;

fn none() -> Tools {
    Tools { ffplay: false, mpv: false, ffmpeg: false, gst_launch: false, curl: false, pw_play: false, paplay: false }
}

#[test]
fn new_engine_is_stopped() {
    let engine = AudioEngine::new();
    assert!(engine.state().is_stopped());
}

#[test]
fn default_volume_is_80() {
    let engine = AudioEngine::new();
    assert_eq!(engine.volume(), 80);
}

#[test]
fn set_volume_clamps_to_100() {
    let mut engine = AudioEngine::new();
    engine.set_volume(150);
    assert_eq!(engine.volume(), 100);
}

#[test]
fn stop_from_stopped_is_noop() {
    let mut engine = AudioEngine::new();
    engine.stop();
    assert!(engine.state().is_stopped());
}

#[test]
fn ffplay_is_preferred() {
    let tools = Tools { ffplay: true, mpv: true, ..none() };
    let plan = spawn_plan("http://x/s.mp3", 80, "", tools);
    assert_eq!(plan.len(), 1);
    assert_eq!(plan[0].program, "ffplay");
    assert_eq!(plan[0].args, vec!["-nodisp", "-autoexit", "-loglevel", "quiet", "-volume", "80", "http://x/s.mp3"]);
    assert!(plan[0].env.is_empty());
    let plan = spawn_plan("u", 5, "hw:1", tools);
    assert_eq!(plan[0].env, vec![("AUDIODEV".to_string(), "hw:1".to_string()), ("SDL_AUDIODRIVER".to_string(), "alsa".to_string())]);
}

#[test]
fn mpv_gets_device_flag_first() {
    let tools = Tools { mpv: true, ..none() };
    let plan = spawn_plan("u", 30, "hw:0", tools);
    assert_eq!(plan[0].program, "mpv");
    assert_eq!(plan[0].args, vec!["--audio-device=alsa/hw:0", "--no-video", "--really-quiet", "--volume=30", "u"]);
}

#[test]
fn ffmpeg_falls_through_to_gstreamer() {
    let tools = Tools { ffmpeg: true, gst_launch: true, ..none() };
    let plan = spawn_plan("u", 5, "", tools);
    assert_eq!(plan.len(), 3);
    assert_eq!(plan[0].args, vec!["-i", "u", "-loglevel", "quiet", "-af", "volume=0.05", "-f", "alsa", "default"]);
    assert_eq!(plan[1].args[7], "pulse");
    assert!(plan[0].fall_through && plan[1].fall_through);
    assert_eq!(plan[2].program, "gst-launch-1.0");
    assert_eq!(
        plan[2].args[0],
        "souphttpsrc location=u ! decodebin ! audioconvert ! audioresample ! volume volume=0.05 ! autoaudiosink"
    );
}

#[test]
fn curl_pipes_when_nothing_else() {
    let plan = spawn_plan("u", 100, "", Tools { curl: true, paplay: true, ..none() });
    assert_eq!(plan.len(), 1);
    assert_eq!(plan[0].args, vec!["-c", "curl -sLk 'u' | paplay --raw"]);
    assert_eq!(plan[0].failure_prefix, "Failed to spawn pipe: ");
    assert!(spawn_plan("u", 100, "", none()).is_empty());
}

#[test]
fn system_volume_commands() {
    let plan = apply_system_volume(80);
    assert_eq!(plan[0].args, vec!["set-sink-volume", "@DEFAULT_SINK@", "80%"]);
    assert_eq!(plan[1].args, vec!["set-volume", "@DEFAULT_AUDIO_SINK@", "0.80"]);
    assert_eq!(plan[2].args, vec!["sset", "Master", "80%"]);
}

#[test]
fn early_failure_detection() {
    assert!(failed_early(false, Duration::from_secs(2)));
    assert!(!failed_early(false, Duration::from_secs(3)));
    assert!(!failed_early(true, Duration::from_secs(1)));
}

#[test]
fn engine_pause_and_position() {
    let mut engine = AudioEngine::new();
    engine.play_started(TrackInfo {
        id: "t".to_string(),
        title: "T".to_string(),
        artist: String::new(),
        album: String::new(),
        duration: Duration::from_secs(100),
    });
    assert!(engine.state().is_playing());
    assert_eq!(engine.current_position(Some(Duration::from_secs(7))), Duration::from_secs(7));
    engine.pause(Some(Duration::from_secs(9)));
    assert!(engine.state().is_paused());
    assert!(engine.resume_needed());
    assert_eq!(engine.current_position(Some(Duration::from_secs(20))), Duration::from_secs(9));
    assert!(engine.exited(false, Duration::from_secs(1)));
    assert!(engine.state().is_stopped());
}

#[test]
fn play_plan_uses_engine_volume_and_device() {
    let mut engine = AudioEngine::new().with_device("hw:1");
    let volume_plan = engine.set_volume(30);
    assert_eq!(volume_plan.len(), 3);
    assert_eq!(volume_plan[0].args, vec!["set-sink-volume", "@DEFAULT_SINK@", "30%"]);
    assert_eq!(volume_plan[1].program, "wpctl");
    assert_eq!(volume_plan[1].args, vec!["set-volume", "@DEFAULT_AUDIO_SINK@", "0.30"]);
    assert_eq!(volume_plan[2].args, vec!["sset", "Master", "30%"]);
    assert!(volume_plan.iter().all(|c| c.fall_through));
    let plan = engine.play_plan("u", Tools { ffplay: true, ..none() });
    assert_eq!(plan[0].args, vec!["-nodisp", "-autoexit", "-loglevel", "quiet", "-volume", "30", "u"]);
    assert_eq!(plan[0].env[0], ("AUDIODEV".to_string(), "hw:1".to_string()));
    let plan = engine.play_plan("u", Tools { mpv: true, ..none() });
    assert_eq!(plan[0].args, vec!["--audio-device=alsa/hw:1", "--no-video", "--really-quiet", "--volume=30", "u"]);
}
