//! The audio engine's decisions: which external player to start and how, how to set the
//! system volume, and what the player's state becomes. Starting and stopping processes is
//! the caller's work.
use vstd::prelude::*;

use crate::duration::Duration;
use crate::player::queue::PlayQueue;
use crate::player::state::{PlayerState, TrackInfo};
use crate::text::{decimal, pad2, push_decimal, push_pad2, push_str};
use crate::tui::handler::{cat, cat3};

verus! {

/// A program to run: its name, arguments, extra environment, whether a failure to start it
/// moves on to the next program of a plan, and the text that opens the failure message.
#[derive(Debug)]
pub struct Command {
    pub program: String,
    pub args: Vec<String>,
    pub env: Vec<(String, String)>,
    pub fall_through: bool,
    pub failure_prefix: String,
}

/// Which external programs are installed.
#[derive(Debug, Clone, Copy, PartialEq, Eq, Structural)]
pub struct Tools {
    pub ffplay: bool,
    pub mpv: bool,
    pub ffmpeg: bool,
    pub gst_launch: bool,
    pub curl: bool,
    pub pw_play: bool,
    pub paplay: bool,
}

/// What a failure to find any player says.
pub const NO_PLAYER_MESSAGE: &'static str = "No audio player found. Install one of: ffplay, mpv, ffmpeg, or gstreamer.";

/// A volume in percent as a fraction with two decimals (`80` gives `0.80`).
pub open spec fn fraction2(v: nat) -> Seq<char> {
    decimal(v / 100) + "."@ + pad2(v % 100)
}

fn fraction_text(v: u8) -> (s: String)
    ensures
        s@ == fraction2(v as nat),
{
    let mut s = String::new();
    push_decimal(&mut s, (v / 100) as u64);
    push_str(&mut s, ".");
    push_pad2(&mut s, (v % 100) as u64);
    assert(Seq::<char>::empty() + decimal((v / 100) as nat) == decimal((v / 100) as nat));
    s
}

/// The ALSA device to use: the configured one, else `default`.
pub open spec fn alsa_device(device: Seq<char>) -> Seq<char> {
    if device.len() == 0 {
        "default"@
    } else {
        device
    }
}

/// Whether a command runs `program` with exactly `args`.
pub open spec fn runs(c: Command, program: Seq<char>, args: Seq<Seq<char>>) -> bool {
    &&& c.program@ == program
    &&& c.args@.len() == args.len()
    &&& forall|k: int| 0 <= k < args.len() ==> (#[trigger] c.args@[k])@ == args[k]
}

/// `Failed to spawn <program>: `
pub open spec fn spawn_failure(program: Seq<char>) -> Seq<char> {
    "Failed to spawn "@ + program + ": "@
}

fn strings(parts: Vec<&str>) -> (v: Vec<String>)
    ensures
        v@.len() == parts@.len(),
        forall|k: int| 0 <= k < parts@.len() ==> (#[trigger] v@[k])@ == parts@[k]@,
{
    let mut v: Vec<String> = Vec::new();
    let mut i: usize = 0;
    while i < parts.len()
        invariant
            i <= parts@.len(),
            v@.len() == i,
            forall|k: int| 0 <= k < i ==> (#[trigger] v@[k])@ == parts@[k]@,
        decreases parts.len() - i,
    {
        v.push(parts[i].to_string());
        i = i + 1;
    }
    v
}

fn command(program: &str, args: Vec<String>, fall_through: bool) -> (c: Command)
    ensures
        c.program@ == program@,
        c.args@ == args@,
        c.env@.len() == 0,
        c.fall_through == fall_through,
        c.failure_prefix@ == spawn_failure(program@),
{
    Command {
        program: program.to_string(),
        args,
        env: Vec::new(),
        fall_through,
        failure_prefix: cat3("Failed to spawn ", program, ": "),
    }
}

/// `curl -sLk '<url>' | <rest>`
pub open spec fn curl_pipe(url: Seq<char>, rest: Seq<char>) -> Seq<char> {
    "curl -sLk '"@ + url + "' | "@ + rest
}

fn shell_pipe(url: &str, rest: &str) -> (c: Command)
    ensures
        runs(c, "sh"@, seq!["-c"@, curl_pipe(url@, rest@)]),
        c.env@.len() == 0,
        !c.fall_through,
        c.failure_prefix@ == "Failed to spawn pipe: "@,
{
    let mut line = cat3("curl -sLk '", url, "' | ");
    push_str(&mut line, rest);
    let args = vec!["-c".to_string(), line];
    Command {
        program: "sh".to_string(),
        args,
        env: Vec::new(),
        fall_through: false,
        failure_prefix: "Failed to spawn pipe: ".to_string(),
    }
}

/// What the plan to play `url` at a volume on a device holds, given the installed players:
/// the first of ffplay or mpv that is installed; else ffmpeg to ALSA, then to PulseAudio (each
/// failure moving on); then GStreamer, curl piped to ffmpeg, or curl piped to pw-play or
/// paplay. An empty plan means no player is installed.
pub open spec fn planned(url: Seq<char>, volume: u8, device: Seq<char>, tools: Tools, plan: Seq<Command>) -> bool {
    &&& (tools.ffplay ==> plan.len() == 1 && runs(
        plan[0],
        "ffplay"@,
        seq!["-nodisp"@, "-autoexit"@, "-loglevel"@, "quiet"@, "-volume"@, decimal(volume as nat), url],
    ) && !plan[0].fall_through && plan[0].failure_prefix@ == spawn_failure("ffplay"@) && (if device.len()
        == 0 {
        plan[0].env@.len() == 0
    } else {
        plan[0].env@.len() == 2 && plan[0].env@[0].0@ == "AUDIODEV"@ && plan[0].env@[0].1@ == device
            && plan[0].env@[1].0@ == "SDL_AUDIODRIVER"@ && plan[0].env@[1].1@ == "alsa"@
    }))
    &&& (!tools.ffplay && tools.mpv ==> plan.len() == 1 && plan[0].env@.len() == 0 && !plan[0].fall_through
        && plan[0].failure_prefix@ == spawn_failure("mpv"@) && runs(
        plan[0],
        "mpv"@,
        (if device.len() == 0 {
            Seq::<Seq<char>>::empty()
        } else {
            seq!["--audio-device=alsa/"@ + device]
        }) + seq!["--no-video"@, "--really-quiet"@, "--volume="@ + decimal(volume as nat), url],
    ))
    &&& (!tools.ffplay && !tools.mpv ==> {
        let af = "volume="@ + fraction2(volume as nat);
        let rest = if tools.ffmpeg {
            plan.skip(2)
        } else {
            plan
        };
        &&& tools.ffmpeg ==> plan.len() >= 2 && runs(
            plan[0],
            "ffmpeg"@,
            seq!["-i"@, url, "-loglevel"@, "quiet"@, "-af"@, af, "-f"@, "alsa"@, alsa_device(device)],
        ) && runs(
            plan[1],
            "ffmpeg"@,
            seq!["-i"@, url, "-loglevel"@, "quiet"@, "-af"@, af, "-f"@, "pulse"@, "default"@],
        ) && plan[0].fall_through && plan[1].fall_through && plan[0].env@.len() == 0
            && plan[1].env@.len() == 0 && plan[0].failure_prefix@ == spawn_failure("ffmpeg"@)
            && plan[1].failure_prefix@ == spawn_failure("ffmpeg"@)
        &&& if tools.gst_launch {
            rest.len() == 1 && !rest[0].fall_through && rest[0].env@.len() == 0 && rest[0].failure_prefix@
                == spawn_failure("gst-launch-1.0"@) && runs(
                rest[0],
                "gst-launch-1.0"@,
                seq![
                    "souphttpsrc location="@ + url
                        + " ! decodebin ! audioconvert ! audioresample ! volume volume="@ + fraction2(
                        volume as nat,
                    ) + " ! "@ + (if device.len() == 0 {
                        "autoaudiosink"@
                    } else {
                        "alsasink device="@ + device
                    }),
                ],
            )
        } else if tools.curl && tools.ffmpeg {
            rest.len() == 1 && !rest[0].fall_through && rest[0].env@.len() == 0 && rest[0].failure_prefix@
                == spawn_failure("sh"@) && runs(
                rest[0],
                "sh"@,
                seq![
                    "-c"@,
                    curl_pipe(
                        url,
                        "ffmpeg -i pipe:0 -loglevel quiet -af volume="@ + fraction2(volume as nat)
                            + " -f alsa "@ + alsa_device(device),
                    ),
                ],
            )
        } else if tools.curl && (tools.pw_play || tools.paplay) {
            rest.len() == 1 && !rest[0].fall_through && rest[0].env@.len() == 0 && rest[0].failure_prefix@
                == "Failed to spawn pipe: "@ && runs(
                rest[0],
                "sh"@,
                seq![
                    "-c"@,
                    curl_pipe(
                        url,
                        if tools.pw_play {
                            "pw-play -"@
                        } else {
                            "paplay --raw"@
                        },
                    ),
                ],
            )
        } else {
            rest.len() == 0
        }
    })
}

/// The players to try, in order, to play `url` at a volume on a device (see `planned`).
pub fn spawn_plan(url: &str, volume: u8, device: &str, tools: Tools) -> (plan: Vec<Command>)
    ensures
        planned(url@, volume, device@, tools, plan@),
{
    let vol = crate::text::decimal_string(volume as u64);
    let frac = fraction_text(volume);
    let alsa_dev: &str = if device.unicode_len() == 0 {
        "default"
    } else {
        device
    };
    let mut plan: Vec<Command> = Vec::new();
    if tools.ffplay {
        let args = strings(vec!["-nodisp", "-autoexit", "-loglevel", "quiet", "-volume", vol.as_str(), url]);
        let mut c = command("ffplay", args, false);
        if device.unicode_len() > 0 {
            c.env.push(("AUDIODEV".to_string(), device.to_string()));
            c.env.push(("SDL_AUDIODRIVER".to_string(), "alsa".to_string()));
        }
        plan.push(c);
        assert(runs(plan@[0], "ffplay"@, seq!["-nodisp"@, "-autoexit"@, "-loglevel"@, "quiet"@, "-volume"@, decimal(volume as nat), url@]));
        return plan;
    }
    if tools.mpv {
        let vol_flag = cat("--volume=", vol.as_str());
        let mut args = strings(vec!["--no-video", "--really-quiet", vol_flag.as_str(), url]);
        if device.unicode_len() > 0 {
            args.insert(0, cat("--audio-device=alsa/", device));
        }
        plan.push(command("mpv", args, false));
        proof {
            let want = (if device@.len() == 0 {
                Seq::<Seq<char>>::empty()
            } else {
                seq!["--audio-device=alsa/"@ + device@]
            }) + seq!["--no-video"@, "--really-quiet"@, "--volume="@ + decimal(volume as nat), url@];
            assert(plan@[0].args@.len() == want.len());
            assert forall|k: int| 0 <= k < want.len() implies (#[trigger] plan@[0].args@[k])@ == want[k] by {
                if device@.len() > 0 {
                    if k > 0 {
                        assert(plan@[0].args@[k] == args@[k]);
                    }
                }
            }
        }
        return plan;
    }
    let af = cat("volume=", frac.as_str());
    if tools.ffmpeg {
        let a1 = strings(vec!["-i", url, "-loglevel", "quiet", "-af", af.as_str(), "-f", "alsa", alsa_dev]);
        plan.push(command("ffmpeg", a1, true));
        let a2 = strings(vec!["-i", url, "-loglevel", "quiet", "-af", af.as_str(), "-f", "pulse", "default"]);
        plan.push(command("ffmpeg", a2, true));
    }
    let ghost head = plan@;
    if tools.gst_launch {
        let sink = if device.unicode_len() == 0 {
            "autoaudiosink".to_string()
        } else {
            cat("alsasink device=", device)
        };
        let mut pipeline = cat3("souphttpsrc location=", url, " ! decodebin ! audioconvert ! audioresample ! volume volume=");
        push_str(&mut pipeline, frac.as_str());
        push_str(&mut pipeline, " ! ");
        push_str(&mut pipeline, sink.as_str());
        let args = vec![pipeline];
        plan.push(command("gst-launch-1.0", args, false));
    } else if tools.curl && tools.ffmpeg {
        let mut rest = cat("ffmpeg -i pipe:0 -loglevel quiet -af volume=", frac.as_str());
        push_str(&mut rest, " -f alsa ");
        push_str(&mut rest, alsa_dev);
        let mut line = cat3("curl -sLk '", url, "' | ");
        push_str(&mut line, rest.as_str());
        let args = vec!["-c".to_string(), line];
        plan.push(command("sh", args, false));
    } else if tools.curl && tools.pw_play {
        plan.push(shell_pipe(url, "pw-play -"));
    } else if tools.curl && tools.paplay {
        plan.push(shell_pipe(url, "paplay --raw"));
    }
    proof {
        if tools.ffmpeg {
            assert(plan@.skip(2) =~= plan@.subrange(head.len() as int, plan@.len() as int));
        } else {
            assert(head.len() == 0);
        }
    }
    plan
}

/// The commands that set the system volume to `vol` percent, in order, each failure moving on
/// to the next: `pactl` with a percentage, `wpctl` with a fraction, `amixer` with a percentage.
pub open spec fn volume_plan(vol: nat, plan: Seq<Command>) -> bool {
    &&& plan.len() == 3
    &&& runs(plan[0], "pactl"@, seq!["set-sink-volume"@, "@DEFAULT_SINK@"@, decimal(vol) + "%"@])
    &&& runs(plan[1], "wpctl"@, seq!["set-volume"@, "@DEFAULT_AUDIO_SINK@"@, fraction2(vol)])
    &&& runs(plan[2], "amixer"@, seq!["sset"@, "Master"@, decimal(vol) + "%"@])
    &&& plan[0].fall_through && plan[1].fall_through && plan[2].fall_through
}

/// The commands that set the system volume, in order, each failure moving on to the next:
/// `pactl` with a percentage, `wpctl` with a fraction, `amixer` with a percentage.
pub fn apply_system_volume(vol: u8) -> (plan: Vec<Command>)
    ensures
        volume_plan(vol as nat, plan@),
{
    let mut pct = crate::text::decimal_string(vol as u64);
    push_str(&mut pct, "%");
    let frac = fraction_text(vol);
    let mut plan: Vec<Command> = Vec::new();
    plan.push(command("pactl", strings(vec!["set-sink-volume", "@DEFAULT_SINK@", pct.as_str()]), true));
    plan.push(command("wpctl", strings(vec!["set-volume", "@DEFAULT_AUDIO_SINK@", frac.as_str()]), true));
    plan.push(command("amixer", strings(vec!["sset", "Master", pct.as_str()]), true));
    plan
}

/// Whether a player that exited counts as failed: it exited unsuccessfully within three
/// seconds, which likely means it could not open the audio device.
pub fn failed_early(success: bool, elapsed: Duration) -> (b: bool)
    ensures
        b == (!success && elapsed.secs < 3),
{
    !success && elapsed.secs < 3
}

/// The audio engine's state: the player state, the queue, the volume and the output device.
#[derive(Debug)]
pub struct AudioEngine {
    pub state: PlayerState,
    pub queue: PlayQueue,
    pub volume: u8,
    pub output_device: String,
}

impl TrackInfo {
    /// An equal copy.
    pub fn copy(&self) -> (t: TrackInfo)
        ensures
            t == *self,
    {
        TrackInfo {
            id: self.id.clone(),
            title: self.title.clone(),
            artist: self.artist.clone(),
            album: self.album.clone(),
            duration: self.duration,
        }
    }
}

impl Default for AudioEngine {
    /// A stopped engine with an empty queue at volume 80 on the default device.
    fn default() -> (e: Self)
        ensures
            e.state == PlayerState::Stopped,
            e.queue@.songs.len() == 0,
            e.queue@.wf(),
            e.volume == 80,
            e.output_device@.len() == 0,
    {
        Self::new()
    }
}

impl AudioEngine {
    pub fn new() -> (e: Self)
        ensures
            e.state == PlayerState::Stopped,
            e.queue@.songs.len() == 0,
            e.queue@.wf(),
            e.volume == 80,
            e.output_device@.len() == 0,
    {
        AudioEngine { state: PlayerState::Stopped, queue: PlayQueue::new(), volume: 80, output_device: String::new() }
    }

    /// The engine with an output device.
    pub fn with_device(self, device: &str) -> (e: Self)
        ensures
            e.output_device@ == device@,
            e.state == self.state,
            e.volume == self.volume,
    {
        AudioEngine { output_device: device.to_string(), ..self }
    }

    /// A copy of the player state.
    pub fn state(&self) -> (s: PlayerState)
        ensures
            s == self.state,
    {
        match &self.state {
            PlayerState::Stopped => PlayerState::Stopped,
            PlayerState::Playing { track, position } => PlayerState::Playing { track: track.copy(), position: *position },
            PlayerState::Paused { track, position } => PlayerState::Paused { track: track.copy(), position: *position },
        }
    }

    pub fn queue(&self) -> (q: &PlayQueue)
        ensures
            q == &self.queue,
    {
        &self.queue
    }

    pub fn volume(&self) -> (v: u8)
        ensures
            v == self.volume,
    {
        self.volume
    }

    /// Set the volume, at most 100; returns the commands that apply it to the system.
    pub fn set_volume(&mut self, vol: u8) -> (plan: Vec<Command>)
        ensures
            final(self).volume == if vol <= 100 {
                vol
            } else {
                100u8
            },
            final(self).state == old(self).state,
            final(self).output_device == old(self).output_device,
            final(self).queue == old(self).queue,
            volume_plan(final(self).volume as nat, plan@),
    {
        let v = if vol <= 100 {
            vol
        } else {
            100
        };
        self.volume = v;
        apply_system_volume(v)
    }

    /// The players to try for a URL at the engine's volume and device.
    pub fn play_plan(&self, url: &str, tools: Tools) -> (plan: Vec<Command>)
        ensures
            planned(url@, self.volume, self.output_device@, tools, plan@),
    {
        spawn_plan(url, self.volume, self.output_device.as_str(), tools)
    }

    /// A player started for a track: the state becomes playing from its start.
    pub fn play_started(&mut self, track: TrackInfo)
        ensures
            final(self).state == (PlayerState::Playing { track, position: Duration::spec_zero() }),
            final(self).volume == old(self).volume,
            final(self).output_device == old(self).output_device,
    {
        self.state = PlayerState::play(track);
    }

    /// Pause: remember how far the track played (when known) and become paused.
    pub fn pause(&mut self, played: Option<Duration>)
        ensures
            final(self).volume == old(self).volume,
            final(self).output_device == old(self).output_device,
            final(self).state == (match played {
                Some(p) => match old(self).state {
                    PlayerState::Playing { track, .. } => PlayerState::Paused { track, position: p },
                    PlayerState::Paused { track, .. } => PlayerState::Paused { track, position: p },
                    PlayerState::Stopped => PlayerState::Stopped,
                },
                None => match old(self).state {
                    PlayerState::Playing { track, position } => PlayerState::Paused { track, position },
                    other => other,
                },
            }),
    {
        match played {
            Some(p) => self.state.set_position(p),
            None => {},
        }
        self.state.pause();
    }

    /// Whether a resume should start the player again: only when paused.
    pub fn resume_needed(&self) -> (b: bool)
        ensures
            b == self.state is Paused,
    {
        self.state.is_paused()
    }

    /// The player restarted after a pause: the state plays again.
    pub fn resumed(&mut self)
        ensures
            final(self).state == (match old(self).state {
                PlayerState::Paused { track, position } => PlayerState::Playing { track, position },
                other => other,
            }),
            final(self).volume == old(self).volume,
    {
        self.state.resume();
    }

    /// Stop: the state becomes stopped.
    pub fn stop(&mut self)
        ensures
            final(self).state == PlayerState::Stopped,
            final(self).volume == old(self).volume,
            final(self).output_device == old(self).output_device,
    {
        self.state.stop();
    }

    /// The player exited: the state becomes stopped; the result says whether it failed early.
    pub fn exited(&mut self, success: bool, elapsed: Duration) -> (failed: bool)
        ensures
            final(self).state == PlayerState::Stopped,
            final(self).volume == old(self).volume,
            failed == (!success && elapsed.secs < 3),
    {
        self.state.stop();
        failed_early(success, elapsed)
    }

    /// The position within the track: the time since the player started while it plays,
    /// else the remembered position, else zero.
    pub fn current_position(&self, since_start: Option<Duration>) -> (d: Duration)
        ensures
            d == match since_start {
                Some(t) => if self.state is Playing {
                    t
                } else {
                    match self.state.spec_position() {
                        Some(p) => p,
                        None => Duration::spec_zero(),
                    }
                },
                None => match self.state.spec_position() {
                    Some(p) => p,
                    None => Duration::spec_zero(),
                },
            },
    {
        match since_start {
            Some(t) => if self.state.is_playing() {
                return t;
            },
            None => {},
        }
        match self.state.position() {
            Some(p) => p,
            None => Duration::zero(),
        }
    }
}

} // verus!
