use vstd::prelude::*;

use crate::duration::Duration;

verus! {

/// Metadata about the currently playing track.
#[derive(Debug, Clone)]
pub struct TrackInfo {
    pub id: String,
    pub title: String,
    pub artist: String,
    pub album: String,
    pub duration: Duration,
}

/// Player state machine.
///
/// Valid transitions:
/// - Stopped → Playing (play)
/// - Playing → Paused (pause)
/// - Playing → Stopped (stop)
/// - Paused → Playing (resume)
/// - Paused → Stopped (stop)
#[derive(Debug, Clone)]
pub enum PlayerState {
    Stopped,
    Playing { track: TrackInfo, position: Duration },
    Paused { track: TrackInfo, position: Duration },
}

impl PlayerState {
    /// The track of a playing or paused state.
    pub open spec fn spec_track(self) -> Option<TrackInfo> {
        match self {
            PlayerState::Stopped => None,
            PlayerState::Playing { track, .. } => Some(track),
            PlayerState::Paused { track, .. } => Some(track),
        }
    }

    /// The position of a playing or paused state.
    pub open spec fn spec_position(self) -> Option<Duration> {
        match self {
            PlayerState::Stopped => None,
            PlayerState::Playing { position, .. } => Some(position),
            PlayerState::Paused { position, .. } => Some(position),
        }
    }

    /// Start playing a track from its beginning.
    pub fn play(track: TrackInfo) -> (s: PlayerState)
        ensures
            s == (PlayerState::Playing { track, position: Duration::spec_zero() }),
    {
        PlayerState::Playing { track, position: Duration::zero() }
    }

    /// Playing becomes Paused at the same track and position; any other state is unchanged.
    pub fn pause(&mut self)
        ensures
            *final(self) == (match *old(self) {
                PlayerState::Playing { track, position } => PlayerState::Paused { track, position },
                other => other,
            }),
    {
        if self.is_playing() {
            let mut taken = PlayerState::Stopped;
            std::mem::swap(&mut taken, self);
            if let PlayerState::Playing { track, position } = taken {
                *self = PlayerState::Paused { track, position };
            }
        }
    }

    /// Paused becomes Playing at the same track and position; any other state is unchanged.
    pub fn resume(&mut self)
        ensures
            *final(self) == (match *old(self) {
                PlayerState::Paused { track, position } => PlayerState::Playing { track, position },
                other => other,
            }),
    {
        if self.is_paused() {
            let mut taken = PlayerState::Stopped;
            std::mem::swap(&mut taken, self);
            if let PlayerState::Paused { track, position } = taken {
                *self = PlayerState::Playing { track, position };
            }
        }
    }

    /// Any state becomes Stopped.
    pub fn stop(&mut self)
        ensures
            *final(self) == PlayerState::Stopped,
    {
        *self = PlayerState::Stopped;
    }

    pub fn is_stopped(&self) -> (b: bool)
        ensures
            b == (*self is Stopped),
    {
        matches!(self, PlayerState::Stopped)
    }

    pub fn is_playing(&self) -> (b: bool)
        ensures
            b == (*self is Playing),
    {
        matches!(self, PlayerState::Playing { .. })
    }

    pub fn is_paused(&self) -> (b: bool)
        ensures
            b == (*self is Paused),
    {
        matches!(self, PlayerState::Paused { .. })
    }

    /// The current track, if playing or paused.
    pub fn track(&self) -> (t: Option<&TrackInfo>)
        ensures
            match t {
                Some(tr) => self.spec_track() == Some(*tr),
                None => self.spec_track() is None,
            },
    {
        match self {
            PlayerState::Playing { track, .. } => Some(track),
            PlayerState::Paused { track, .. } => Some(track),
            PlayerState::Stopped => None,
        }
    }

    /// The current position, if playing or paused.
    pub fn position(&self) -> (p: Option<Duration>)
        ensures
            p == self.spec_position(),
    {
        match self {
            PlayerState::Playing { position, .. } => Some(*position),
            PlayerState::Paused { position, .. } => Some(*position),
            PlayerState::Stopped => None,
        }
    }

    /// Move the position of a playing or paused state; a stopped state is unchanged.
    pub fn set_position(&mut self, new_pos: Duration)
        ensures
            *final(self) == (match *old(self) {
                PlayerState::Playing { track, .. } => PlayerState::Playing { track, position: new_pos },
                PlayerState::Paused { track, .. } => PlayerState::Paused { track, position: new_pos },
                PlayerState::Stopped => PlayerState::Stopped,
            }),
    {
        match self {
            PlayerState::Playing { position, .. } => {
                *position = new_pos;
            },
            PlayerState::Paused { position, .. } => {
                *position = new_pos;
            },
            PlayerState::Stopped => {},
        }
    }
}

/// Pausing a playing state and resuming it gives back the same state.
pub proof fn lemma_pause_resume_round_trip(s: PlayerState)
    requires
        s is Playing,
    ensures
        ({
            let paused = match s {
                PlayerState::Playing { track, position } => PlayerState::Paused { track, position },
                other => other,
            };
            let resumed = match paused {
                PlayerState::Paused { track, position } => PlayerState::Playing { track, position },
                other => other,
            };
            resumed == s && paused.spec_track() == s.spec_track()
                && paused.spec_position() == s.spec_position()
        }),
{
}

} // verus!
