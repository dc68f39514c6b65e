//! Playback controller: session lifecycle and crossfade transitions.
//!
//! The controller decides; the surrounding application performs. It
//! never spawns or kills a decoder itself: the application asks for a
//! [`StartDecision`], spawns the decoder when one is due, and hands the
//! spawn outcome back to [`Player::play_station`], which updates the
//! session bookkeeping and the shared visualization state and tells the
//! application which timed effects to run. Timer expirations come back
//! through [`Player::on_overlap_elapsed`] and
//! [`Player::on_crossfade_window_elapsed`]. Decoder processes are named
//! by opaque handles the application assigns.

use vstd::prelude::*;

use crate::audio::{AudioState, AudioVisualizer, vol_down, vol_up};
use crate::strutil::concat_str;

verus! {

/// Overlap during which the old and the new decoder both run, in
/// milliseconds.
pub const CROSSFADE_OVERLAP_MS: u64 = 1500;

/// Full length of a crossfade window, matching the fade of the tuning
/// effect, in milliseconds.
pub const CROSSFADE_WINDOW_MS: u64 = 6000;

/// One playback session: the station playing and the handle of its
/// decoder process.
#[derive(Clone)]
pub struct PlaybackSession {
    pub station_name: String,
    pub url: String,
    pub handle: u64,
}

/// What a start request on the current state would do.
#[derive(Clone, Copy, PartialEq, Eq, Structural, Debug)]
pub enum StartDecision {
    /// No session is active: spawn at once, no overlap.
    Immediate,
    /// A session is active and no transition is in flight: spawn the
    /// new decoder beside the old one and begin a crossfade.
    Crossfade,
    /// A transition is already in flight: do not spawn a further
    /// decoder.
    Rejected,
}

/// What the application must run after a successful start.
#[derive(Clone, Copy, PartialEq, Eq, Structural, Debug)]
pub struct StartEffects {
    /// Whether to play the transitional tuning effect.
    pub play_effect: bool,
    /// Delay before the old decoder is terminated.
    pub overlap_ms: u64,
    /// Delay before the crossfade token is cleared.
    pub total_window_ms: u64,
}

/// The playback controller.
pub struct Player {
    /// The active session, if any.
    pub current_player: Option<PlaybackSession>,
    /// Mute flag, reset when playback stops.
    pub is_muted: bool,
    /// The crossfade token: true while a transition window is open.
    /// At most one transition is active at a time.
    pub crossfade_active: bool,
    /// Handle of the superseded decoder, alive until the overlap
    /// elapses; terminated exactly once.
    pub pending_old: Option<u64>,
}

/// The decision a start request meets in state `p`.
pub open spec fn spec_start_decision(p: Player) -> StartDecision {
    if p.crossfade_active {
        StartDecision::Rejected
    } else if p.current_player is Some {
        StartDecision::Crossfade
    } else {
        StartDecision::Immediate
    }
}

/// Controller state after a successful spawn of `handle` for a new
/// station: the new session replaces the old one; if a session was
/// active its decoder becomes the pending old one and the crossfade
/// token is raised.
pub open spec fn spec_after_start(p: Player, name: String, url: String, handle: u64) -> Player {
    Player {
        current_player: Some(PlaybackSession { station_name: name, url, handle }),
        is_muted: p.is_muted,
        crossfade_active: p.current_player is Some,
        pending_old: if p.current_player is Some {
            Some(p.current_player->0.handle)
        } else {
            p.pending_old
        },
    }
}

/// Controller state once the overlap has elapsed, with the handle to
/// terminate; a second expiration finds nothing left to terminate.
pub open spec fn spec_after_overlap(p: Player) -> (Player, Option<u64>) {
    (Player { pending_old: None, ..p }, p.pending_old)
}

/// Controller state once the full crossfade window has elapsed: the
/// token is cleared.
pub open spec fn spec_after_window(p: Player) -> Player {
    Player { crossfade_active: false, ..p }
}

impl Player {
    pub fn new() -> (r: Self)
        ensures
            r.current_player is None,
            !r.is_muted,
            !r.crossfade_active,
            r.pending_old is None,
    {
        Player { current_player: None, is_muted: false, crossfade_active: false, pending_old: None }
    }

    /// What a start request would do right now. The application spawns
    /// a decoder only when this is not `Rejected`: during an open
    /// crossfade window no further decoder may be started.
    pub fn start_decision(&self) -> (r: StartDecision)
        ensures
            r == spec_start_decision(*self),
    {
        if self.crossfade_active {
            StartDecision::Rejected
        } else if self.current_player.is_some() {
            StartDecision::Crossfade
        } else {
            StartDecision::Immediate
        }
    }

    /// Records the outcome of a decoder spawn for `station_name`.
    ///
    /// On success the new session is installed, the stream information
    /// is set to its detecting placeholders and the state is marked
    /// playing; when an old session was active, its decoder is kept as
    /// the pending old handle, the crossfade token is raised, and the
    /// returned effects ask for the tuning sound and the two timed
    /// waits. On a spawn failure nothing of the controller changes, the
    /// stream information shows the error, the playing flag is left as
    /// it was, and the error is returned to the caller.
    pub fn play_station(
        &mut self,
        station_name: String,
        url: String,
        visualizer: &mut AudioVisualizer,
        spawn: Result<u64, String>,
    ) -> (r: Result<StartEffects, String>)
        requires
            !old(self).crossfade_active,
        ensures
            spawn is Ok ==> {
                &&& *final(self) == spec_after_start(*old(self), station_name, url, spawn->Ok_0)
                &&& r is Ok
                &&& r->Ok_0 == (StartEffects {
                    play_effect: old(self).current_player is Some,
                    overlap_ms: CROSSFADE_OVERLAP_MS,
                    total_window_ms: CROSSFADE_WINDOW_MS,
                })
                &&& final(visualizer).state == (AudioState {
                    is_playing: true,
                    stream_info: final(visualizer).state.stream_info,
                    ..old(visualizer).state
                })
                &&& final(visualizer).state.stream_info is Some
                &&& final(visualizer).state.stream_info->0.station_name@ == station_name@
                &&& final(visualizer).state.stream_info->0.bitrate@ == "Detecting..."@
                &&& final(visualizer).state.stream_info->0.format@ == "Detecting..."@
                &&& final(visualizer).state.stream_info->0.current_song is None
            },
            spawn is Err ==> {
                &&& *final(self) == *old(self)
                &&& r is Err
                &&& r->Err_0@ == spawn->Err_0@
                &&& final(visualizer).state == (AudioState {
                    stream_info: final(visualizer).state.stream_info,
                    ..old(visualizer).state
                })
                &&& final(visualizer).state.stream_info is Some
                &&& final(visualizer).state.stream_info->0.station_name@ == station_name@
                &&& final(visualizer).state.stream_info->0.bitrate@ == "Error"@
                &&& final(visualizer).state.stream_info->0.format@ == "Failed to start: "@
                    + spawn->Err_0@
                &&& final(visualizer).state.stream_info->0.current_song is None
            },
    {
        match spawn {
            Ok(handle) => {
                let starting_fresh = self.current_player.is_none();
                let old_handle: Option<u64> = match &self.current_player {
                    Some(session) => Some(session.handle),
                    None => None,
                };
                visualizer.set_stream_info(
                    station_name.clone(),
                    String::from_str("Detecting..."),
                    String::from_str("Detecting..."),
                );
                visualizer.set_playing(true);
                if !starting_fresh {
                    self.pending_old = old_handle;
                    self.crossfade_active = true;
                }
                self.current_player = Some(PlaybackSession { station_name, url, handle });
                Ok(StartEffects {
                    play_effect: !starting_fresh,
                    overlap_ms: CROSSFADE_OVERLAP_MS,
                    total_window_ms: CROSSFADE_WINDOW_MS,
                })
            },
            Err(e) => {
                visualizer.set_stream_info(
                    station_name,
                    String::from_str("Error"),
                    concat_str("Failed to start: ", e.as_str()),
                );
                Err(e)
            },
        }
    }

    /// The overlap of a crossfade has elapsed: hands out the handle of
    /// the superseded decoder, to be terminated now. A second call
    /// finds none, so the old decoder is terminated exactly once.
    pub fn on_overlap_elapsed(&mut self) -> (kill: Option<u64>)
        ensures
            (*final(self), kill) == spec_after_overlap(*old(self)),
    {
        self.pending_old.take()
    }

    /// The full crossfade window has elapsed: the token is cleared and
    /// a next start request may begin a new transition.
    pub fn on_crossfade_window_elapsed(&mut self)
        ensures
            *final(self) == spec_after_window(*old(self)),
    {
        self.crossfade_active = false;
    }

    /// Stops playback: hands out the handles of the active and of any
    /// pending old decoder for termination, clears the session and
    /// resets the mute flag. Idempotent; the crossfade token is left to
    /// its timer.
    pub fn stop(&mut self) -> (kills: (Option<u64>, Option<u64>))
        ensures
            final(self).current_player is None,
            final(self).pending_old is None,
            !final(self).is_muted,
            final(self).crossfade_active == old(self).crossfade_active,
            kills.0 == (match old(self).current_player {
                Some(s) => Some(s.handle),
                None => None,
            }),
            kills.1 == old(self).pending_old,
    {
        let current: Option<u64> = match self.current_player.take() {
            Some(session) => Some(session.handle),
            None => None,
        };
        let pending = self.pending_old.take();
        self.is_muted = false;
        (current, pending)
    }

    /// Flips the mute flag and mirrors it into the visualization
    /// state. The signal to the decoder is best effort and is the
    /// application's business; without a running session this reports
    /// an error, as there is no decoder to signal.
    pub fn toggle_mute(&mut self, visualizer: &mut AudioVisualizer) -> (r: Result<(), String>)
        ensures
            *final(self) == (Player { is_muted: !old(self).is_muted, ..*old(self) }),
            final(visualizer).state == (AudioState {
                is_muted: !old(self).is_muted,
                ..old(visualizer).state
            }),
            r is Ok <==> old(self).current_player is Some,
            r is Err ==> r->Err_0@ == "No player is currently running"@,
    {
        self.is_muted = !self.is_muted;
        visualizer.set_muted(self.is_muted);
        if self.current_player.is_some() {
            Ok(())
        } else {
            Err(String::from_str("No player is currently running"))
        }
    }

    /// Raises the volume one step while a session runs; without one,
    /// reports an error and changes nothing.
    pub fn volume_up(&mut self, visualizer: &mut AudioVisualizer) -> (r: Result<(), String>)
        ensures
            *final(self) == *old(self),
            r is Ok <==> old(self).current_player is Some,
            old(self).current_player is Some ==> final(visualizer).state == (AudioState {
                volume: vol_up(old(visualizer).state.volume as int) as u8,
                ..old(visualizer).state
            }),
            old(self).current_player is None ==> *final(visualizer) == *old(visualizer),
            r is Err ==> r->Err_0@ == "No player is currently running"@,
    {
        if self.current_player.is_some() {
            visualizer.increase_volume();
            Ok(())
        } else {
            Err(String::from_str("No player is currently running"))
        }
    }

    /// Lowers the volume one step while a session runs; without one,
    /// reports an error and changes nothing.
    pub fn volume_down(&mut self, visualizer: &mut AudioVisualizer) -> (r: Result<(), String>)
        ensures
            *final(self) == *old(self),
            r is Ok <==> old(self).current_player is Some,
            old(self).current_player is Some ==> final(visualizer).state == (AudioState {
                volume: vol_down(old(visualizer).state.volume as int) as u8,
                ..old(visualizer).state
            }),
            old(self).current_player is None ==> *final(visualizer) == *old(visualizer),
            r is Err ==> r->Err_0@ == "No player is currently running"@,
    {
        if self.current_player.is_some() {
            visualizer.decrease_volume();
            Ok(())
        } else {
            Err(String::from_str("No player is currently running"))
        }
    }

    /// Metadata updates arrive through the background reader of the
    /// decoder's output, not through polling; this keeps the calling
    /// convention of the main loop and changes nothing.
    pub fn update_metadata(&mut self, _visualizer: &AudioVisualizer)
        ensures
            *final(self) == *old(self),
    {
    }
}

/// Two start requests inside one transition window terminate the first
/// decoder exactly once and clear the token exactly once: a start that
/// finds a session begins a crossfade and raises the token; while the
/// token is up a further start is rejected, so no third decoder
/// appears; the overlap timer hands out the old handle once and a
/// repeat finds none; the window timer leaves the token cleared, so it
/// is never stuck.
pub proof fn lemma_crossfade_exclusivity(p0: Player, name: String, url: String, handle: u64)
    requires
        !p0.crossfade_active,
        p0.current_player is Some,
    ensures
        ({
            let p1 = spec_after_start(p0, name, url, handle);
            &&& p1.crossfade_active
            &&& spec_start_decision(p1) is Rejected
            &&& spec_after_overlap(p1).1 == Some(p0.current_player->0.handle)
            &&& spec_after_overlap(spec_after_overlap(p1).0).1 is None
            &&& !spec_after_window(spec_after_overlap(p1).0).crossfade_active
            &&& spec_after_window(spec_after_overlap(p1).0).current_player
                == p1.current_player
        }),
{
}

} // verus!
