//! The playhead: where it stands, how fast it moves, and what it follows.
//!
//! Times are in milliseconds from the epoch.

use vstd::prelude::*;

verus! {

/// What the playhead follows.
#[derive(Clone, Copy, Debug, PartialEq, Eq, Structural)]
pub enum TimeModel {
    /// Nothing: it stands where it was put, or plays the archive.
    Free,
    /// The present moment.
    Pinned,
    /// A loop that ends at the present moment.
    Lookback,
}

/// How playback moves: from frame to frame, or through time.
#[derive(Clone, Copy, Debug, PartialEq, Eq, Structural)]
pub enum PlaybackMode {
    Macro,
    Micro,
}

/// State of the playhead.
#[derive(Clone, Copy, Debug)]
pub struct PlaybackState {
    pub position_ms: i64,
    pub playing: bool,
    pub mode: PlaybackMode,
    /// Milliseconds of data shown in a second.
    pub speed_ms_per_sec: i64,
    pub time_model: TimeModel,
    pub selection: Option<(i64, i64)>,
}

impl PlaybackState {
    /// Whether the playhead is at the live edge or in the loop behind it.
    #[verifier::allow_in_spec]
    pub fn is_tethered(&self) -> bool
        returns
            self.time_model != TimeModel::Free,
    {
        match self.time_model {
            TimeModel::Free => false,
            _ => true,
        }
    }

    /// Whether what is shown moves on: the archive plays, or the playhead is at the
    /// live edge, where the feed itself does.
    pub fn is_advancing(&self) -> (b: bool)
        ensures
            b == (self.playing || self.time_model == TimeModel::Pinned),
    {
        self.playing || match self.time_model {
            TimeModel::Pinned => true,
            _ => false,
        }
    }
}

impl Default for PlaybackState {
    fn default() -> (s: Self)
        ensures
            s.position_ms == 0,
            !s.playing,
            s.mode == PlaybackMode::Macro,
            s.speed_ms_per_sec == 1000,
            s.time_model == TimeModel::Free,
            s.selection is None,
    {
        PlaybackState {
            position_ms: 0,
            playing: false,
            mode: PlaybackMode::Macro,
            speed_ms_per_sec: 1000,
            time_model: TimeModel::Free,
            selection: None,
        }
    }
}

/// Owner of the playhead's state.
#[derive(Clone, Copy, Debug)]
pub struct Playback {
    pub state: PlaybackState,
}

impl Default for Playback {
    fn default() -> (p: Self)
        ensures
            p.state.position_ms == 0,
            !p.state.playing,
            p.state.mode == PlaybackMode::Macro,
            p.state.speed_ms_per_sec == 1000,
            p.state.time_model == TimeModel::Free,
            p.state.selection is None,
    {
        Playback { state: PlaybackState::default() }
    }
}

/// A playhead is tethered unless it is free, and moves while it plays or follows the
/// stream.
pub proof fn a_playhead_moves_while_playing_or_pinned(p: &PlaybackState, b: bool)
    requires
        call_ensures(PlaybackState::is_advancing, (p,), b),
    ensures
        p.is_tethered() <==> p.time_model == TimeModel::Pinned || p.time_model
            == TimeModel::Lookback,
        p.playing ==> b,
        p.time_model == TimeModel::Pinned ==> b,
        !p.playing && p.time_model != TimeModel::Pinned ==> !b,
{
}

} // verus!
