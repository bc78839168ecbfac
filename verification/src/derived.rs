//! What every surface of a frame reads: derived once, at its start.

use crate::geo::GeoBounds;
use crate::playback::{Playback, PlaybackMode};
use vstd::prelude::*;

verus! {

/// What the frame is derived from.
#[derive(Clone, Copy, Debug)]
pub struct FrameInputs {
    /// Milliseconds from the epoch.
    pub now_ms: i64,
    /// What the canvas showed in the frame before.
    pub last_visible_bounds: Option<GeoBounds>,
    /// Whether the playhead is near enough to the present for live overlays.
    pub data_is_live: bool,
    pub sweep_animation: bool,
    pub advanced: bool,
}

/// What every surface of a frame reads.
#[derive(Clone, Copy, Debug)]
pub struct Derived {
    pub frame_now_ms: i64,
    pub visible_bounds: Option<GeoBounds>,
    pub data_is_live: bool,
    pub effective_sweep_animation: bool,
}

impl Derived {
    /// The frame's snapshot. Sweeps are animated where that is asked for, while
    /// playback moves through time, for advanced users.
    pub fn for_frame(inputs: FrameInputs, playback: &Playback) -> (d: Self)
        ensures
            d.frame_now_ms == inputs.now_ms,
            d.visible_bounds == inputs.last_visible_bounds,
            d.data_is_live == inputs.data_is_live,
            d.effective_sweep_animation == (inputs.sweep_animation && playback.state.mode
                == PlaybackMode::Micro && inputs.advanced),
    {
        Derived {
            frame_now_ms: inputs.now_ms,
            visible_bounds: inputs.last_visible_bounds,
            data_is_live: inputs.data_is_live,
            effective_sweep_animation: inputs.sweep_animation && playback.state.mode
                == PlaybackMode::Micro && inputs.advanced,
        }
    }
}

/// The sweep is animated where that is wanted, in micro playback, by those who want
/// everything.
pub proof fn sweeps_are_animated_in_micro_playback(
    inputs: FrameInputs,
    playback: &Playback,
    d: Derived,
)
    requires
        call_ensures(Derived::for_frame, (inputs, playback), d),
    ensures
        d.effective_sweep_animation ==> inputs.sweep_animation && inputs.advanced
            && playback.state.mode == PlaybackMode::Micro,
        inputs.sweep_animation && inputs.advanced && playback.state.mode == PlaybackMode::Micro
            ==> d.effective_sweep_animation,
        d.frame_now_ms == inputs.now_ms,
        d.visible_bounds == inputs.last_visible_bounds,
        d.data_is_live == inputs.data_is_live,
{
}

} // verus!
