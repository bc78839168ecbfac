//! The desktop's bottom panel: its height, and the key that plays.
//!
//! Heights are in thousandths of a point.

use crate::playback::{PlaybackMode, PlaybackState};
use vstd::prelude::*;

verus! {

/// Height of the top bar.
pub const TOP_BAR_HEIGHT: i64 = 36_000;

/// Height that the canvas keeps.
pub const MIN_CENTRAL_HEIGHT: i64 = 100_000;

/// Height that an open drawer takes besides its own.
pub const DRAWER_OVERHEAD: i64 = 14_000;

/// Least and greatest height of the drawer.
pub const DRAWER_MIN: i64 = 100_000;

pub const DRAWER_MAX: i64 = 600_000;

/// The panel's heights.
#[derive(Clone, Copy, Debug, PartialEq, Eq)]
pub struct PanelHeights {
    pub drawer: i64,
    pub total: i64,
}

/// The drawer is open only in developer mode.
pub fn drawer_shown(dev_mode: bool, expanded: bool) -> (b: bool)
    ensures
        b == (dev_mode && expanded),
{
    dev_mode && expanded
}

/// The panel's heights: an open drawer takes its own height, as far as the top
/// bar, the canvas and the controls leave it.
pub open spec fn heights_of(viewport: int, controls: int, drawer: Option<int>) -> (int, int) {
    let room = viewport - TOP_BAR_HEIGHT - MIN_CENTRAL_HEIGHT - controls - DRAWER_OVERHEAD;
    match drawer {
        Some(h) => {
            let most = if room < 0 {
                0
            } else {
                room
            };
            let shown = if h < most {
                h
            } else {
                most
            };
            (shown, controls + DRAWER_OVERHEAD + shown)
        },
        None => (0, controls),
    }
}

/// The panel's heights. `drawer` is the drawer's own height, where it is open.
pub fn panel_heights(viewport: u32, controls: u32, drawer: Option<u32>) -> (p: PanelHeights)
    ensures
        (p.drawer as int, p.total as int) == heights_of(
            viewport as int,
            controls as int,
            match drawer {
                Some(h) => Some(h as int),
                None => None,
            },
        ),
{
    let controls: i64 = controls as i64;
    match drawer {
        Some(h) => {
            let room: i64 = viewport as i64 - TOP_BAR_HEIGHT - MIN_CENTRAL_HEIGHT - controls
                - DRAWER_OVERHEAD;
            let most: i64 = if room < 0 {
                0
            } else {
                room
            };
            let shown: i64 = if (h as i64) < most {
                h as i64
            } else {
                most
            };
            PanelHeights { drawer: shown, total: controls + DRAWER_OVERHEAD + shown }
        },
        None => PanelHeights { drawer: 0, total: controls },
    }
}

/// Wherever the controls fit, the panel leaves the canvas its height.
pub proof fn the_canvas_keeps_its_height(viewport: int, controls: int, drawer: Option<int>)
    requires
        TOP_BAR_HEIGHT + MIN_CENTRAL_HEIGHT + controls + DRAWER_OVERHEAD <= viewport,
    ensures
        heights_of(viewport, controls, drawer).1 + TOP_BAR_HEIGHT + MIN_CENTRAL_HEIGHT <= viewport,
{
}

/// The drawer's height after its edge was dragged: upward is higher.
pub fn resized_drawer(height: u32, drag_y: i32) -> (h: u32)
    ensures
        h == crate::modal_states::clamped(
            height - drag_y,
            DRAWER_MIN as int,
            DRAWER_MAX as int,
        ),
{
    let wanted: i64 = height as i64 - drag_y as i64;
    let kept: i64 = if wanted < DRAWER_MIN {
        DRAWER_MIN
    } else if wanted > DRAWER_MAX {
        DRAWER_MAX
    } else {
        wanted
    };
    kept as u32
}

/// Whether the space bar plays or pauses: alone, and while no text is edited.
pub fn space_toggles(pressed: bool, modified: bool, has_focus: bool) -> (b: bool)
    ensures
        b == (pressed && !modified && !has_focus),
{
    pressed && !modified && !has_focus
}

/// How playback advances in a frame.
#[derive(Clone, Copy, Debug, PartialEq, Eq, Structural)]
pub enum Advance {
    Still,
    /// Through time.
    Smooth,
    /// From frame to frame.
    Frames,
}

/// How playback advances in a frame: a loop behind the live edge goes from frame
/// to frame, whatever the mode.
pub fn advance(playback: &PlaybackState) -> (a: Advance)
    ensures
        a == (if !playback.playing {
            Advance::Still
        } else if playback.time_model == crate::playback::TimeModel::Lookback || playback.mode
            == PlaybackMode::Macro {
            Advance::Frames
        } else {
            Advance::Smooth
        }),
{
    if !playback.playing {
        Advance::Still
    } else if playback.time_model == crate::playback::TimeModel::Lookback || playback.mode
        == PlaybackMode::Macro {
        Advance::Frames
    } else {
        Advance::Smooth
    }
}

/// The drawer gets the height it asks for where the window has room, and otherwise
/// what is left; the panel is as high as its controls, with the drawer and its frame
/// where that is open.
pub proof fn the_drawer_gets_what_there_is(viewport: int, controls: int, drawer: int)
    requires
        drawer >= 0,
        controls >= 0,
    ensures
        ({
            let room = viewport - 36_000 - 100_000 - controls - 14_000;
            let (shown, total) = heights_of(viewport, controls, Some(drawer));
            &&& 0 <= shown <= drawer
            &&& drawer <= room ==> shown == drawer
            &&& 0 <= room < drawer ==> shown == room
            &&& room < 0 ==> shown == 0
            &&& total == controls + 14_000 + shown
            &&& heights_of(viewport, controls, None) == (0int, controls)
        }),
{
}

/// Playback moves by frames in macro mode and in a lookback, and smoothly otherwise;
/// a paused one stands still.
pub proof fn playback_moves_by_frames_or_smoothly(playback: &PlaybackState, a: Advance)
    requires
        call_ensures(advance, (playback,), a),
    ensures
        !playback.playing <==> a == Advance::Still,
        playback.playing && playback.mode == PlaybackMode::Macro ==> a == Advance::Frames,
        playback.playing && playback.time_model == crate::playback::TimeModel::Lookback ==> a
            == Advance::Frames,
        playback.playing && playback.mode == PlaybackMode::Micro && playback.time_model
            != crate::playback::TimeModel::Lookback ==> a == Advance::Smooth,
{
}

/// Dragging the upper edge upwards makes the drawer higher by as much, within its
/// limits.
pub proof fn dragging_up_makes_the_drawer_higher(height: u32, drag_y: i32, h: u32)
    requires
        call_ensures(resized_drawer, (height, drag_y), h),
    ensures
        100_000 <= h <= 600_000,
        100_000 <= height - drag_y <= 600_000 ==> h + drag_y == height,
        height - drag_y < 100_000 ==> h == 100_000,
        height - drag_y > 600_000 ==> h == 600_000,
{
}

/// The space bar plays and pauses, unless another key is held or a text is edited.
pub proof fn the_space_bar_leaves_text_alone(pressed: bool, modified: bool, has_focus: bool, b: bool)
    requires
        call_ensures(space_toggles, (pressed, modified, has_focus), b),
    ensures
        b ==> pressed && !modified && !has_focus,
        pressed && !modified && !has_focus ==> b,
{
}

} // verus!
