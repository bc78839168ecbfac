//! Recognition of a long press: a touch that stays down, roughly still.
//!
//! Times are in milliseconds, positions in thousandths of a point.

use crate::geo::{dist_sq_within, ScreenPos};
use vstd::prelude::*;

verus! {

/// How long a touch stays down to count as a long press.
pub const LONG_PRESS_MS: i64 = 500;

/// How far a touch may move without becoming a drag.
pub const MOVE_TOLERANCE: u32 = 12_000;

/// A touch that is down.
#[derive(Clone, Copy, Debug, PartialEq, Eq, Structural)]
pub struct PressState {
    pub start_ms: i64,
    pub start_pos: ScreenPos,
    pub fired: bool,
}

/// What a frame shows of the touch.
#[derive(Clone, Copy, Debug)]
pub struct TouchFrame {
    pub down: bool,
    pub pos: Option<ScreenPos>,
    pub now_ms: i64,
}

/// What a frame makes of the touch.
#[derive(Clone, Copy, Debug, PartialEq, Eq)]
pub struct PressOutcome {
    /// Where a long press was recognized.
    pub fired: Option<ScreenPos>,
    /// Whether another frame is wanted, so that the hold goes on being timed.
    pub repaint: bool,
}

/// The touch on one surface.
#[derive(Clone, Copy, Debug, PartialEq, Eq)]
pub struct LongPress {
    pub press: Option<PressState>,
}

/// The touch that a frame continues: the one that is down, or one that begins.
pub open spec fn held(press: Option<PressState>, pos: ScreenPos, now_ms: i64) -> PressState {
    match press {
        Some(p) => p,
        None => PressState { start_ms: now_ms, start_pos: pos, fired: false },
    }
}

/// Whether a touch has moved too far to be a long press.
pub open spec fn strayed(p: PressState, pos: ScreenPos) -> bool {
    crate::geo::dist_sq(pos, p.start_pos) > MOVE_TOLERANCE * MOVE_TOLERANCE
}

/// Whether a touch becomes a long press now.
pub open spec fn ripens(p: PressState, now_ms: int) -> bool {
    !p.fired && now_ms - p.start_ms >= LONG_PRESS_MS
}

/// The touch after a frame, and what the frame makes of it.
pub open spec fn next_press(press: Option<PressState>, f: TouchFrame) -> (
    Option<PressState>,
    PressOutcome,
) {
    if !f.down {
        (None, PressOutcome { fired: None, repaint: false })
    } else if f.pos is None {
        (press, PressOutcome { fired: None, repaint: false })
    } else {
        let pos = f.pos->0;
        let p = held(press, pos, f.now_ms);
        if strayed(p, pos) {
            (
                Some(PressState { start_ms: f.now_ms, start_pos: pos, fired: p.fired }),
                PressOutcome { fired: None, repaint: false },
            )
        } else if ripens(p, f.now_ms as int) {
            (
                Some(PressState { start_ms: p.start_ms, start_pos: p.start_pos, fired: true }),
                PressOutcome { fired: Some(p.start_pos), repaint: false },
            )
        } else {
            (Some(p), PressOutcome { fired: None, repaint: true })
        }
    }
}

impl LongPress {
    /// Takes a frame in. A release clears the touch; a move past the tolerance
    /// starts the hold anew; a touch fires once, where its hold began.
    pub fn detect(&mut self, f: TouchFrame) -> (r: PressOutcome)
        ensures
            (final(self).press, r) == next_press(old(self).press, f),
    {
        if !f.down {
            self.press = None;
            return PressOutcome { fired: None, repaint: false };
        }
        let pos = match f.pos {
            Some(p) => p,
            None => {
                return PressOutcome { fired: None, repaint: false };
            },
        };
        let p = match self.press {
            Some(p) => p,
            None => PressState { start_ms: f.now_ms, start_pos: pos, fired: false },
        };
        if dist_sq_within(pos, p.start_pos, MOVE_TOLERANCE).is_none() {
            self.press = Some(PressState { start_ms: f.now_ms, start_pos: pos, fired: p.fired });
            return PressOutcome { fired: None, repaint: false };
        }
        if !p.fired && f.now_ms as i128 - p.start_ms as i128 >= LONG_PRESS_MS as i128 {
            self.press = Some(
                PressState { start_ms: p.start_ms, start_pos: p.start_pos, fired: true },
            );
            PressOutcome { fired: Some(p.start_pos), repaint: false }
        } else {
            self.press = Some(p);
            PressOutcome { fired: None, repaint: true }
        }
    }
}

/// A touch after a run of frames.
pub open spec fn after_frames(press: Option<PressState>, fs: Seq<TouchFrame>) -> Option<PressState>
    decreases fs.len(),
{
    if fs.len() == 0 {
        press
    } else {
        next_press(after_frames(press, fs.drop_last()), fs.last()).0
    }
}

/// Where a frame of a run fires.
pub open spec fn fired_at(press: Option<PressState>, fs: Seq<TouchFrame>, i: int) -> Option<
    ScreenPos,
> {
    next_press(after_frames(press, fs.take(i)), fs[i]).1.fired
}

/// Of a touch that stays down, however it moves, at most one frame fires.
pub proof fn fires_once_per_press(
    press: Option<PressState>,
    fs: Seq<TouchFrame>,
    i: int,
    j: int,
)
    requires
        forall|k: int| 0 <= k < fs.len() ==> (#[trigger] fs[k]).down,
        0 <= i < fs.len(),
        0 <= j < fs.len(),
        fired_at(press, fs, i) is Some,
        fired_at(press, fs, j) is Some,
    ensures
        i == j,
{
    if i < j {
        lemma_fired_stays(press, fs, i, j);
    } else if j < i {
        lemma_fired_stays(press, fs, j, i);
    }
}

proof fn lemma_fired_stays(press: Option<PressState>, fs: Seq<TouchFrame>, i: int, j: int)
    requires
        forall|k: int| 0 <= k < fs.len() ==> (#[trigger] fs[k]).down,
        0 <= i < j <= fs.len(),
        fired_at(press, fs, i) is Some,
    ensures
        after_frames(press, fs.take(j)) is Some,
        after_frames(press, fs.take(j))->0.fired,
    decreases j,
{
    assert(fs.take(j).drop_last() =~= fs.take(j - 1));
    assert(fs.take(j).last() == fs[j - 1]);
    if j > i + 1 {
        lemma_fired_stays(press, fs, i, j - 1);
    }
}

/// A touch fires only after half a second, and where it began.
pub proof fn fires_only_after_the_hold(press: Option<PressState>, f: TouchFrame)
    requires
        next_press(press, f).1.fired is Some,
    ensures
        press is Some,
        f.now_ms - press->0.start_ms >= LONG_PRESS_MS,
        next_press(press, f).1.fired == Some(press->0.start_pos),
{
}

/// A touch that has stayed within twelve points for half a second fires, where it
/// began; one that has fired does not again.
pub proof fn a_held_touch_fires(p: PressState, pos: ScreenPos, now_ms: i64)
    requires
        crate::geo::dist_sq(pos, p.start_pos) <= 12_000 * 12_000,
    ensures
        ({
            let (after, r) = next_press(
                Some(p),
                TouchFrame { down: true, pos: Some(pos), now_ms },
            );
            &&& !p.fired && now_ms - p.start_ms >= 500 ==> r.fired == Some(p.start_pos) && after
                == Some(PressState { fired: true, ..p })
            &&& p.fired || now_ms - p.start_ms < 500 ==> r.fired is None && after == Some(p)
            &&& r.repaint <==> r.fired is None
        }),
{
}

/// A touch that strays further begins anew where it is, and stays fired if it was.
pub proof fn a_straying_touch_begins_anew(p: PressState, pos: ScreenPos, now_ms: i64)
    requires
        crate::geo::dist_sq(pos, p.start_pos) > 12_000 * 12_000,
    ensures
        next_press(Some(p), TouchFrame { down: true, pos: Some(pos), now_ms }) == (
            Some(PressState { start_ms: now_ms, start_pos: pos, fired: p.fired }),
            PressOutcome { fired: None, repaint: false },
        ),
{
}

/// Lifting ends a press; the first frame of a touch begins one; a frame without a
/// position leaves it.
pub proof fn a_press_lasts_from_touch_to_lift(
    press: Option<PressState>,
    pos: ScreenPos,
    now_ms: i64,
)
    ensures
        next_press(press, TouchFrame { down: false, pos: Some(pos), now_ms }).0 is None,
        next_press(press, TouchFrame { down: false, pos: None, now_ms }).0 is None,
        next_press(press, TouchFrame { down: true, pos: None, now_ms }).0 == press,
        next_press(None, TouchFrame { down: true, pos: Some(pos), now_ms }).0 == Some(
            PressState { start_ms: now_ms, start_pos: pos, fired: false },
        ),
        next_press(None, TouchFrame { down: true, pos: Some(pos), now_ms }).1.fired is None,
{
    crate::geo::distance_is_mutual(pos, pos);
}

} // verus!
