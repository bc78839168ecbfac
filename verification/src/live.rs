//! Live mode: the stream, whether the playhead follows it, and what each frame
//! knows of what comes next.
//!
//! Times are in milliseconds from the epoch.

use crate::playback::{PlaybackState, TimeModel};
use vstd::prelude::*;

verus! {

/// Where the stream stands.
#[derive(Clone, Copy, Debug, PartialEq, Eq, Structural)]
pub enum LivePhase {
    Idle,
    AcquiringLock,
    Streaming,
    WaitingForChunk,
}

/// Why live mode ended.
#[derive(Clone, Copy, Debug, PartialEq, Eq, Structural)]
pub enum LiveExitReason {
    UserStopped,
    ConnectionError,
    DetachedTimeout,
}

/// What the workbench as a whole is doing.
#[derive(Clone, Copy, Debug, PartialEq, Eq, Structural)]
pub enum AppMode {
    Idle,
    Archive,
    Live,
}

/// State of the stream.
#[derive(Clone, Copy, Debug, PartialEq, Eq)]
pub struct LiveModeState {
    pub phase: LivePhase,
    /// Since when the playhead has been away from the live edge.
    pub detached_since_ms: Option<i64>,
    pub last_exit_reason: Option<LiveExitReason>,
}

impl LiveModeState {
    /// Whether the stream runs.
    #[verifier::allow_in_spec]
    pub fn is_active(&self) -> bool
        returns
            self.phase != LivePhase::Idle,
    {
        match self.phase {
            LivePhase::Idle => false,
            _ => true,
        }
    }

    /// State of a stream that never ran.
    pub fn new() -> (s: Self)
        ensures
            s == (LiveModeState {
                phase: LivePhase::Idle,
                detached_since_ms: None,
                last_exit_reason: None,
            }),
    {
        LiveModeState { phase: LivePhase::Idle, detached_since_ms: None, last_exit_reason: None }
    }
}

/// A sweep of the running or the next volume.
#[derive(Clone, Copy, Debug, PartialEq, Eq, Structural)]
pub struct PlannedSweep {
    pub elevation_number: u8,
    /// Thousandths of a degree.
    pub angle: i32,
}

/// The sweep that the stream is to deliver next.
#[derive(Clone, Copy, Debug, PartialEq, Eq)]
pub struct ExpectedSweep {
    pub elevation_number: Option<u8>,
    pub angle: Option<i32>,
}

/// The running volume, and the one expected after it.
#[derive(Clone, Debug)]
pub struct LiveScan {
    pub sweeps: Vec<PlannedSweep>,
    pub next: Option<Vec<PlannedSweep>>,
}

/// What is known ahead of time.
#[derive(Clone, Debug)]
pub struct Projection {
    pub live_scan: Option<LiveScan>,
    /// The sweep that the plan expects next.
    pub expected: Option<ExpectedSweep>,
    /// How long until the next chunk can be fetched.
    pub next_available_in_ms: Option<i64>,
}

/// Angle of the first sweep with an elevation's number.
pub open spec fn first_angle(sweeps: Seq<PlannedSweep>, number: u8) -> Option<i32>
    decreases sweeps.len(),
{
    if sweeps.len() == 0 {
        None
    } else if sweeps[0].elevation_number == number {
        Some(sweeps[0].angle)
    } else {
        first_angle(sweeps.drop_first(), number)
    }
}

fn find_angle(sweeps: &Vec<PlannedSweep>, number: u8) -> (r: Option<i32>)
    ensures
        r == first_angle(sweeps@, number),
{
    let mut i: usize = 0;
    assert(sweeps@.skip(0) =~= sweeps@);
    while i < sweeps.len()
        invariant
            i <= sweeps@.len(),
            first_angle(sweeps@, number) == first_angle(sweeps@.skip(i as int), number),
        decreases sweeps@.len() - i,
    {
        assert(sweeps@.skip(i as int)[0] == sweeps@[i as int]);
        assert(sweeps@.skip(i as int).drop_first() =~= sweeps@.skip(i + 1));
        if sweeps[i].elevation_number == number {
            return Some(sweeps[i].angle);
        }
        i += 1;
    }
    None
}

impl LiveScan {
    /// All the sweeps known: those of the running volume, then those of the next.
    pub open spec fn known(&self) -> Seq<PlannedSweep> {
        match self.next {
            Some(n) => self.sweeps@ + n@,
            None => self.sweeps@,
        }
    }

    /// Angle of an elevation: that of the running volume before that of the next.
    pub fn angle_of(&self, number: u8) -> (r: Option<i32>)
        ensures
            r == first_angle(self.known(), number),
    {
        let here = find_angle(&self.sweeps, number);
        match &self.next {
            Some(n) => {
                proof {
                    lemma_first_angle_of_both(self.sweeps@, n@, number);
                }
                match here {
                    Some(a) => Some(a),
                    None => find_angle(n, number),
                }
            },
            None => here,
        }
    }
}

proof fn lemma_first_angle_of_both(a: Seq<PlannedSweep>, b: Seq<PlannedSweep>, number: u8)
    ensures
        first_angle(a + b, number) == match first_angle(a, number) {
            Some(v) => Some(v),
            None => first_angle(b, number),
        },
    decreases a.len(),
{
    if a.len() == 0 {
        assert(a + b =~= b);
    } else {
        assert((a + b).drop_first() =~= a.drop_first() + b);
        lemma_first_angle_of_both(a.drop_first(), b, number);
    }
}

impl Projection {
    /// The sweep expected next, with its angle looked up in the running volume
    /// and the next.
    pub open spec fn expected_sweep(&self) -> Option<ExpectedSweep> {
        match self.expected {
            Some(e) => Some(
                if self.live_scan is Some && e.elevation_number is Some {
                    ExpectedSweep {
                        elevation_number: e.elevation_number,
                        angle: first_angle(
                            self.live_scan->0.known(),
                            e.elevation_number->0,
                        ),
                    }
                } else {
                    e
                },
            ),
            None => None,
        }
    }

    /// The sweep expected next, with its angle.
    pub fn expect(&self) -> (r: Option<ExpectedSweep>)
        ensures
            r == self.expected_sweep(),
    {
        match self.expected {
            Some(e) => {
                match (&self.live_scan, e.elevation_number) {
                    (Some(scan), Some(n)) => Some(
                        ExpectedSweep {
                            elevation_number: Some(n),
                            angle: scan.angle_of(n),
                        },
                    ),
                    _ => Some(e),
                }
            },
            None => None,
        }
    }
}

/// What the workbench is doing: it is live where a stream runs and the playhead
/// follows it, replays or not; else it shows the archive where a scan lies under
/// the playhead; else nothing.
pub open spec fn app_mode_of(streaming: bool, playhead_live: bool, scan_at_cursor: bool) -> AppMode {
    if streaming && playhead_live {
        AppMode::Live
    } else if scan_at_cursor {
        AppMode::Archive
    } else {
        AppMode::Idle
    }
}

/// What the workbench is doing.
pub fn derive_app_mode(streaming: bool, playhead_live: bool, scan_at_cursor: bool) -> (m: AppMode)
    ensures
        m == app_mode_of(streaming, playhead_live, scan_at_cursor),
{
    if streaming && playhead_live {
        AppMode::Live
    } else if scan_at_cursor {
        AppMode::Archive
    } else {
        AppMode::Idle
    }
}

/// What stopping or leaving a stream leaves to do.
#[derive(Clone, Copy, Debug, PartialEq, Eq, Structural)]
pub struct StreamEffect {
    /// Whether the worker that streams is to stop.
    pub stop_channel: bool,
    /// Whether what was observed of the running volume is to be forgotten.
    pub forget_observations: bool,
}

/// Owner of live mode.
#[derive(Debug)]
pub struct Live {
    pub mode_state: LiveModeState,
    pub app_mode: AppMode,
    /// What this frame knows ahead of time.
    pub frame_projection: Option<Projection>,
    /// The sweep that this frame expects next.
    pub expected_sweep: Option<ExpectedSweep>,
}

impl Live {
    /// Live mode at the start: idle, and nothing known ahead.
    pub fn new() -> (l: Self)
        ensures
            l.mode_state == (LiveModeState {
                phase: LivePhase::Idle,
                detached_since_ms: None,
                last_exit_reason: None,
            }),
            l.app_mode == AppMode::Idle,
            l.frame_projection is None,
            l.expected_sweep is None,
    {
        Live {
            mode_state: LiveModeState::new(),
            app_mode: AppMode::Idle,
            frame_projection: None,
            expected_sweep: None,
        }
    }

    /// State of the stream once it has been stopped.
    pub open spec fn stopped(reason: LiveExitReason) -> LiveModeState {
        LiveModeState {
            phase: LivePhase::Idle,
            detached_since_ms: None,
            last_exit_reason: Some(reason),
        }
    }

    /// Ends the stream and keeps the reason. What was observed of the volume goes
    /// with it; the worker is left alone.
    pub fn stop(&mut self, reason: LiveExitReason) -> (e: StreamEffect)
        ensures
            e == (StreamEffect { stop_channel: false, forget_observations: true }),
            final(self).mode_state == Live::stopped(reason),
            final(self).app_mode == old(self).app_mode,
            final(self).frame_projection == old(self).frame_projection,
            final(self).expected_sweep == old(self).expected_sweep,
    {
        self.mode_state = LiveModeState {
            phase: LivePhase::Idle,
            detached_since_ms: None,
            last_exit_reason: Some(reason),
        };
        StreamEffect { stop_channel: false, forget_observations: true }
    }

    /// What leaving the live edge leaves to do: a stream that is to pause
    /// meanwhile stops, and what was observed of its volume is forgotten.
    pub open spec fn detach_effect(m: LiveModeState, pause_stream: bool) -> StreamEffect {
        let ended = m.is_active() && pause_stream;
        StreamEffect { stop_channel: ended, forget_observations: ended }
    }

    /// State of the stream once the playhead has left the live edge: a stream
    /// that runs is ended where it is to pause meanwhile; else it runs on, and
    /// the moment of leaving is kept the first time.
    pub open spec fn after_detach(m: LiveModeState, now_ms: i64, pause_stream: bool) -> LiveModeState {
        if !m.is_active() {
            m
        } else if pause_stream {
            Live::stopped(LiveExitReason::UserStopped)
        } else {
            LiveModeState {
                detached_since_ms: Some(
                    match m.detached_since_ms {
                        Some(t) => t,
                        None => now_ms,
                    },
                ),
                ..m
            }
        }
    }

    /// Takes the playhead off the live edge, where it stands. Says what is left to
    /// do.
    pub fn detach_playhead(
        &mut self,
        playback: &mut PlaybackState,
        now_ms: i64,
        pause_stream_while_reviewing: bool,
    ) -> (e: StreamEffect)
        ensures
            final(playback).time_model == TimeModel::Free,
            *final(playback) == (PlaybackState { time_model: TimeModel::Free, ..*old(playback) }),
            final(self).mode_state == Live::after_detach(
                old(self).mode_state,
                now_ms,
                pause_stream_while_reviewing,
            ),
            final(self).app_mode == old(self).app_mode,
            final(self).frame_projection == old(self).frame_projection,
            final(self).expected_sweep == old(self).expected_sweep,
            e == Live::detach_effect(old(self).mode_state, pause_stream_while_reviewing),
    {
        playback.time_model = TimeModel::Free;
        if !self.mode_state.is_active() {
            return StreamEffect { stop_channel: false, forget_observations: false };
        }
        if pause_stream_while_reviewing {
            let ended = self.stop(LiveExitReason::UserStopped);
            return StreamEffect { stop_channel: true, ..ended };
        }
        if self.mode_state.detached_since_ms.is_none() {
            self.mode_state.detached_since_ms = Some(now_ms);
        }
        StreamEffect { stop_channel: false, forget_observations: false }
    }

    /// Whether the stream runs while the playhead is elsewhere.
    pub fn is_detached(&self, playback: &PlaybackState) -> (b: bool)
        ensures
            b == (self.mode_state.is_active() && playback.time_model == TimeModel::Free),
    {
        self.mode_state.is_active() && !playback.is_tethered()
    }

    /// Time until the next chunk: known only while one is waited for.
    pub open spec fn countdown(&self) -> Option<i64> {
        if self.mode_state.phase == LivePhase::WaitingForChunk && self.frame_projection is Some {
            self.frame_projection->0.next_available_in_ms
        } else {
            None
        }
    }

    /// Time until the next chunk.
    pub fn countdown_remaining_ms(&self) -> (r: Option<i64>)
        ensures
            r == self.countdown(),
    {
        match self.mode_state.phase {
            LivePhase::WaitingForChunk => match &self.frame_projection {
                Some(p) => p.next_available_in_ms,
                None => None,
            },
            _ => None,
        }
    }

    /// Takes in what a frame knows: the latest projection while the stream runs,
    /// none otherwise; and what the workbench is doing, by the stream, the
    /// playhead and whether a scan lies under it. The model of the radar is made
    /// elsewhere, from the stream's state and from `live_scan`.
    pub fn refresh(
        &mut self,
        latest: Option<Projection>,
        playback: &PlaybackState,
        scan_at_cursor: bool,
    )
        ensures
            final(self).mode_state == old(self).mode_state,
            final(self).app_mode == app_mode_of(
                old(self).mode_state.is_active(),
                playback.is_tethered(),
                scan_at_cursor,
            ),
            final(self).frame_projection == (if old(self).mode_state.is_active() {
                latest
            } else {
                None
            }),
            final(self).expected_sweep == (if old(self).mode_state.is_active() && latest is Some {
                latest->0.expected_sweep()
            } else {
                None
            }),
    {
        self.frame_projection = if self.mode_state.is_active() {
            latest
        } else {
            None
        };
        self.app_mode = derive_app_mode(
            self.mode_state.is_active(),
            playback.is_tethered(),
            scan_at_cursor,
        );
        self.expected_sweep = match &self.frame_projection {
            Some(p) => p.expect(),
            None => None,
        };
    }

    /// The volume that this frame's model of the radar is made from, where one is
    /// projected.
    pub fn live_scan(&self) -> (r: Option<&LiveScan>)
        ensures
            r == (match self.frame_projection {
                Some(p) => match p.live_scan {
                    Some(scan) => Some(&scan),
                    None => None,
                },
                None => None,
            }),
    {
        match &self.frame_projection {
            Some(p) => match &p.live_scan {
                Some(scan) => Some(scan),
                None => None,
            },
            None => None,
        }
    }
}

/// Live is what the workbench is exactly where a stream runs and the playhead has
/// not left it.
pub proof fn live_means_not_detached(
    m: LiveModeState,
    playback: PlaybackState,
    scan_at_cursor: bool,
)
    ensures
        app_mode_of(m.is_active(), playback.is_tethered(), scan_at_cursor) == AppMode::Live <==> (
        m.is_active() && playback.time_model != TimeModel::Free),
{
}

/// The moment of leaving the live edge is kept: leaving again, at whatever time,
/// changes nothing.
pub proof fn detaching_again_keeps_the_moment(
    m: LiveModeState,
    first_ms: i64,
    later_ms: i64,
    pause_stream: bool,
)
    ensures
        Live::after_detach(Live::after_detach(m, first_ms, pause_stream), later_ms, pause_stream)
            == Live::after_detach(m, first_ms, pause_stream),
{
}

/// A stream that pauses for review never counts as left: it is over.
pub proof fn pausing_ends_the_stream(m: LiveModeState, now_ms: i64)
    ensures
        !Live::after_detach(m, now_ms, true).is_active(),
        m.is_active() ==> Live::after_detach(m, now_ms, true).detached_since_ms is None,
        m.is_active() ==> Live::detach_effect(m, true).forget_observations,
        m.is_active() ==> Live::after_detach(m, now_ms, false).is_active(),
{
}

/// The angle of an elevation is that of the first sweep with its number, those of
/// the volume at hand before those of the next.
pub proof fn the_first_sweep_of_a_number_gives_its_angle(
    sweeps: Seq<PlannedSweep>,
    number: u8,
    i: int,
)
    requires
        0 <= i < sweeps.len(),
        sweeps[i].elevation_number == number,
        forall|j: int| 0 <= j < i ==> (#[trigger] sweeps[j]).elevation_number != number,
    ensures
        first_angle(sweeps, number) == Some(sweeps[i].angle),
    decreases sweeps.len(),
{
    if i > 0 {
        assert(sweeps[0].elevation_number != number);
        let rest = sweeps.drop_first();
        assert forall|j: int| 0 <= j < i - 1 implies (#[trigger] rest[j]).elevation_number
            != number by {
            assert(rest[j] == sweeps[j + 1]);
        }
        assert(rest[i - 1] == sweeps[i]);
        the_first_sweep_of_a_number_gives_its_angle(rest, number, i - 1);
    }
}

/// An elevation that no sweep has gives no angle.
pub proof fn an_unplanned_elevation_has_no_angle(sweeps: Seq<PlannedSweep>, number: u8)
    requires
        forall|j: int| 0 <= j < sweeps.len() ==> (#[trigger] sweeps[j]).elevation_number != number,
    ensures
        first_angle(sweeps, number) is None,
    decreases sweeps.len(),
{
    if sweeps.len() > 0 {
        assert(sweeps[0].elevation_number != number);
        let rest = sweeps.drop_first();
        assert forall|j: int| 0 <= j < rest.len() implies (#[trigger] rest[j]).elevation_number
            != number by {
            assert(rest[j] == sweeps[j + 1]);
        }
        an_unplanned_elevation_has_no_angle(rest, number);
    }
}

/// What is planned of the volume at hand comes before what is planned of the next.
pub proof fn the_volume_at_hand_comes_first(s: LiveScan, i: int)
    ensures
        0 <= i < s.sweeps@.len() ==> s.known()[i] == s.sweeps@[i],
        s.next is Some && 0 <= i < s.next->0@.len() ==> s.known()[s.sweeps@.len() + i]
            == s.next->0@[i],
        s.next is None ==> s.known().len() == s.sweeps@.len(),
        s.next is Some ==> s.known().len() == s.sweeps@.len() + s.next->0@.len(),
{
}

/// The expected sweep keeps its number; its angle is that of the plan, where there
/// is one and the number is known.
pub proof fn the_expected_sweep_takes_its_angle_from_the_plan(p: Projection, e: ExpectedSweep)
    requires
        p.expected == Some(e),
    ensures
        p.expected_sweep() is Some,
        p.expected_sweep()->0.elevation_number == e.elevation_number,
        p.live_scan is Some && e.elevation_number is Some ==> p.expected_sweep()->0.angle
            == first_angle(p.live_scan->0.known(), e.elevation_number->0),
        p.live_scan is None || e.elevation_number is None ==> p.expected_sweep()->0.angle
            == e.angle,
{
}

/// Away from the live edge the application is in the archive exactly where a scan
/// lies under the cursor.
pub proof fn the_archive_needs_a_scan(
    streaming: bool,
    playhead_live: bool,
    scan_at_cursor: bool,
)
    ensures
        app_mode_of(streaming, playhead_live, scan_at_cursor) == AppMode::Live <==> streaming
            && playhead_live,
        app_mode_of(streaming, playhead_live, scan_at_cursor) == AppMode::Archive
            <==> scan_at_cursor && !(streaming && playhead_live),
        app_mode_of(streaming, playhead_live, scan_at_cursor) == AppMode::Idle
            <==> !scan_at_cursor && !(streaming && playhead_live),
{
}

/// A stopped stream is idle, is not detached, and remembers why.
pub proof fn a_stopped_stream_remembers_why(reason: LiveExitReason)
    ensures
        !Live::stopped(reason).is_active(),
        Live::stopped(reason).detached_since_ms is None,
        Live::stopped(reason).last_exit_reason == Some(reason),
{
}

/// Detaching leaves an idle stream alone. A running one keeps running, and remembers
/// since when, unless it is to pause: that counts as stopped by the user.
pub proof fn detaching_notes_the_moment(m: LiveModeState, now_ms: i64)
    ensures
        !m.is_active() ==> Live::after_detach(m, now_ms, true) == m && Live::after_detach(
            m,
            now_ms,
            false,
        ) == m,
        m.is_active() ==> Live::after_detach(m, now_ms, true).last_exit_reason == Some(
            LiveExitReason::UserStopped,
        ),
        m.is_active() ==> Live::after_detach(m, now_ms, false).phase == m.phase
            && Live::after_detach(m, now_ms, false).last_exit_reason == m.last_exit_reason,
        m.is_active() && m.detached_since_ms is None ==> Live::after_detach(
            m,
            now_ms,
            false,
        ).detached_since_ms == Some(now_ms),
        m.is_active() && m.detached_since_ms is Some ==> Live::after_detach(
            m,
            now_ms,
            false,
        ).detached_since_ms == m.detached_since_ms,
        Live::detach_effect(m, false) == (StreamEffect {
            stop_channel: false,
            forget_observations: false,
        }),
        Live::detach_effect(m, true) == (StreamEffect {
            stop_channel: m.is_active(),
            forget_observations: m.is_active(),
        }),
{
}

/// A countdown runs only while the stream waits for a chunk, and tells when the next
/// is projected.
pub proof fn the_countdown_runs_while_waiting(l: Live)
    ensures
        l.mode_state.phase != LivePhase::WaitingForChunk ==> l.countdown() is None,
        l.frame_projection is None ==> l.countdown() is None,
        l.mode_state.phase == LivePhase::WaitingForChunk && l.frame_projection is Some
            ==> l.countdown() == l.frame_projection->0.next_available_in_ms,
{
}

/// Each frame knows the latest projection while the stream runs, and none without
/// it; the stream itself is not changed.
pub proof fn frames_know_the_latest_projection(
    l: &mut Live,
    latest: Option<Projection>,
    playback: &PlaybackState,
    scan_at_cursor: bool,
    r: (),
)
    requires
        call_ensures(Live::refresh, (l, latest, playback, scan_at_cursor), r),
    ensures
        final(l).mode_state == old(l).mode_state,
        old(l).mode_state.is_active() ==> final(l).frame_projection == latest,
        !old(l).mode_state.is_active() ==> final(l).frame_projection is None && final(l).expected_sweep is None && final(l).app_mode != AppMode::Live,
        old(l).mode_state.is_active() && playback.time_model != TimeModel::Free ==> final(l).app_mode == AppMode::Live,
        old(l).mode_state.is_active() && latest is Some && latest->0.expected is Some ==> final(l).expected_sweep is Some,
        latest is None ==> final(l).expected_sweep is None,
{
}

/// Stopping a stream notes why, forgets what was observed, and leaves what the frame
/// knows.
pub proof fn stopping_notes_why(l: &mut Live, reason: LiveExitReason, e: StreamEffect)
    requires
        call_ensures(Live::stop, (l, reason), e),
    ensures
        final(l).mode_state.phase == LivePhase::Idle,
        final(l).mode_state.last_exit_reason == Some(reason),
        final(l).mode_state.detached_since_ms is None,
        e.forget_observations && !e.stop_channel,
        final(l).frame_projection == old(l).frame_projection,
{
}

/// A stream is detached where it runs and the playhead stands free of it.
pub proof fn a_free_playhead_is_detached(l: &Live, playback: &PlaybackState, b: bool)
    requires
        call_ensures(Live::is_detached, (l, playback), b),
    ensures
        b <==> l.mode_state.phase != LivePhase::Idle && playback.time_model == TimeModel::Free,
{
}

/// Detaching frees the playhead and leaves it where it stands.
pub proof fn detaching_leaves_the_playhead(
    l: &mut Live,
    playback: &mut PlaybackState,
    now_ms: i64,
    pause: bool,
    e: StreamEffect,
)
    requires
        call_ensures(Live::detach_playhead, (l, playback, now_ms, pause), e),
    ensures
        final(playback).time_model == TimeModel::Free,
        final(playback).position_ms == old(playback).position_ms,
        final(playback).playing == old(playback).playing,
        final(l).mode_state.is_active() <==> old(l).mode_state.is_active() && !pause,
        e.stop_channel <==> old(l).mode_state.is_active() && pause,
        final(l).frame_projection == old(l).frame_projection,
{
}

} // verus!
