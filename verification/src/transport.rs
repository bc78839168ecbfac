//! The transport: playing, stepping, jumping, and joining the live edge.
//!
//! Times are in milliseconds from the epoch.

use crate::colors::Color32;
use crate::live::{AppMode, Live, LiveExitReason, StreamEffect};
use crate::modal_states::DateTimePickerState;
use crate::playback::{PlaybackMode, PlaybackState, TimeModel};
use vstd::prelude::*;
use vstd::string::*;

verus! {

/// A request of the transport to the workbench.
#[derive(Clone, Copy, Debug, PartialEq, Eq, Structural)]
pub enum Intent {
    TogglePlayPause,
    /// Start a stream, from the touch transport.
    StartLive,
    /// Start a stream, from the desktop transport.
    GoLive,
    ReturnToLive,
    /// End the stream and leave the playhead at the live edge.
    StopLive,
    ClearLoop,
    ClearCache,
}

/// Whether the transport can be used: whether there is anything to play.
pub fn is_interactive(mode: AppMode) -> (b: bool)
    ensures
        b == (mode != AppMode::Idle),
{
    mode != AppMode::Idle
}

/// What the LIVE button stands for.
#[derive(Clone, Copy, Debug, PartialEq, Eq, Structural)]
pub enum LiveButton {
    /// The playhead is at the live edge.
    Tethered,
    /// A stream runs, and the playhead is elsewhere.
    Detached,
    /// No stream runs.
    NoStream,
}

/// What the LIVE button stands for. A stream that dies while the playhead is
/// elsewhere leaves the invitation to start one.
pub fn live_button(mode: AppMode, streaming: bool) -> (b: LiveButton)
    ensures
        b == (if mode == AppMode::Live {
            LiveButton::Tethered
        } else if streaming {
            LiveButton::Detached
        } else {
            LiveButton::NoStream
        }),
{
    if mode == AppMode::Live {
        LiveButton::Tethered
    } else if streaming {
        LiveButton::Detached
    } else {
        LiveButton::NoStream
    }
}

/// What a tap on the LIVE button leaves to do.
#[derive(Clone, Copy, Debug, PartialEq, Eq, Structural)]
pub struct TapEffect {
    pub intent: Option<Intent>,
    pub stream: StreamEffect,
}

impl LiveButton {
    /// The button's text on the touch transport.
    pub fn label(self) -> (s: &'static str)
        ensures
            s@ == (if self == LiveButton::NoStream {
                "GO LIVE"@
            } else {
                "LIVE"@
            }),
    {
        match self {
            LiveButton::NoStream => "GO LIVE",
            _ => "LIVE",
        }
    }

    /// The button's text on the desktop transport, where it says how far the
    /// playhead is behind.
    pub fn label_with_lag(self, lag: &str) -> (s: String)
        ensures
            s@ == match self {
                LiveButton::Tethered => "LIVE"@,
                LiveButton::Detached => "LIVE \u{b7} "@ + lag@ + " behind"@,
                LiveButton::NoStream => "GO LIVE"@,
            },
    {
        let mut s = String::new();
        match self {
            LiveButton::Tethered => {
                s.append("LIVE");
                assert(s@ =~= "LIVE"@);
            },
            LiveButton::Detached => {
                s.append("LIVE \u{b7} ");
                s.append(lag);
                s.append(" behind");
                assert(s@ =~= "LIVE \u{b7} "@ + lag@ + " behind"@);
            },
            LiveButton::NoStream => {
                s.append("GO LIVE");
                assert(s@ =~= "GO LIVE"@);
            },
        }
        s
    }

    /// What the button says on hovering, on the desktop or on a touch device.
    pub fn hover_text(self, touch: bool) -> (s: &'static str)
        ensures
            s@ == match self {
                LiveButton::Tethered => if touch {
                    "Tethered to live \u{2014} tap to freeze"@
                } else {
                    "Streaming live \u{2014} click to stop"@
                },
                LiveButton::Detached => if touch {
                    "Stream running in background \u{2014} tap to rejoin live"@
                } else {
                    "Stream running in background \u{2014} click to rejoin live"@
                },
                LiveButton::NoStream => "Stream live from now"@,
            },
    {
        match self {
            LiveButton::Tethered => if touch {
                "Tethered to live \u{2014} tap to freeze"
            } else {
                "Streaming live \u{2014} click to stop"
            },
            LiveButton::Detached => if touch {
                "Stream running in background \u{2014} tap to rejoin live"
            } else {
                "Stream running in background \u{2014} click to rejoin live"
            },
            LiveButton::NoStream => "Stream live from now",
        }
    }

    /// What a click asks for on the desktop.
    pub fn click(self) -> (i: Intent)
        ensures
            i == match self {
                LiveButton::Tethered => Intent::StopLive,
                LiveButton::Detached => Intent::ReturnToLive,
                LiveButton::NoStream => Intent::GoLive,
            },
    {
        match self {
            LiveButton::Tethered => Intent::StopLive,
            LiveButton::Detached => Intent::ReturnToLive,
            LiveButton::NoStream => Intent::GoLive,
        }
    }

    /// What a tap does on a touch device: at the live edge it freezes the feed,
    /// with the playhead where it stands; else it joins the running stream, or
    /// drops the selection and starts a stream at the pace of the clock. Freezing
    /// forgets what was observed of the volume.
    pub fn tap(self, live: &mut Live, playback: &mut PlaybackState) -> (r: TapEffect)
        ensures
            r.intent == match self {
                LiveButton::Tethered => None,
                LiveButton::Detached => Some(Intent::ReturnToLive),
                LiveButton::NoStream => Some(Intent::StartLive),
            },
            r.stream == (StreamEffect {
                stop_channel: false,
                forget_observations: self == LiveButton::Tethered,
            }),
            final(live).mode_state == (if self == LiveButton::Tethered {
                Live::stopped(LiveExitReason::UserStopped)
            } else {
                old(live).mode_state
            }),
            *final(playback) == match self {
                LiveButton::Tethered => PlaybackState {
                    time_model: TimeModel::Free,
                    playing: false,
                    ..*old(playback)
                },
                LiveButton::Detached => *old(playback),
                LiveButton::NoStream => PlaybackState {
                    selection: None,
                    speed_ms_per_sec: 1000,
                    ..*old(playback)
                },
            },
            final(live).app_mode == old(live).app_mode,
            final(live).frame_projection == old(live).frame_projection,
            final(live).expected_sweep == old(live).expected_sweep,
    {
        let unchanged = StreamEffect { stop_channel: false, forget_observations: false };
        match self {
            LiveButton::Tethered => {
                let stream = live.stop(LiveExitReason::UserStopped);
                playback.time_model = TimeModel::Free;
                playback.playing = false;
                TapEffect { intent: None, stream }
            },
            LiveButton::Detached => TapEffect {
                intent: Some(Intent::ReturnToLive),
                stream: unchanged,
            },
            LiveButton::NoStream => {
                playback.selection = None;
                playback.speed_ms_per_sec = 1000;
                TapEffect { intent: Some(Intent::StartLive), stream: unchanged }
            },
        }
    }
}

/// Whether the play button offers to pause: while the live feed runs, or the
/// archive plays.
pub fn offers_pause(playback: &PlaybackState) -> (b: bool)
    ensures
        b == (playback.time_model == TimeModel::Pinned || playback.playing),
{
    playback.time_model == TimeModel::Pinned || playback.playing
}

/// What the play button says on hovering.
pub fn play_hover(playback: &PlaybackState) -> (s: &'static str)
    ensures
        s@ == (if playback.time_model == TimeModel::Pinned {
            "Freeze (pause the live feed)"@
        } else if playback.time_model == TimeModel::Lookback {
            "Return to live"@
        } else if playback.playing {
            "Pause"@
        } else {
            "Play"@
        }),
{
    match playback.time_model {
        TimeModel::Pinned => "Freeze (pause the live feed)",
        TimeModel::Lookback => "Return to live",
        TimeModel::Free => if playback.playing {
            "Pause"
        } else {
            "Play"
        },
    }
}

/// Which elevation is shown.
#[derive(Clone, Copy, Debug, PartialEq, Eq, Structural)]
pub enum ElevationSelection {
    /// One cut, with its angle in thousandths of a degree.
    Fixed { elevation_number: u8, angle: i32 },
    /// The sweep completed last, of whatever cut.
    Latest,
}

/// The neighbouring sweep that a step looks for.
#[derive(Clone, Copy, Debug, PartialEq, Eq, Structural)]
pub enum SweepLookup {
    PreviousOf(u8),
    NextOf(u8),
    PreviousAny,
    NextAny,
}

/// The neighbouring sweep that a step looks for: of the elevation shown, or of
/// any.
pub fn sweep_lookup(selection: ElevationSelection, direction: i64) -> (l: SweepLookup)
    ensures
        l == match selection {
            ElevationSelection::Fixed { elevation_number: n, .. } => if direction < 0 {
                SweepLookup::PreviousOf(n)
            } else {
                SweepLookup::NextOf(n)
            },
            ElevationSelection::Latest => if direction < 0 {
                SweepLookup::PreviousAny
            } else {
                SweepLookup::NextAny
            },
        },
{
    match selection {
        ElevationSelection::Fixed { elevation_number: n, .. } => if direction < 0 {
            SweepLookup::PreviousOf(n)
        } else {
            SweepLookup::NextOf(n)
        },
        ElevationSelection::Latest => if direction < 0 {
            SweepLookup::PreviousAny
        } else {
            SweepLookup::NextAny
        },
    }
}

/// What a step leaves to do.
#[derive(Clone, Copy, Debug, PartialEq, Eq)]
pub struct StepEffect {
    /// Frames to step over, where playback goes from frame to frame.
    pub frames: Option<i64>,
    pub stream: StreamEffect,
}

/// The playhead after a step: at the neighbouring sweep's end, or moved by a
/// second's worth of playback where there is none. Where playback goes from
/// frame to frame it has yet to be stepped.
pub open spec fn stepped(p: PlaybackState, direction: int, neighbour: Option<i64>) -> PlaybackState {
    PlaybackState {
        time_model: TimeModel::Free,
        position_ms: match p.mode {
            PlaybackMode::Macro => p.position_ms,
            PlaybackMode::Micro => match neighbour {
                Some(t) => t,
                None => (p.position_ms + p.speed_ms_per_sec * direction) as i64,
            },
        },
        ..p
    }
}

/// Whether a step made of one state another, and left `r` to do.
pub open spec fn is_step(
    live: Live,
    playback: PlaybackState,
    now_ms: i64,
    pause_stream: bool,
    direction: int,
    neighbour: Option<i64>,
    live_after: Live,
    playback_after: PlaybackState,
    r: StepEffect,
) -> bool {
    &&& playback_after == stepped(playback, direction, neighbour)
    &&& live_after == (Live {
        mode_state: Live::after_detach(live.mode_state, now_ms, pause_stream),
        ..live
    })
    &&& r.stream == Live::detach_effect(live.mode_state, pause_stream)
    &&& match r.frames {
        Some(n) => playback.mode == PlaybackMode::Macro && n == direction,
        None => playback.mode == PlaybackMode::Micro,
    }
}

/// Takes the playhead off the live edge and steps it, on a touch device.
/// `neighbour` is the end of the sweep that the step looks for.
pub fn step_frame(
    live: &mut Live,
    playback: &mut PlaybackState,
    now_ms: i64,
    pause_stream: bool,
    direction: i64,
    neighbour: Option<i64>,
) -> (r: StepEffect)
    requires
        i64::MIN <= old(playback).speed_ms_per_sec * direction <= i64::MAX,
        i64::MIN <= old(playback).position_ms + old(playback).speed_ms_per_sec * direction
            <= i64::MAX,
    ensures
        is_step(
            *old(live),
            *old(playback),
            now_ms,
            pause_stream,
            direction as int,
            neighbour,
            *final(live),
            *final(playback),
            r,
        ),
{
    let fallback: i64 = playback.position_ms + playback.speed_ms_per_sec * direction;
    let stream = live.detach_playhead(playback, now_ms, pause_stream);
    match playback.mode {
        PlaybackMode::Macro => StepEffect { frames: Some(direction), stream },
        PlaybackMode::Micro => {
            playback.position_ms = match neighbour {
                Some(t) => t,
                None => fallback,
            };
            StepEffect { frames: None, stream }
        },
    }
}

/// Takes the playhead off the live edge and steps it, on the desktop.
pub fn step_jog(
    live: &mut Live,
    playback: &mut PlaybackState,
    now_ms: i64,
    pause_stream: bool,
    direction: i64,
    neighbour: Option<i64>,
) -> (r: StepEffect)
    requires
        i64::MIN <= old(playback).speed_ms_per_sec * direction <= i64::MAX,
        i64::MIN <= old(playback).position_ms + old(playback).speed_ms_per_sec * direction
            <= i64::MAX,
    ensures
        is_step(
            *old(live),
            *old(playback),
            now_ms,
            pause_stream,
            direction as int,
            neighbour,
            *final(live),
            *final(playback),
            r,
        ),
{
    step_frame(live, playback, now_ms, pause_stream, direction, neighbour)
}

/// Two steps from the same state, whichever gesture asks for them, end in the same
/// state and leave the same to do.
pub proof fn steps_agree(
    live: Live,
    playback: PlaybackState,
    now_ms: i64,
    pause_stream: bool,
    direction: int,
    neighbour: Option<i64>,
    first: (Live, PlaybackState, StepEffect),
    second: (Live, PlaybackState, StepEffect),
)
    requires
        is_step(
            live,
            playback,
            now_ms,
            pause_stream,
            direction,
            neighbour,
            first.0,
            first.1,
            first.2,
        ),
        is_step(
            live,
            playback,
            now_ms,
            pause_stream,
            direction,
            neighbour,
            second.0,
            second.1,
            second.2,
        ),
    ensures
        first == second,
{
}

/// A quick jump of the date picker.
#[derive(Clone, Copy, Debug, PartialEq, Eq, Structural)]
pub enum QuickJump {
    OneHour,
    SixHours,
    OneDay,
}

impl QuickJump {
    pub fn label(self) -> (s: &'static str)
        ensures
            s@ == match self {
                QuickJump::OneHour => "1h ago"@,
                QuickJump::SixHours => "6h ago"@,
                QuickJump::OneDay => "24h ago"@,
            },
    {
        match self {
            QuickJump::OneHour => "1h ago",
            QuickJump::SixHours => "6h ago",
            QuickJump::OneDay => "24h ago",
        }
    }

    /// How far back it goes.
    #[verifier::allow_in_spec]
    pub fn back_ms(self) -> i64
        returns
            (match self {
                QuickJump::OneHour => 3_600_000i64,
                QuickJump::SixHours => 21_600_000i64,
                QuickJump::OneDay => 86_400_000i64,
            }),
    {
        match self {
            QuickJump::OneHour => 3_600_000,
            QuickJump::SixHours => 21_600_000,
            QuickJump::OneDay => 86_400_000,
        }
    }
}

/// What is pressed in the date picker.
#[derive(Clone, Copy, Debug)]
pub struct PickerPress {
    pub quick: Option<QuickJump>,
    pub jump: bool,
    pub enter: bool,
}

/// The instant to jump to: the typed one on the button or the enter key, where
/// what is typed is an instant; else the one of a quick jump.
pub open spec fn jump_of(p: PickerPress, typed_ms: Option<i64>, now_ms: int) -> Option<int> {
    if typed_ms is Some && (p.jump || p.enter) {
        Some(typed_ms->0 as int)
    } else {
        match p.quick {
            Some(q) => Some(now_ms - q.back_ms()),
            None => None,
        }
    }
}

/// The instant to jump to.
pub fn jump_target(p: PickerPress, typed_ms: Option<i64>, now_ms: i64) -> (r: Option<i64>)
    requires
        now_ms >= i64::MIN + 86_400_000,
    ensures
        (match r {
            Some(t) => Some(t as int),
            None => None,
        }) == jump_of(p, typed_ms, now_ms as int),
{
    match typed_ms {
        Some(t) if p.jump || p.enter => {
            return Some(t);
        },
        _ => {},
    }
    match p.quick {
        Some(q) => Some(now_ms - q.back_ms()),
        None => None,
    }
}

/// Where a jump leaves the transport.
#[derive(Clone, Copy, Debug, PartialEq, Eq)]
pub struct JumpEffect {
    /// The view's left edge: the target stands a twentieth of the way in.
    pub view_start_ms: i64,
    pub stream: StreamEffect,
}

/// Takes the playhead off the live edge, moves it to an instant, and closes and
/// empties the date picker.
pub fn jump_to(
    live: &mut Live,
    playback: &mut PlaybackState,
    picker: &mut DateTimePickerState,
    target_ms: i64,
    now_ms: i64,
    pause_stream: bool,
    view_width_ms: u64,
) -> (r: JumpEffect)
    requires
        target_ms - view_width_ms / 20 >= i64::MIN,
    ensures
        *final(playback) == (PlaybackState {
            time_model: TimeModel::Free,
            position_ms: target_ms,
            ..*old(playback)
        }),
        final(live).mode_state == Live::after_detach(old(live).mode_state, now_ms, pause_stream),
        final(live).app_mode == old(live).app_mode,
        final(live).frame_projection == old(live).frame_projection,
        final(live).expected_sweep == old(live).expected_sweep,
        final(picker).is_reset(),
        r == (JumpEffect {
            view_start_ms: (target_ms - view_width_ms / 20) as i64,
            stream: Live::detach_effect(old(live).mode_state, pause_stream),
        }),
{
    let stream = live.detach_playhead(playback, now_ms, pause_stream);
    playback.position_ms = target_ms;
    picker.close();
    JumpEffect { view_start_ms: target_ms - (view_width_ms / 20) as i64, stream }
}

/// What is said of pasted text that is no instant.
pub fn unreadable_paste(pasted: &str) -> (s: String)
    ensures
        s@ == "Couldn't read \""@ + pasted@ + "\" as a date/time"@,
{
    let mut s = String::new();
    s.append("Couldn't read \"");
    s.append(pasted);
    s.append("\" as a date/time");
    assert(s@ =~= "Couldn't read \""@ + pasted@ + "\" as a date/time"@);
    s
}

/// Name of the time zone in use.
pub fn zone_label(use_local: bool) -> (s: &'static str)
    ensures
        s@ == (if use_local {
            "Local"@
        } else {
            "UTC"@
        }),
{
    if use_local {
        "Local"
    } else {
        "UTC"
    }
}

/// The date picker's title.
pub fn picker_title(use_local: bool) -> (s: String)
    ensures
        s@ == "Jump to Date/Time ("@ + (if use_local {
            "Local"@
        } else {
            "UTC"@
        }) + ")"@,
{
    let mut s = String::new();
    s.append("Jump to Date/Time (");
    s.append(zone_label(use_local));
    s.append(")");
    assert(s@ =~= "Jump to Date/Time ("@ + (if use_local {
        "Local"@
    } else {
        "UTC"@
    }) + ")"@);
    s
}

/// Which of the transport's optional controls stand in the row, and which in the
/// menu beside it.
#[derive(Clone, Copy, Debug, PartialEq, Eq)]
pub struct TransportControls {
    /// The instant in the readout can be clicked to jump.
    pub clickable_time: bool,
    pub loop_mode_inline: bool,
    pub clear_selection: bool,
    pub zone_inline: bool,
    pub overflow: bool,
    pub loop_mode_in_overflow: bool,
    pub cache: bool,
}

/// Which of the transport's optional controls stand where. Those for advanced
/// users move into the menu where the row is narrow; the one that clears a
/// selection is for everyone and stays.
pub fn transport_controls(advanced: bool, narrow: bool, has_bounds: bool) -> (c: TransportControls)
    ensures
        c == (TransportControls {
            clickable_time: advanced,
            loop_mode_inline: has_bounds && advanced && !narrow,
            clear_selection: has_bounds,
            zone_inline: advanced && !narrow,
            overflow: advanced && narrow,
            loop_mode_in_overflow: advanced && narrow && has_bounds,
            cache: advanced,
        }),
        advanced <==> (c.zone_inline != c.overflow),
        advanced && has_bounds <==> (c.loop_mode_inline != c.loop_mode_in_overflow),
{
    TransportControls {
        clickable_time: advanced,
        loop_mode_inline: has_bounds && advanced && !narrow,
        clear_selection: has_bounds,
        zone_inline: advanced && !narrow,
        overflow: advanced && narrow,
        loop_mode_in_overflow: advanced && narrow && has_bounds,
        cache: advanced,
    }
}

/// Heading of the loop menu.
pub open spec fn loop_heading(basis: Option<Seq<char>>, pinned: bool) -> Seq<char> {
    match basis {
        Some(b) => "Loop \u{b7} "@ + b + if pinned {
            " \u{b7} pinned"@
        } else {
            seq![]
        },
        None => "Loop"@,
    }
}

/// Heading of the loop menu: the loop in place, if any.
pub fn loop_header(basis: Option<&str>, pinned: bool) -> (s: String)
    ensures
        s@ == loop_heading(
            match basis {
                Some(b) => Some(b@),
                None => None,
            },
            pinned,
        ),
{
    let mut s = String::new();
    match basis {
        Some(b) => {
            s.append("Loop \u{b7} ");
            s.append(b);
            if pinned {
                s.append(" \u{b7} pinned");
            }
            assert(s@ =~= loop_heading(Some(b@), pinned));
        },
        None => {
            s.append("Loop");
            assert(s@ =~= "Loop"@);
        },
    }
    s
}

/// Colour of the loop menu's button: lit while a loop or bounds are in place.
pub fn loop_tint(has_window: bool, has_bounds: bool, dark: bool) -> (c: Color32)
    ensures
        c == (if has_window || has_bounds {
            crate::colors::live::streaming()
        } else {
            crate::colors::ui::value(dark)
        }),
{
    if has_window || has_bounds {
        crate::colors::live::streaming()
    } else {
        crate::colors::ui::value(dark)
    }
}

/// How data arrives.
#[derive(Clone, Copy, Debug, PartialEq, Eq, Structural)]
pub enum StreamActivity {
    Idle,
    Connecting,
    Receiving,
    Waiting,
    Stalled,
}

/// Colour of the note on how data arrives: amber for a stall, and never the red
/// of the live edge.
pub fn stream_color(activity: StreamActivity, dark: bool) -> (c: Color32)
    ensures
        c == match activity {
            StreamActivity::Stalled => crate::colors::live::acquiring(),
            StreamActivity::Receiving => crate::colors::ui::value(dark),
            _ => crate::colors::ui::label(dark),
        },
{
    match activity {
        StreamActivity::Stalled => crate::colors::live::acquiring(),
        StreamActivity::Receiving => crate::colors::ui::value(dark),
        _ => crate::colors::ui::label(dark),
    }
}

/// The version as the touch device's bar shows it: cut after eighteen bytes
/// unless it was expanded.
pub open spec fn is_shown_version(s: Seq<char>, version: Seq<char>, expanded: bool) -> bool {
    if !expanded && crate::text::bytes(version).len() > 18 {
        exists|k: int|
            {
                &&& 0 <= k <= version.len()
                &&& s == #[trigger] version.take(k) + seq!['\u{2026}']
                &&& forall|i: int|
                    0 <= i < k ==> crate::text::bytes(#[trigger] version.take(i)).len() < 18
                &&& k < version.len() ==> crate::text::bytes(version.take(k)).len() >= 18
            }
    } else {
        s == version
    }
}

/// The version as the touch device's bar shows it.
pub fn shown_version(version: &str, expanded: bool) -> (s: String)
    ensures
        is_shown_version(s@, version@, expanded),
{
    let v: Vec<char> = crate::text::chars_of(version);
    if expanded || crate::text::byte_len(version) <= 18 {
        assert(version@.subrange(0, version@.len() as int) =~= version@);
        return crate::text::string_of(&v, 0, v.len());
    }
    let mut k: usize = 0;
    let mut done = false;
    while !done && k < v.len()
        invariant
            k <= v@.len(),
            v@ == version@,
            forall|i: int| 0 <= i < k ==> crate::text::bytes(#[trigger] version@.take(i)).len() < 18,
            done ==> crate::text::bytes(version@.take(k as int)).len() >= 18,
        decreases
                v@.len() - k + if done {
                    0int
                } else {
                    1int
                },
    {
        let head = crate::text::string_of(&v, 0, k);
        assert(head@ =~= version@.take(k as int));
        if crate::text::byte_len(head.as_str()) >= 18 {
            done = true;
        } else {
            k += 1;
        }
    }
    let mut s = crate::text::string_of(&v, 0, k);
    assert(s@ =~= version@.take(k as int));
    s.push('\u{2026}');
    assert(s@ =~= version@.take(k as int) + seq!['\u{2026}']);
    s
}

/// A step frees the playhead. In macro mode it asks for frames and leaves the
/// position; in micro mode it goes to the neighbouring sweep, and without one by a
/// second's worth of playback, in the direction of the step.
pub proof fn steps_move_one_way(p: PlaybackState, direction: int, neighbour: Option<i64>)
    requires
        i64::MIN <= p.position_ms + p.speed_ms_per_sec * direction <= i64::MAX,
    ensures
        ({
            let after = stepped(p, direction, neighbour);
            &&& after.time_model == TimeModel::Free
            &&& p.mode == PlaybackMode::Macro ==> after.position_ms == p.position_ms
            &&& p.mode == PlaybackMode::Micro && neighbour is Some ==> after.position_ms
                == neighbour->0
            &&& p.mode == PlaybackMode::Micro && neighbour is None ==> after.position_ms
                - p.position_ms == p.speed_ms_per_sec * direction
            &&& after.playing == p.playing && after.mode == p.mode && after.speed_ms_per_sec
                == p.speed_ms_per_sec && after.selection == p.selection
        }),
{
}

/// A step tells how many frames to move in macro mode, and only there; it detaches
/// from a stream as any move of the playhead does.
pub proof fn steps_count_frames_in_macro_mode(
    live: Live,
    playback: PlaybackState,
    now_ms: i64,
    pause_stream: bool,
    direction: int,
    neighbour: Option<i64>,
    live_after: Live,
    playback_after: PlaybackState,
    r: StepEffect,
)
    requires
        is_step(
            live,
            playback,
            now_ms,
            pause_stream,
            direction,
            neighbour,
            live_after,
            playback_after,
            r,
        ),
    ensures
        playback.mode == PlaybackMode::Macro ==> r.frames is Some && r.frames->0 == direction,
        playback.mode == PlaybackMode::Micro ==> r.frames is None,
        r.stream.stop_channel <==> live.mode_state.phase != crate::live::LivePhase::Idle
            && pause_stream,
        live_after.mode_state.phase == crate::live::LivePhase::Idle <==> live.mode_state.phase
            == crate::live::LivePhase::Idle || pause_stream,
        live_after.app_mode == live.app_mode,
{
}

/// A typed time is jumped to when it is confirmed, whichever way; otherwise a quick
/// jump goes back from the present by an hour, by six or by a day.
pub proof fn jumps_go_to_the_typed_time_or_back(p: PickerPress, typed_ms: i64, now_ms: int)
    ensures
        p.jump || p.enter ==> jump_of(p, Some(typed_ms), now_ms) == Some(typed_ms as int),
        p.quick is None ==> jump_of(p, None, now_ms) is None,
        p.quick is None && !p.jump && !p.enter ==> jump_of(p, Some(typed_ms), now_ms) is None,
        p.quick == Some(QuickJump::OneHour) ==> jump_of(p, None, now_ms) == Some(
            now_ms - 60 * 60 * 1000,
        ),
        p.quick == Some(QuickJump::SixHours) ==> jump_of(p, None, now_ms) == Some(
            now_ms - 6 * 60 * 60 * 1000,
        ),
        p.quick == Some(QuickJump::OneDay) ==> jump_of(p, None, now_ms) == Some(
            now_ms - 24 * 60 * 60 * 1000,
        ),
        p.quick is Some && !p.jump && !p.enter ==> jump_of(p, Some(typed_ms), now_ms) == jump_of(
            p,
            None,
            now_ms,
        ),
{
}

/// The heading names what the loop runs over, and whether it is pinned.
pub proof fn the_loop_heading_names_its_basis(basis: Seq<char>, pinned: bool)
    ensures
        loop_heading(None, pinned) == "Loop"@,
        loop_heading(Some(basis), false) == "Loop \u{b7} "@ + basis,
        loop_heading(Some(basis), true) == loop_heading(Some(basis), false) + " \u{b7} pinned"@,
{
    assert(loop_heading(Some(basis), false) =~= "Loop \u{b7} "@ + basis);
}

/// A version is shown whole where it is expanded or has at most eighteen bytes; a
/// longer one is cut, with an ellipsis, behind the first character that fills them.
pub proof fn long_versions_are_cut(s: Seq<char>, version: Seq<char>, expanded: bool)
    requires
        is_shown_version(s, version, expanded),
    ensures
        expanded || crate::text::bytes(version).len() <= 18 ==> s == version,
        !expanded && crate::text::bytes(version).len() > 18 ==> s.len() >= 1 && s.last()
            == '\u{2026}' && s.len() - 1 <= version.len() && s.drop_last() == version.take(
            s.len() - 1,
        ),
        !expanded && crate::text::bytes(version).len() > 18 && s.len() - 1 < version.len()
            ==> crate::text::bytes(s.drop_last()).len() >= 18,
        !expanded && crate::text::bytes(version).len() > 18 && s.len() >= 2 ==> crate::text::bytes(
            version.take(s.len() - 2),
        ).len() < 18,
{
    if !expanded && crate::text::bytes(version).len() > 18 {
        let k = choose|k: int|
            {
                &&& 0 <= k <= version.len()
                &&& s == #[trigger] version.take(k) + seq!['\u{2026}']
                &&& forall|i: int|
                    0 <= i < k ==> crate::text::bytes(#[trigger] version.take(i)).len() < 18
                &&& k < version.len() ==> crate::text::bytes(version.take(k)).len() >= 18
            };
        assert(s.len() == k + 1);
        assert(s.drop_last() =~= version.take(k));
        if k >= 1 {
            assert(crate::text::bytes(version.take(k - 1)).len() < 18);
        }
    }
}

/// A click on the live button stops a stream that is followed, rejoins one that is
/// not, and goes live where there is none.
pub proof fn the_live_button_stops_rejoins_or_goes_live(
    tethered: Intent,
    detached: Intent,
    idle: Intent,
)
    requires
        call_ensures(LiveButton::click, (LiveButton::Tethered,), tethered),
        call_ensures(LiveButton::click, (LiveButton::Detached,), detached),
        call_ensures(LiveButton::click, (LiveButton::NoStream,), idle),
    ensures
        tethered == Intent::StopLive,
        detached == Intent::ReturnToLive,
        idle == Intent::GoLive,
{
}

/// The live button stands for following the stream, for a stream that runs without
/// being followed, or for none.
pub proof fn the_live_button_tells_whether_the_stream_is_followed(
    mode: AppMode,
    running: LiveButton,
    idle: LiveButton,
)
    requires
        call_ensures(live_button, (mode, true), running),
        call_ensures(live_button, (mode, false), idle),
    ensures
        mode == AppMode::Live ==> running == LiveButton::Tethered && idle == LiveButton::Tethered,
        mode != AppMode::Live ==> running == LiveButton::Detached && idle == LiveButton::NoStream,
{
}

/// A detached button tells how far behind the stream the playhead is; otherwise the
/// text is that of the plain button.
pub proof fn a_detached_button_tells_the_lag(lag: &str, tethered: String, detached: String, idle: String)
    requires
        call_ensures(LiveButton::label_with_lag, (LiveButton::Tethered, lag), tethered),
        call_ensures(LiveButton::label_with_lag, (LiveButton::Detached, lag), detached),
        call_ensures(LiveButton::label_with_lag, (LiveButton::NoStream, lag), idle),
    ensures
        tethered@ == "LIVE"@,
        detached@ == tethered@ + (" \u{b7} "@ + lag@ + " behind"@),
        idle@ == "GO LIVE"@,
{
    reveal_strlit("LIVE");
    reveal_strlit("LIVE \u{b7} ");
    reveal_strlit(" \u{b7} ");
    assert(detached@ =~= tethered@ + (" \u{b7} "@ + lag@ + " behind"@));
}

/// A step backwards looks for an earlier sweep and one forwards for a later, of the
/// chosen elevation where one is chosen.
pub proof fn steps_look_for_the_neighbouring_sweep(
    n: u8,
    angle: i32,
    direction: i64,
    fixed: SweepLookup,
    latest: SweepLookup,
)
    requires
        call_ensures(
            sweep_lookup,
            (ElevationSelection::Fixed { elevation_number: n, angle }, direction),
            fixed,
        ),
        call_ensures(sweep_lookup, (ElevationSelection::Latest, direction), latest),
    ensures
        direction < 0 ==> fixed == SweepLookup::PreviousOf(n) && latest == SweepLookup::PreviousAny,
        direction > 0 ==> fixed == SweepLookup::NextOf(n) && latest == SweepLookup::NextAny,
{
}

/// The button pauses what plays or follows the stream, and plays everything else.
pub proof fn the_play_button_pauses_what_moves(
    playback: &PlaybackState,
    pauses: bool,
    hover: &'static str,
)
    requires
        call_ensures(offers_pause, (playback,), pauses),
        call_ensures(play_hover, (playback,), hover),
    ensures
        playback.time_model == TimeModel::Pinned ==> pauses && hover@
            == "Freeze (pause the live feed)"@,
        playback.time_model == TimeModel::Lookback ==> hover@ == "Return to live"@,
        playback.time_model == TimeModel::Free && playback.playing ==> pauses && hover@
            == "Pause"@,
        playback.time_model == TimeModel::Free && !playback.playing ==> !pauses && hover@
            == "Play"@,
{
}

/// Every control that the full transport has stands somewhere: beside the others, or
/// in the overflow where there is no room.
pub proof fn no_control_is_lost_where_it_is_narrow(
    has_bounds: bool,
    wide: TransportControls,
    narrow: TransportControls,
    plain: TransportControls,
)
    requires
        call_ensures(transport_controls, (true, false, has_bounds), wide),
        call_ensures(transport_controls, (true, true, has_bounds), narrow),
        call_ensures(transport_controls, (false, true, has_bounds), plain),
    ensures
        wide.zone_inline && !wide.overflow && !narrow.zone_inline && narrow.overflow,
        wide.loop_mode_inline == has_bounds && !wide.loop_mode_in_overflow,
        narrow.loop_mode_in_overflow == has_bounds && !narrow.loop_mode_inline,
        wide.clear_selection == has_bounds && narrow.clear_selection == has_bounds
            && plain.clear_selection == has_bounds,
        wide.clickable_time && wide.cache && narrow.clickable_time && narrow.cache,
        !plain.clickable_time && !plain.cache && !plain.overflow && !plain.zone_inline
            && !plain.loop_mode_inline && !plain.loop_mode_in_overflow,
{
}

/// A tap on the followed stream freezes it: the stream stops, the playhead stands
/// free and still. One on a detached stream asks to rejoin and changes nothing yet.
/// One without a stream asks for it, and clears the selection for normal speed.
pub proof fn a_tap_freezes_rejoins_or_starts(
    b: LiveButton,
    live: &mut Live,
    playback: &mut PlaybackState,
    r: TapEffect,
)
    requires
        call_ensures(LiveButton::tap, (b, live, playback), r),
    ensures
        b == LiveButton::Tethered ==> {
            &&& r.intent is None
            &&& r.stream.forget_observations
            &&& final(live).mode_state.phase == crate::live::LivePhase::Idle
            &&& final(live).mode_state.last_exit_reason == Some(LiveExitReason::UserStopped)
            &&& !final(playback).playing
            &&& final(playback).time_model == TimeModel::Free
            &&& final(playback).position_ms == old(playback).position_ms
            &&& final(playback).selection == old(playback).selection
        },
        b == LiveButton::Detached ==> {
            &&& r.intent == Some(Intent::ReturnToLive)
            &&& *final(playback) == *old(playback)
            &&& final(live).mode_state == old(live).mode_state
        },
        b == LiveButton::NoStream ==> {
            &&& r.intent == Some(Intent::StartLive)
            &&& final(playback).selection is None
            &&& final(playback).speed_ms_per_sec == 1000
            &&& final(playback).position_ms == old(playback).position_ms
            &&& final(playback).playing == old(playback).playing
            &&& final(live).mode_state == old(live).mode_state
        },
        b != LiveButton::Tethered ==> !r.stream.forget_observations,
        !r.stream.stop_channel,
{
}

/// A jump frees the playhead and sets it to the target, of which a twentieth of the
/// view lies before; it closes the picker and detaches from a stream.
pub proof fn a_jump_sets_the_playhead(
    live: &mut Live,
    playback: &mut PlaybackState,
    picker: &mut DateTimePickerState,
    target_ms: i64,
    now_ms: i64,
    pause_stream: bool,
    view_width_ms: u64,
    r: JumpEffect,
)
    requires
        target_ms - view_width_ms / 20 >= i64::MIN,
        call_ensures(
            jump_to,
            (live, playback, picker, target_ms, now_ms, pause_stream, view_width_ms),
            r,
        ),
    ensures
        final(playback).position_ms == target_ms,
        final(playback).time_model == TimeModel::Free,
        final(playback).playing == old(playback).playing,
        final(playback).selection == old(playback).selection,
        !final(picker).open,
        final(picker).year@.len() == 0,
        20 * (target_ms - r.view_start_ms) <= view_width_ms < 20 * (target_ms - r.view_start_ms)
            + 20,
        r.stream.stop_channel <==> old(live).mode_state.is_active() && pause_stream,
        old(live).mode_state.is_active() && !pause_stream && old(
            live,
        ).mode_state.detached_since_ms is None ==> final(live).mode_state.detached_since_ms == Some(
            now_ms,
        ),
{
}

/// The title of the picker names the zone in which it is filled in.
pub proof fn the_picker_names_its_zone(use_local: bool, zone: &'static str, title: String)
    requires
        call_ensures(zone_label, (use_local,), zone),
        call_ensures(picker_title, (use_local,), title),
    ensures
        use_local ==> zone@ == "Local"@,
        !use_local ==> zone@ == "UTC"@,
        title@ == "Jump to Date/Time ("@ + zone@ + ")"@,
{
}

/// The buttons of the quick jumps say how far back they go.
pub proof fn quick_jumps_say_how_far_they_go(a: &'static str, b: &'static str, c: &'static str)
    requires
        call_ensures(QuickJump::label, (QuickJump::OneHour,), a),
        call_ensures(QuickJump::label, (QuickJump::SixHours,), b),
        call_ensures(QuickJump::label, (QuickJump::OneDay,), c),
    ensures
        a@ == "1h ago"@ && QuickJump::OneHour.back_ms() == 3_600_000,
        b@ == "6h ago"@ && QuickJump::SixHours.back_ms() == 6 * QuickJump::OneHour.back_ms(),
        c@ == "24h ago"@ && QuickJump::OneDay.back_ms() == 24 * QuickJump::OneHour.back_ms(),
{
}

/// A stalled stream stands out, one that receives is told plainly, and the rest is
/// muted.
pub proof fn a_stalled_stream_stands_out(a: StreamActivity, dark: bool, c: Color32)
    requires
        call_ensures(stream_color, (a, dark), c),
    ensures
        a == StreamActivity::Stalled ==> c == crate::colors::live::acquiring(),
        a == StreamActivity::Receiving ==> c == crate::colors::ui::value(dark),
        a == StreamActivity::Idle || a == StreamActivity::Connecting || a == StreamActivity::Waiting
            ==> c == crate::colors::ui::label(dark),
{
}

/// A loop with a window or bounds is lit up.
pub proof fn a_bounded_loop_is_lit(has_window: bool, has_bounds: bool, dark: bool, c: Color32)
    requires
        call_ensures(loop_tint, (has_window, has_bounds, dark), c),
    ensures
        has_window ==> c == crate::colors::live::streaming(),
        has_bounds ==> c == crate::colors::live::streaming(),
        !has_window && !has_bounds ==> c == crate::colors::ui::value(dark),
{
}

/// The transport can be used wherever there is data under the playhead or a stream.
pub proof fn only_an_idle_application_has_no_transport(mode: AppMode, b: bool)
    requires
        call_ensures(is_interactive, (mode,), b),
    ensures
        b <==> mode == AppMode::Live || mode == AppMode::Archive,
{
}

} // verus!
