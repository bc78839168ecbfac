use nexrad_workbench::geo::ScreenPos;
use nexrad_workbench::live::{AppMode, Live, LiveExitReason, LivePhase, StreamEffect};
use nexrad_workbench::long_press::{LongPress, TouchFrame};
use nexrad_workbench::modal_states::DateTimePickerState;
use nexrad_workbench::playback::{PlaybackMode, PlaybackState, TimeModel};
use nexrad_workbench::scrubber::{
    available_spans, data_range, now_marker, offset_at, scrub, time_at, track_span, ScrubEffect,
    ScrubInput, TimeSpan,
};
use nexrad_workbench::transport::{
    is_interactive, jump_target, jump_to, live_button, loop_header, loop_tint, offers_pause,
    picker_title, play_hover, shown_version, step_frame, step_jog,
    stream_color, sweep_lookup, transport_controls, unreadable_paste, zone_label,
    ElevationSelection, Intent, LiveButton, PickerPress, QuickJump, StreamActivity, SweepLookup,
};

fn effects(stop_channel: bool, forget_observations: bool) -> StreamEffect {
    StreamEffect {
        stop_channel,
        forget_observations,
    }
}

fn span(start_ms: i64, end_ms: i64) -> TimeSpan {
    TimeSpan { start_ms, end_ms }
}

fn streaming() -> Live {
    let mut l = Live::new();
    l.mode_state.phase = LivePhase::Streaming;
    l
}

fn micro() -> PlaybackState {
    PlaybackState {
        mode: PlaybackMode::Micro,
        position_ms: 10_000,
        ..PlaybackState::default()
    }
}

#[test]
fn the_live_button_has_three_states() {
    assert_eq!(live_button(AppMode::Live, true), LiveButton::Tethered);
    assert_eq!(live_button(AppMode::Archive, true), LiveButton::Detached);
    assert_eq!(live_button(AppMode::Archive, false), LiveButton::NoStream);
    assert_eq!(LiveButton::NoStream.label(), "GO LIVE");
    assert_eq!(
        LiveButton::Detached.label_with_lag("1:05"),
        "LIVE \u{b7} 1:05 behind"
    );
    assert_eq!(LiveButton::Tethered.click(), Intent::StopLive);
    assert_eq!(LiveButton::NoStream.click(), Intent::GoLive);
    assert_eq!(
        LiveButton::Tethered.hover_text(true),
        "Tethered to live \u{2014} tap to freeze"
    );
}

#[test]
fn tapping_live_freezes_joins_or_starts() {
    let mut l = streaming();
    let mut p = PlaybackState {
        time_model: TimeModel::Pinned,
        playing: true,
        ..micro()
    };
    let frozen = LiveButton::Tethered.tap(&mut l, &mut p);
    assert_eq!(frozen.intent, None);
    assert_eq!(frozen.stream, effects(false, true));
    assert!(!l.mode_state.is_active() && !p.playing);
    assert_eq!(l.mode_state.last_exit_reason, Some(LiveExitReason::UserStopped));
    assert_eq!(p.position_ms, 10_000);
    let mut q = PlaybackState {
        selection: Some((1, 2)),
        speed_ms_per_sec: 60_000,
        ..micro()
    };
    let started = LiveButton::NoStream.tap(&mut Live::new(), &mut q);
    assert_eq!(started.intent, Some(Intent::StartLive));
    assert_eq!(started.stream, effects(false, false));
    assert_eq!(q.selection, None);
    assert_eq!(q.speed_ms_per_sec, 1_000);
    let joined = LiveButton::Detached.tap(&mut streaming(), &mut q);
    assert_eq!(joined.intent, Some(Intent::ReturnToLive));
    assert_eq!(joined.stream, effects(false, false));
}

#[test]
fn the_play_button_says_what_it_does() {
    let mut p = micro();
    assert!(!offers_pause(&p));
    assert_eq!(play_hover(&p), "Play");
    p.playing = true;
    assert_eq!(play_hover(&p), "Pause");
    p.time_model = TimeModel::Lookback;
    assert_eq!(play_hover(&p), "Return to live");
    p.time_model = TimeModel::Pinned;
    p.playing = false;
    assert!(offers_pause(&p));
    assert_eq!(play_hover(&p), "Freeze (pause the live feed)");
    assert!(!is_interactive(AppMode::Idle) && is_interactive(AppMode::Archive));
}

#[test]
fn a_step_goes_to_the_neighbour_or_a_second_on() {
    let mut l = streaming();
    let mut p = micro();
    let r = step_frame(&mut l, &mut p, 99, false, 1, Some(12_345));
    assert_eq!(p.position_ms, 12_345);
    assert_eq!(r.frames, None);
    assert_eq!(r.stream, effects(false, false));
    assert_eq!(l.mode_state.detached_since_ms, Some(99));
    step_frame(&mut l, &mut p, 99, false, -1, None);
    assert_eq!(p.position_ms, 11_345);
    let mut m = PlaybackState::default();
    let r = step_frame(&mut streaming(), &mut m, 99, true, -1, Some(1));
    assert_eq!(r.frames, Some(-1));
    assert_eq!(r.stream, effects(true, true));
    assert_eq!(m.position_ms, 0);
}

#[test]
fn a_jog_steps_as_a_frame_does() {
    for (mode, neighbour) in [
        (PlaybackMode::Micro, Some(12_345)),
        (PlaybackMode::Micro, None),
        (PlaybackMode::Macro, Some(12_345)),
    ] {
        for pause in [false, true] {
            let (mut a, mut b) = (streaming(), streaming());
            let mut p = PlaybackState { mode, ..micro() };
            let mut q = PlaybackState { mode, ..micro() };
            let first = step_frame(&mut a, &mut p, 99, pause, -1, neighbour);
            let second = step_jog(&mut b, &mut q, 99, pause, -1, neighbour);
            assert_eq!(first, second);
            assert_eq!(p.position_ms, q.position_ms);
            assert_eq!(p.time_model, q.time_model);
            assert_eq!(a.mode_state, b.mode_state);
        }
    }
}

#[test]
fn a_step_looks_for_the_shown_elevation() {
    let fixed = ElevationSelection::Fixed {
        elevation_number: 3,
        angle: 1_300,
    };
    assert_eq!(sweep_lookup(fixed, -1), SweepLookup::PreviousOf(3));
    assert_eq!(sweep_lookup(fixed, 1), SweepLookup::NextOf(3));
    assert_eq!(sweep_lookup(ElevationSelection::Latest, -1), SweepLookup::PreviousAny);
    assert_eq!(sweep_lookup(ElevationSelection::Latest, 1), SweepLookup::NextAny);
}

#[test]
fn jumps_need_an_instant() {
    let press = PickerPress {
        quick: None,
        jump: true,
        enter: false,
    };
    assert_eq!(jump_target(press, Some(5), 0), Some(5));
    assert_eq!(jump_target(press, None, 0), None);
    let quick = PickerPress {
        quick: Some(QuickJump::SixHours),
        jump: false,
        enter: false,
    };
    assert_eq!(jump_target(quick, Some(5), 30_000_000), Some(8_400_000));
    assert_eq!(QuickJump::OneDay.label(), "24h ago");
}

#[test]
fn a_jump_closes_the_picker() {
    let mut l = streaming();
    let mut p = PlaybackState {
        time_model: TimeModel::Pinned,
        ..micro()
    };
    let mut picker = DateTimePickerState::default();
    picker.open = true;
    picker.year = "2024".to_string();
    let r = jump_to(&mut l, &mut p, &mut picker, 1_000_000, 5, true, 60_000);
    assert!(!picker.open && picker.year.is_empty());
    assert_eq!(p.position_ms, 1_000_000);
    assert_eq!(p.time_model, TimeModel::Free);
    assert_eq!(r.view_start_ms, 997_000);
    assert_eq!(r.stream, effects(true, true));
}

#[test]
fn transport_texts() {
    assert_eq!(
        unreadable_paste("abc"),
        "Couldn't read \"abc\" as a date/time"
    );
    assert_eq!(zone_label(true), "Local");
    assert_eq!(picker_title(false), "Jump to Date/Time (UTC)");
    assert_eq!(loop_header(None, true), "Loop");
    assert_eq!(loop_header(Some("8 frames"), false), "Loop \u{b7} 8 frames");
    assert_eq!(
        loop_header(Some("1 h"), true),
        "Loop \u{b7} 1 h \u{b7} pinned"
    );
    assert_ne!(loop_tint(true, false, true), loop_tint(false, false, true));
    assert_ne!(
        stream_color(StreamActivity::Stalled, true),
        stream_color(StreamActivity::Receiving, true)
    );
}

#[test]
fn narrow_rows_move_controls_into_the_menu() {
    let wide = transport_controls(true, false, true);
    assert!(wide.zone_inline && wide.loop_mode_inline && !wide.overflow);
    let narrow = transport_controls(true, true, true);
    assert!(!narrow.zone_inline && narrow.overflow && narrow.loop_mode_in_overflow);
    let basic = transport_controls(false, true, true);
    assert!(!basic.overflow && basic.clear_selection && !basic.cache);
}

#[test]
fn versions_are_cut_after_eighteen_bytes() {
    assert_eq!(shown_version("v1.2.3", false), "v1.2.3");
    assert_eq!(shown_version("123456789012345678", false), "123456789012345678");
    assert_eq!(
        shown_version("1234567890123456789", false),
        "123456789012345678\u{2026}"
    );
    assert_eq!(shown_version("1234567890123456789", true), "1234567890123456789");
    // A character that begins before the limit is kept whole.
    assert_eq!(
        shown_version("12345678901234567\u{e9}xyz", false),
        "12345678901234567\u{e9}\u{2026}"
    );
}

#[test]
fn the_track_spans_all_data() {
    let listed = vec![span(50, 80), span(10, 20)];
    assert_eq!(data_range(Some(span(30, 40)), &listed), Some(span(10, 80)));
    assert_eq!(data_range(None, &listed), Some(span(10, 80)));
    assert_eq!(data_range(None, &Vec::new()), None);
    assert_eq!(track_span(Some(span(10, 80)), false, 100), span(10, 80));
    assert_eq!(track_span(Some(span(10, 80)), true, 100), span(10, 100));
    assert_eq!(track_span(None, true, 0), span(-1_800_000, 1_800_000));
    assert_eq!(track_span(Some(span(5, 5)), false, 0), span(-1_800_000, 1_800_000));
    assert!(now_marker(span(10, 100), true, 100) && !now_marker(span(10, 80), true, 100));
    assert_eq!(available_spans(&vec![true, false, false]), vec![1, 2]);
}

#[test]
fn the_track_maps_time_to_place_and_back() {
    let t = span(1_000, 2_000);
    assert_eq!(offset_at(t, 1_250, 400_000), 100_000);
    assert_eq!(offset_at(t, 0, 400_000), 0);
    assert_eq!(offset_at(t, 9_999, 400_000), 400_000);
    assert_eq!(time_at(t, 100_000, 400_000), 1_250);
    assert_eq!(time_at(t, -5, 400_000), 1_000);
    assert_eq!(time_at(t, 400_001, 400_000), 2_000);
}

fn tap(pointer_ms: i64) -> ScrubInput {
    ScrubInput {
        long_pressed: false,
        pressed_scan: None,
        pointer_ms: Some(pointer_ms),
        dragged: false,
        clicked: true,
        on_pill: false,
    }
}

#[test]
fn scrubbing_seeks_and_pauses() {
    let mut l = streaming();
    let mut p = PlaybackState {
        playing: true,
        ..micro()
    };
    let r = scrub(tap(777), &mut l, &mut p, 5, false);
    assert_eq!(r, ScrubEffect::Sought(effects(false, false)));
    assert_eq!(p.position_ms, 777);
    assert!(p.playing);
    let drag = ScrubInput {
        dragged: true,
        clicked: false,
        ..tap(888)
    };
    let r = scrub(drag, &mut l, &mut p, 5, true);
    assert_eq!(r, ScrubEffect::Sought(effects(true, true)));
    assert_eq!(p.position_ms, 888);
    assert!(!p.playing);
}

#[test]
fn the_pill_and_the_long_press_go_before_a_seek() {
    let mut l = streaming();
    let mut p = micro();
    let pill = ScrubInput {
        on_pill: true,
        ..tap(777)
    };
    assert_eq!(scrub(pill, &mut l, &mut p, 5, false), ScrubEffect::ReturnToLive);
    assert_eq!(p.position_ms, 10_000);
    let held = ScrubInput {
        long_pressed: true,
        pressed_scan: Some(42),
        ..pill
    };
    assert_eq!(scrub(held, &mut l, &mut p, 5, false), ScrubEffect::OpenInspector(42));
    // Without a stream there is no pill.
    let r = scrub(pill, &mut Live::new(), &mut p, 5, true);
    assert_eq!(r, ScrubEffect::Sought(effects(false, false)));
}

fn touch(x: i64, now_ms: i64) -> TouchFrame {
    TouchFrame {
        down: true,
        pos: Some(ScreenPos { x, y: 0 }),
        now_ms,
    }
}

#[test]
fn a_still_hold_fires_once() {
    let mut press = LongPress { press: None };
    let first = press.detect(touch(0, 1_000));
    assert!(first.fired.is_none() && first.repaint);
    assert!(press.detect(touch(12_000, 1_499)).fired.is_none());
    let fired = press.detect(touch(5_000, 1_500));
    assert_eq!(fired.fired, Some(ScreenPos { x: 0, y: 0 }));
    assert!(press.detect(touch(5_000, 9_000)).fired.is_none());
    let up = TouchFrame {
        down: false,
        pos: None,
        now_ms: 9_500,
    };
    press.detect(up);
    assert!(press.press.is_none());
}

#[test]
fn a_drag_is_no_long_press() {
    let mut press = LongPress { press: None };
    press.detect(touch(0, 0));
    let moved = press.detect(touch(12_001, 600));
    assert!(moved.fired.is_none() && !moved.repaint);
    assert!(press.detect(touch(12_001, 1_099)).fired.is_none());
    assert!(press.detect(touch(12_001, 1_100)).fired.is_some());
}

#[test]
fn a_finger_that_stays_down_fires_once_however_it_moves() {
    let mut press = LongPress { press: None };
    press.detect(touch(0, 0));
    assert!(press.detect(touch(0, 500)).fired.is_some());
    // It wanders off, rests there, and comes back.
    assert!(press.detect(touch(40_000, 600)).fired.is_none());
    assert!(press.detect(touch(40_000, 2_000)).fired.is_none());
    assert!(press.detect(touch(0, 2_100)).fired.is_none());
    assert!(press.detect(touch(0, 9_000)).fired.is_none());
    // Once lifted, the next one is a touch of its own.
    let up = TouchFrame {
        down: false,
        pos: None,
        now_ms: 9_500,
    };
    press.detect(up);
    press.detect(touch(0, 10_000));
    assert!(press.detect(touch(0, 10_500)).fired.is_some());
}
