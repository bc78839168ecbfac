use nexrad_workbench::alerts_modal::AlertsState;
use nexrad_workbench::bottom_panel::{
    advance, drawer_shown, panel_heights, resized_drawer, space_toggles, Advance,
};
use nexrad_workbench::chrome::{
    should_hide_chrome, AutoHideFrame, AutoHideInputs, Chrome, MobileChromeAutoHide,
    MobileSettingsTab,
};
use nexrad_workbench::derived::{Derived, FrameInputs};
use nexrad_workbench::diagnostics::{Diagnostics, DiagnosticsInputs};
use nexrad_workbench::playback::{Playback, PlaybackMode, PlaybackState, TimeModel};

const IDLE_MS: u32 = 4_000;

fn base() -> AutoHideInputs {
    AutoHideInputs {
        now_ms: 100_000,
        last_interaction_ms: 100_000,
        is_playing: true,
        modal_open: false,
        gesture_active: false,
    }
}

#[test]
fn paused_chrome_stays_visible() {
    let input = AutoHideInputs {
        is_playing: false,
        now_ms: 1_000_000,
        last_interaction_ms: 0,
        ..base()
    };
    assert!(!should_hide_chrome(input, IDLE_MS));
}

#[test]
fn playing_hides_after_idle_threshold() {
    let input = AutoHideInputs {
        now_ms: 104_000,
        ..base()
    };
    assert!(should_hide_chrome(input, IDLE_MS));
}

#[test]
fn playing_stays_visible_within_idle_window() {
    let input = AutoHideInputs {
        now_ms: 103_500,
        ..base()
    };
    assert!(!should_hide_chrome(input, IDLE_MS));
}

#[test]
fn modal_open_suppresses_hide() {
    let input = AutoHideInputs {
        now_ms: 114_000,
        modal_open: true,
        ..base()
    };
    assert!(!should_hide_chrome(input, IDLE_MS));
}

#[test]
fn active_gesture_suppresses_hide() {
    let input = AutoHideInputs {
        now_ms: 114_000,
        gesture_active: true,
        ..base()
    };
    assert!(!should_hide_chrome(input, IDLE_MS));
}

#[test]
fn tap_reveals_then_hides_again_after_idle() {
    let mut h: MobileChromeAutoHide = Chrome::new().mobile_auto_hide;
    let frame = |now_ms: i64, pressed: bool| AutoHideFrame {
        now_ms,
        pressed,
        is_playing: true,
        modal_open: false,
        gesture_active: false,
    };
    h.resolve(frame(50_000, false), IDLE_MS);
    assert!(h.hidden);
    h.resolve(frame(50_000, true), IDLE_MS);
    assert!(!h.hidden && h.revealed_this_frame);
    let wait = h.resolve(frame(50_500, false), IDLE_MS);
    assert!(!h.hidden && !h.revealed_this_frame);
    assert_eq!(wait, Some(3_500));
    h.resolve(frame(54_100, false), IDLE_MS);
    assert!(h.hidden);
}

#[test]
fn the_live_edge_advances_without_playing() {
    let mut p = PlaybackState::default();
    assert!(!p.is_advancing());
    p.time_model = TimeModel::Lookback;
    assert!(!p.is_advancing());
    p.time_model = TimeModel::Pinned;
    assert!(p.is_advancing());
    p.time_model = TimeModel::Free;
    p.playing = true;
    assert!(p.is_advancing());
}

#[test]
fn open_modals_count_as_overlays() {
    let closed = AlertsState {
        alerts: Vec::new(),
        list_modal_open: false,
        selected_alert_id: None,
    };
    let mut c = Chrome::new();
    assert!(!c.any_overlay_open(false, false, &closed));
    assert!(c.any_overlay_open(true, false, &closed));
    assert!(c.any_overlay_open(false, true, &closed));
    c.scan_inspector = Some(1);
    assert!(c.any_overlay_open(false, false, &closed));
    c.scan_inspector = None;
    c.activity_sheet_open = true;
    assert!(c.any_overlay_open(false, false, &closed));
    c.activity_sheet_open = false;
    c.reset_settings_modal_open = true;
    assert!(c.any_overlay_open(false, false, &closed));
    c.reset_settings_modal_open = false;
    assert!(!c.any_overlay_open(false, false, &closed));
}

#[test]
fn the_settings_open_on_their_first_tab() {
    let mut c = Chrome::new();
    c.mobile_settings_tab = MobileSettingsTab::More;
    c.toggle_mobile_settings();
    assert!(c.mobile_settings_open);
    assert_eq!(c.mobile_settings_tab, MobileSettingsTab::Playback);
    c.request_geolocation();
    assert!(c.mobile_geolocate_requested && !c.mobile_settings_open);
}

#[test]
fn an_open_drawer_leaves_the_canvas_room() {
    let p = panel_heights(900_000, 115_000, None);
    assert_eq!((p.drawer, p.total), (0, 115_000));
    let p = panel_heights(900_000, 115_000, Some(200_000));
    assert_eq!((p.drawer, p.total), (200_000, 329_000));
    let p = panel_heights(400_000, 115_000, Some(600_000));
    assert_eq!((p.drawer, p.total), (135_000, 264_000));
    let p = panel_heights(200_000, 115_000, Some(600_000));
    assert_eq!((p.drawer, p.total), (0, 129_000));
    assert!(drawer_shown(true, true) && !drawer_shown(false, true));
}

#[test]
fn the_drawer_is_resized_within_bounds() {
    assert_eq!(resized_drawer(200_000, -50_000), 250_000);
    assert_eq!(resized_drawer(200_000, 150_000), 100_000);
    assert_eq!(resized_drawer(590_000, -50_000), 600_000);
}

#[test]
fn the_space_bar_plays_alone() {
    assert!(space_toggles(true, false, false));
    assert!(!space_toggles(true, true, false));
    assert!(!space_toggles(true, false, true));
}

#[test]
fn playback_advances_by_its_mode() {
    let mut p = PlaybackState::default();
    assert_eq!(advance(&p), Advance::Still);
    p.playing = true;
    p.mode = PlaybackMode::Micro;
    assert_eq!(advance(&p), Advance::Smooth);
    p.time_model = TimeModel::Lookback;
    assert_eq!(advance(&p), Advance::Frames);
}

#[test]
fn a_frame_is_derived_once() {
    let mut playback = Playback::default();
    playback.state.mode = PlaybackMode::Micro;
    let inputs = FrameInputs {
        now_ms: 5,
        last_visible_bounds: None,
        data_is_live: true,
        sweep_animation: true,
        advanced: true,
    };
    let d = Derived::for_frame(inputs, &playback);
    assert_eq!(d.frame_now_ms, 5);
    assert!(d.data_is_live && d.effective_sweep_animation);
    playback.state.mode = PlaybackMode::Macro;
    assert!(!Derived::for_frame(inputs, &playback).effective_sweep_animation);
}

#[test]
fn a_new_key_invalidates_the_reports_once() {
    let mut d = Diagnostics::new();
    d.mping.invalidate_requested = true;
    let inputs = DiagnosticsInputs {
        is_live: true,
        mping_layer_visible: true,
        mping_pinned_to_now: false,
        site_id: "KTLX",
        playback_ms: 7,
    };
    let first = d.tick(inputs);
    assert!(first.mping.invalidate && first.alerts_live);
    let second = d.tick(inputs);
    assert!(!second.mping.invalidate);
    assert_eq!(second.mping.playback_ms, 7);
    assert_eq!(second.mping.site_id, "KTLX");
}
