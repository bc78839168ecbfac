use nexrad_workbench::canvas_interaction::pick_mping_report_at;
use nexrad_workbench::event_modal::BrowserTime;
use nexrad_workbench::geo::{GeoBounds, GeoPoint, ScreenPos};
use nexrad_workbench::mping::{
    compass_dir, count_visible, detail_lines, drawn_reports, format_obtime, format_obtime_local,
    format_relative, marker_radius, popover_anchor, selected_report, MpingButton, MpingIntent,
    MpingModalState, MpingState, ReportCategory, ScreenRect, StormReport,
};

fn report(id: i64, obtime_ms: i64) -> StormReport {
    StormReport {
        id,
        obtime_ms,
        category: ReportCategory::Other,
        description: String::new(),
        at: GeoPoint {
            lat: 45_455_830,
            lon: -98_413_060,
        },
    }
}

fn world() -> GeoBounds {
    GeoBounds {
        min_lon: -110_000_000,
        min_lat: 40_000_000,
        max_lon: -90_000_000,
        max_lat: 50_000_000,
    }
}

fn at(x: i64, y: i64) -> ScreenPos {
    ScreenPos {
        x: x * 1000,
        y: y * 1000,
    }
}

#[test]
fn compass_cardinals() {
    assert_eq!(compass_dir(0), "N");
    assert_eq!(compass_dir(90_000), "E");
    assert_eq!(compass_dir(180_000), "S");
    assert_eq!(compass_dir(270_000), "W");
}

#[test]
fn compass_intercardinals() {
    assert_eq!(compass_dir(45_000), "NE");
    assert_eq!(compass_dir(135_000), "SE");
    assert_eq!(compass_dir(225_000), "SW");
    assert_eq!(compass_dir(315_000), "NW");
}

#[test]
fn compass_secondary_intercardinal() {
    assert_eq!(compass_dir(22_500), "NNE");
}

#[test]
fn compass_wraps_at_360() {
    assert_eq!(compass_dir(360_000), "N");
}

#[test]
fn compass_rounds_to_nearest_sector() {
    assert_eq!(compass_dir(11_250), "NNE");
    assert_eq!(compass_dir(10_000), "N");
}

#[test]
fn relative_at_playback_time() {
    assert_eq!(format_relative(0), "at playback time");
    assert_eq!(format_relative(400), "at playback time");
    assert_eq!(format_relative(-400), "at playback time");
}

#[test]
fn relative_seconds_after() {
    assert_eq!(format_relative(30_000), "30s after playback");
}

#[test]
fn relative_seconds_before() {
    assert_eq!(format_relative(-45_000), "45s before playback");
}

#[test]
fn relative_minutes_after() {
    assert_eq!(format_relative(120_000), "2m after playback");
}

#[test]
fn relative_minutes_before() {
    assert_eq!(format_relative(-120_000), "2m before playback");
}

#[test]
fn relative_hours_after() {
    assert_eq!(format_relative(7_200_000), "2.0h after playback");
}

#[test]
fn relative_hours_before() {
    assert_eq!(format_relative(-7_200_000), "2.0h before playback");
}

#[test]
fn relative_boundary_just_under_an_hour() {
    assert_eq!(format_relative(3_599_000), "60m after playback");
}

#[test]
fn obtime_utc_epoch() {
    assert_eq!(format_obtime(0), "1970-01-01 00:00 UTC");
}

#[test]
fn obtime_utc_known_timestamp() {
    assert_eq!(format_obtime(1_700_000_000_000), "2023-11-14 22:13 UTC");
}

#[test]
fn obtime_utc_truncates_seconds() {
    assert_eq!(format_obtime(1_700_000_030_000), "2023-11-14 22:13 UTC");
}

#[test]
fn obtime_beyond_the_calendar_is_unknown() {
    assert_eq!(format_obtime(i64::MAX), "unknown");
}

#[test]
fn obtime_local_counts_months_from_one() {
    let t = BrowserTime {
        year: 2024,
        month0: 11,
        day: 3,
        hour: 4,
        minute: 5,
        second: 6,
    };
    assert!(format_obtime_local(t).starts_with("2024-12-03 04:05"));
}

#[test]
fn mping_click_at_marker_hits_visible_report() {
    let reports = vec![report(42, 1000)];
    let hit = pick_mping_report_at(at(400, 300), world(), &reports, &vec![at(400, 300)], 1_000_000);
    assert_eq!(hit.map(|i| reports[i].id), Some(42));
}

#[test]
fn mping_future_report_not_hit_testable() {
    let reports = vec![report(42, 1000)];
    let hit = pick_mping_report_at(at(400, 300), world(), &reports, &vec![at(400, 300)], 0);
    assert!(hit.is_none());
}

#[test]
fn mping_click_outside_radius_misses() {
    let reports = vec![report(42, 0)];
    let hit = pick_mping_report_at(at(400, 310), world(), &reports, &vec![at(400, 300)], 1_000_000);
    assert!(hit.is_none());
}

#[test]
fn mping_picks_nearest_of_two_in_radius() {
    let reports = vec![report(1, 0), report(2, 0)];
    let places = vec![at(400, 300), at(404, 303)];
    let hit = pick_mping_report_at(at(400, 300), world(), &reports, &places, 1_000_000);
    assert_eq!(hit.map(|i| reports[i].id), Some(1));
}

#[test]
fn reports_are_drawn_once_made_and_near_the_view() {
    let reports = vec![report(1, 0), report(2, 5000)];
    assert_eq!(count_visible(&reports, 1000), 1);
    assert_eq!(drawn_reports(&reports, world(), (0, 10_000), 1000), vec![0]);
    assert_eq!(drawn_reports(&reports, world(), (0, 10_000), 5000), vec![0, 1]);
    assert_eq!(selected_report(&reports, Some(2), 1000), None);
    assert_eq!(selected_report(&reports, Some(2), 5000), Some(1));
    assert!(marker_radius(1, Some(1)) > marker_radius(1, None));
}

#[test]
fn the_popover_stays_on_the_canvas() {
    let canvas = ScreenRect {
        left: 0,
        top: 0,
        right: 800_000,
        bottom: 600_000,
    };
    let p = popover_anchor(at(790, 590), 200_000, 100_000, canvas);
    assert!(p.x >= 0 && p.x + 200_000 <= 800_000);
    assert!(p.y >= 0 && p.y + 100_000 <= 600_000);
}

#[test]
fn a_report_is_described() {
    let lines = detail_lines(&report(1, 0), "Other", "1970-01-01 00:00 UTC", 0, 12_300, 90_000);
    assert!(lines.iter().any(|l| l.contains("at playback time")));
    assert!(lines.iter().any(|l| l.contains("12.3") && l.contains("E")));
}

#[test]
fn the_settings_keep_a_trimmed_key() {
    let mut m = MpingModalState::default();
    m.begin_frame(true, &Some("abc".to_string()));
    assert_eq!(m.key_input, "abc");
    m.key_input = "  key \u{3000}".to_string();
    match m.press(MpingButton::Save, true) {
        MpingIntent::SaveMpingApiKey(Some(k)) => assert_eq!(k, "key"),
        _ => panic!("the key is saved"),
    }
    m.key_input = " \t".to_string();
    assert!(matches!(
        m.press(MpingButton::Save, false),
        MpingIntent::SaveMpingApiKey(None)
    ));
    assert!(matches!(m.press(MpingButton::Clear, false), MpingIntent::Nothing));
    assert!(matches!(m.press(MpingButton::Clear, true), MpingIntent::ClearMpingKey));
    assert_eq!(m.key_input, "");
}

#[test]
fn the_layer_says_how_it_fares() {
    let mut s = MpingState {
        api_key: None,
        last_error: None,
        fetch_in_flight: false,
        last_success_ms: 0,
        reports: vec![report(1, 0), report(2, 5000)],
        total_count: 2,
        selected_report_id: None,
        settings_modal_open: false,
        invalidate_requested: false,
    };
    assert_eq!(s.status_line(1000).text, "Save a key to enable the layer.");
    s.api_key = Some("k".to_string());
    assert_eq!(
        s.status_line(1000).text,
        "Layer is enabled but no fetch has run yet."
    );
    s.last_success_ms = 1;
    assert_eq!(
        s.status_line(1000).text,
        "\u{2713} 1 report(s) loaded (showing 1 of 2)"
    );
    s.fetch_in_flight = true;
    assert_eq!(s.status_line(1000).text, "Fetching reports\u{2026}");
    s.last_error = Some("401".to_string());
    assert_eq!(s.status_line(1000).text, "\u{26A0} 401");
}
