use nexrad_workbench::canvas::{
    caption_text, flat_passes, remembered_bounds, repaint_after, revealed_sweep, sweep_line, sweep_line_follows,
    CanvasCaption, CanvasFrame, CanvasPass, HourMinute, SweepLine, SweepSpan,
};
use nexrad_workbench::color_scale::{tick_label, tick_step, ticks};
use nexrad_workbench::geo::{GeoBounds, ScreenPos};
use nexrad_workbench::info::{
    header_text, is_archive, mode_tag, sweep_section, ActiveSweep, PreviousSweep,
};
use nexrad_workbench::inspector::{
    distance_label, polar_line, position_line, probe_lines, storm_color, storm_label, value_line,
    Probe,
};
use nexrad_workbench::national_mosaic::{
    classify_cell, emit_quad, emit_subdivided, grid_index, is_drawn, CellClass, RadarCutout,
};
use nexrad_workbench::overlays::{
    alerts_checked_label, drawn_overlays, Overlay, OverlayContext, ViewMode,
};
use nexrad_workbench::sweep::{
    align_pos, arc, chunk_borders, drawing, elevation_label, now_label, segment_color, stamp,
    sweep_label_align, time_at_arc, Donut, LabelAlign,
};
use nexrad_workbench::time_format::{
    age_color, format_age, format_age_compact, format_hhmm, format_time_short,
    format_unix_timestamp, format_unix_timestamp_with_date, utc_clock,
};

fn ctx(view: ViewMode) -> OverlayContext {
    OverlayContext {
        view,
        data_is_live: true,
        mosaic_layer: true,
        mosaic_has_image: true,
        alerts_warnings: true,
        alerts_other: false,
        alerts_checked: true,
    }
}

#[test]
fn overlays_follow_the_view() {
    assert_eq!(
        drawn_overlays(ctx(ViewMode::Flat2D)),
        vec![Overlay::Info, Overlay::ColorScale, Overlay::ScaleBar]
    );
    assert_eq!(
        drawn_overlays(ctx(ViewMode::Globe3D)),
        vec![Overlay::Info, Overlay::ColorScale, Overlay::Compass]
    );
    assert!(Overlay::MosaicTime.visible(ctx(ViewMode::Globe3D)));
    assert!(Overlay::AlertsTime.visible(ctx(ViewMode::Flat2D)));
    assert!(!Overlay::AlertsTime.visible(ctx(ViewMode::Globe3D)));
    assert_eq!(Overlay::AlertsTime.z_order(), 60);
    assert_eq!(alerts_checked_label("3:05 PM"), "Alerts checked 3:05 PM");
}

#[test]
fn the_readout_names_site_and_product() {
    assert_eq!(header_text("KTLX", "Velocity"), "KTLX \u{b7} Velocity");
    assert!(is_archive(Some(3_600_001)) && !is_archive(Some(3_600_000)) && !is_archive(None));
    let part = ActiveSweep {
        chunks: 2,
        chunks_expected: Some(6),
        radials_received: 120,
    };
    assert_eq!(mode_tag(true, Some(part)), Some("streaming 2/6".to_string()));
    assert_eq!(
        mode_tag(
            true,
            Some(ActiveSweep {
                chunks_expected: None,
                ..part
            })
        ),
        Some("streaming".to_string())
    );
    assert_eq!(mode_tag(true, None), Some("live".to_string()));
    assert_eq!(mode_tag(false, Some(part)), None);
}

#[test]
fn sweeps_are_described() {
    let s = sweep_section(
        "Current",
        Some(2),
        "0.9\u{b0}",
        "12:00:00",
        Some(65_000),
        Some(90_000),
        Some("live"),
    );
    assert_eq!(s.elevation, "Current: Elev 2 (0.9\u{b0})");
    assert_eq!(s.time, "  Time: 12:00:00");
    let (age, color) = s.age.unwrap();
    assert_eq!(age, "  Age: 1m30s \u{2013} 1m5s \u{b7} live");
    assert_eq!(color, age_color(65_000));
    let old = sweep_section("Current", None, "--", "t", Some(300_000), Some(310_000), None);
    assert_eq!(old.elevation, "Current: --");
    assert_eq!(old.age.unwrap().0, "  Age: 5m0s");
    let prev = PreviousSweep {
        elevation_number: 1,
        angle: 483,
        start_ms: 1_000,
        end_ms: 11_000,
    };
    assert_eq!(prev.shown_at(), 6_000);
    let future = prev.section("t", 5_000);
    assert_eq!(future.elevation, "Previous: Elev 1 (0.5\u{b0})");
    assert!(future.age.is_none());
    let below = PreviousSweep {
        angle: -200,
        ..prev
    };
    assert_eq!(below.section("t", 5_000).elevation, "Previous: Elev 1 (-0.2\u{b0})");
}

#[test]
fn only_the_flat_map_remembers_its_bounds() {
    let bounds = GeoBounds {
        min_lon: -98_000_000,
        min_lat: 35_000_000,
        max_lon: -97_000_000,
        max_lat: 36_000_000,
    };
    assert_eq!(remembered_bounds(ViewMode::Flat2D, bounds), Some(bounds));
    assert_eq!(remembered_bounds(ViewMode::Globe3D, bounds), None);
}

fn labels(min: i64, max: i64) -> Vec<String> {
    let step = tick_step(min, max);
    ticks(min, max).into_iter().map(|t| tick_label(t, step)).collect()
}

#[test]
fn ticks_are_multiples_of_the_step() {
    let one = 1_u64 << 34;
    assert_eq!(tick_step(0, 201_000), 60 * one);
    assert_eq!(tick_step(0, 200_000), 10 * one);
    assert_eq!(tick_step(-30_000, 30_000), 5 * one);
    assert_eq!(tick_step(0, 10_000), one);
    assert_eq!(labels(-32_000, 32_000), ["-30", "-20", "-10", "0", "10", "20", "30"]);
    assert_eq!(labels(208, 1_050), ["0.4", "0.6", "0.8", "1.0"]);
    assert!(ticks(5, 4).is_empty());
    // Up to the next tick from below zero there are no steps: minus zero.
    assert_eq!(labels(-100, 500), ["-0.0", "0.2", "0.4"]);
}

#[test]
fn the_probe_speaks_in_lines() {
    assert_eq!(
        position_line(35_333_361, -97_277_761),
        "35.3334\u{b0}N 97.2778\u{b0}W"
    );
    assert_eq!(position_line(-1_000_000, 2_500_000), "-1.0000\u{b0}N -2.5000\u{b0}W");
    assert_eq!(polar_line(123_450, 45_670), "Az: 123.5\u{b0}  Rng: 45.7 km");
    assert_eq!(value_line("REF", 45_500, "dBZ"), "REF: 45.5 dBZ");
    assert_eq!(value_line("CC", 987, ""), "CC: 0.987");
    assert_eq!(value_line("VEL", -12_340, "m/s"), "VEL: -12.3 m/s");
    let p = Probe {
        lat: 0,
        lon: -1_000_000,
        azimuth: 0,
        range_m: 0,
        value: None,
    };
    assert_eq!(probe_lines(p, "REF", "dBZ", None).len(), 2);
    let all = probe_lines(
        Probe {
            value: Some(1_000),
            ..p
        },
        "REF",
        "dBZ",
        Some("12:00:00".to_string()),
    );
    assert_eq!(all[2], "REF: 1.0 dBZ");
    assert_eq!(all[3], "12:00:00");
}

#[test]
fn distances_come_in_three_units() {
    assert_eq!(distance_label(100_000), "100.0 km / 54.0 nm / 62.1 mi");
    assert_eq!(distance_label(0), "0.0 km / 0.0 nm / 0.0 mi");
}

#[test]
fn storms_are_coloured_by_strength() {
    assert_eq!(storm_color(600).g, 50);
    assert_eq!(storm_color(599).g, 150);
    assert_eq!(storm_color(499).g, 220);
    assert_eq!(storm_label(555), "56");
    assert_eq!(storm_label(545), "54");
    assert_eq!(storm_label(-4), "-0");
}

#[test]
fn cells_are_placed_against_the_hole() {
    let p = |x: i64, y: i64| ScreenPos { x, y };
    let hole = RadarCutout {
        center: p(0, 0),
        radius: 100,
    };
    let cell = |x: i64| classify_cell(p(x, 0), p(x + 10, 0), p(x, 10), p(x + 10, 10), hole);
    assert_eq!(cell(0), CellClass::Inside);
    assert_eq!(cell(95), CellClass::Straddle);
    assert_eq!(cell(100), CellClass::Outside);
    assert!(is_drawn(4_000, true, true) && !is_drawn(4_001, true, true));
    assert_eq!(grid_index(10, 10), 120);
}

#[test]
fn meshes_skip_what_the_hole_hides() {
    let mut quad: Vec<u32> = Vec::new();
    emit_quad(&mut quad, 4);
    assert_eq!(quad, vec![4, 5, 6, 5, 7, 6]);
    let mut none: Vec<u32> = Vec::new();
    emit_subdivided(&mut none, 0, &vec![true; 1089]);
    assert!(none.is_empty());
    let mut all: Vec<u32> = Vec::new();
    emit_subdivided(&mut all, 10, &vec![false; 1089]);
    assert_eq!(all.len(), 6 * 1024);
    assert_eq!(&all[..6], &[10, 11, 43, 11, 44, 43]);
    assert_eq!(all.iter().max(), Some(&1098));
    let mut hidden = vec![true; 1089];
    hidden[34] = false;
    let mut some: Vec<u32> = Vec::new();
    emit_subdivided(&mut some, 0, &hidden);
    assert_eq!(some.len(), 24);
}

#[test]
fn clocks_are_written() {
    let c = utc_clock(1_700_000_000_045);
    assert_eq!(format_time_short(c), "22:13:20.045");
    assert!(format_unix_timestamp(c, false).starts_with("22:13:20"));
    assert!(format_unix_timestamp_with_date(c, false).contains("2023"));
    assert_eq!(utc_clock(-1).millis, 999);
    assert_eq!(format_hhmm(0, 5), "12:05");
    assert_eq!(format_hhmm(13, 30), "1:30");
}

#[test]
fn ages_are_written() {
    assert_eq!(format_age(59), "59s");
    assert_eq!(format_age(65), "1m5s");
    assert_eq!(format_age(3_660), "1h1m");
    assert_eq!(format_age(-5), "0s");
    assert_eq!(format_age(90_000), "1 day 1h");
    assert!(format_age_compact(10_000, 0).is_some());
    assert_ne!(age_color(60_001), age_color(60_000));
}

#[test]
fn the_canvas_is_painted_in_order() {
    let f = CanvasFrame {
        data_is_live: true,
        mosaic_layer: true,
        has_geo_layers: true,
        warnings_layer: true,
        other_alerts_layer: false,
        has_alerts: true,
        has_radar: true,
        has_radar_data: true,
        mping_layer: false,
        has_reports: false,
        report_selected: false,
        storm_cells_visible: false,
        has_storm_cells: false,
        gps_layer: false,
        has_gps: false,
        distance_tool_active: false,
        distance_started: false,
        data_probe_enabled: false,
        pointer_over_map: false,
        revealed_this_frame: false,
    };
    let passes = flat_passes(f);
    let place = |p: CanvasPass| passes.iter().position(|q| *q == p);
    assert_eq!(place(CanvasPass::Background), Some(0));
    assert!(place(CanvasPass::AlertsUnderRadar) < place(CanvasPass::Radar));
    assert!(place(CanvasPass::Radar) < place(CanvasPass::AlertsOverRadar));
    assert_eq!(place(CanvasPass::MpingReports), None);
    assert_eq!(repaint_after(true, true, false, false, false), Some(33));
    assert_eq!(repaint_after(true, false, false, false, true), Some(100));
    assert_eq!(repaint_after(false, true, true, true, true), None);
}

#[test]
fn the_sweep_line_goes_stale_between_sweeps() {
    let line = SweepLine {
        azimuth: 90_000,
        start: 0,
    };
    let s = sweep_line(false, Some(line), false, None);
    assert_eq!((s.line, s.stale), (Some(line), false));
    let s = sweep_line(false, None, true, Some(line));
    assert_eq!((s.line, s.stale), (Some(line), true));
    let sweeps = vec![SweepSpan {
        elevation_number: 1,
        start_ms: 0,
        end_ms: 10,
    }];
    assert_eq!(revealed_sweep(&sweeps, Some(1), 5), Some(0));
    assert_eq!(revealed_sweep(&sweeps, Some(2), 5), None);
    assert!(sweep_line_follows(1_000));
}

#[test]
fn the_caption_tells_of_a_gap() {
    assert_eq!(caption_text(CanvasCaption::Silent), None);
    assert_eq!(
        caption_text(CanvasCaption::Discrepancy {
            showing: HourMinute { hour: 9, minute: 5 },
            target: HourMinute {
                hour: 21,
                minute: 10
            },
            fetching: true
        }),
        Some("showing 9:05 \u{b7} fetching 9:10\u{2026}".to_string())
    );
}

#[test]
fn the_ring_is_drawn_around_the_radar() {
    assert_eq!(arc(350_000, 10_000), 20_000);
    assert_eq!(arc(10_000, 350_000), 340_000);
    assert_eq!(drawing(false, true, true, true).donut, Donut::TwoTone);
    assert_eq!(drawing(true, true, true, true).donut, Donut::Stale);
    assert_eq!(drawing(false, false, false, true).donut, Donut::Absent);
    assert_ne!(segment_color(0, 90_000), segment_color(100, 90_000));
    assert_eq!(stamp("12:00", Some("5s".to_string())), "12:00 5s");
    assert_eq!(elevation_label("E", 2, Some(879)), "E2 0.9\u{b0}");
    assert!(!now_label(Some(2), Some(900), None).is_empty());
    assert_eq!(time_at_arc(0, 36_000, 90_000), 9_000);
    assert_eq!(time_at_arc(36_000, 0, 90_000), 27_000);
    assert_eq!(chunk_borders(0), 0);
    assert_eq!(chunk_borders(3), 2);
    assert_eq!(sweep_label_align(90_000), LabelAlign::LeftCenter);
    let p = ScreenPos { x: 100, y: 100 };
    assert_eq!(
        align_pos(p, 20, 10, LabelAlign::CenterBottom),
        ScreenPos { x: 90, y: 90 }
    );
    assert_eq!(
        align_pos(p, 20, 10, LabelAlign::RightCenter),
        ScreenPos { x: 80, y: 95 }
    );
}
