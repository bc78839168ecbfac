use nexrad_workbench::acquisition::range_estimate;
use nexrad_workbench::acquisition_drawer::{status_line, OperationStatus};
use nexrad_workbench::activity::RowStatus;
use nexrad_workbench::color_scale::{tick_label, tick_step, ticks};
use nexrad_workbench::inspector::{distance_label, polar_line, position_line, value_line};
use nexrad_workbench::mping::format_relative;
use nexrad_workbench::queue_sheet::operation_note;
use nexrad_workbench::radar_operations::{
    angle_readout, build_elevation_rows, DefinedCut, Scan, ScanSweep,
};
use nexrad_workbench::right_panel::storage_usage;
use nexrad_workbench::scale_bar::{format_km, format_mi};

fn note(duration_ms: u64) -> String {
    RowStatus::Completed { duration_ms }.note()
}

/// Thousandths as the nearest number in single precision.
fn single(n: i64) -> f32 {
    let sign = if n < 0 { "-" } else { "" };
    let n = n.abs();
    format!("{sign}{}.{:03}", n / 1000, n % 1000).parse().unwrap()
}

#[test]
fn durations_are_shown_as_they_are_held() {
    assert_eq!(note(350), "0.3s");
    assert_eq!(note(250), "0.2s");
    assert_eq!(note(450), "0.5s");
    assert_eq!(note(1_150), "1.1s");
    for ms in 0..100_000_u64 {
        assert_eq!(note(ms), format!("{:.1}s", ms as f64 / 1000.0));
    }
    let mut ms = 50_u64;
    while ms < 1 << 52 {
        assert_eq!(note(ms), format!("{:.1}s", ms as f64 / 1000.0));
        ms = ms * 3 + 50;
    }
    let done = OperationStatus::Completed {
        duration_ms: 350,
        bytes: 0,
    };
    assert_eq!(status_line(&done, "1 KB"), "0.3s  1 KB");
    assert_eq!(operation_note(&done), Some("0.3s".to_string()));
}

#[test]
fn hours_are_shown_as_they_are_held() {
    for minutes in 0..6_000_i64 {
        let hours = (minutes * 60) as f64 / 3600.0;
        assert_eq!(
            range_estimate((0, minutes * 60_000), 300_000, 1).duration_line(),
            format!("  \u{2022} Duration: {hours:.1} hours")
        );
        if minutes >= 60 {
            assert_eq!(
                format_relative(minutes * 60_000),
                format!("{hours:.1}h after playback")
            );
        }
    }
}

#[test]
fn places_are_shown_as_they_are_held() {
    for k in 0..20_000_i64 {
        let n = k * 4_350 + 50;
        let degrees: f64 = format!("{}.{:06}", n / 1_000_000, n % 1_000_000).parse().unwrap();
        assert_eq!(
            position_line(n, -n),
            format!("{degrees:.4}\u{b0}N {degrees:.4}\u{b0}W")
        );
    }
    for n in 0..50_000_u64 {
        let v = n as f64 / 1000.0;
        assert_eq!(polar_line(n, n), format!("Az: {v:.1}\u{b0}  Rng: {v:.1} km"));
    }
    for k in 0..20_000_u64 {
        let km = (k * 1_050) as f64 / 1000.0;
        assert_eq!(
            distance_label(k * 1_050),
            format!("{km:.1} km / {:.1} nm / {:.1} mi", km * 0.539957, km * 0.621371)
        );
    }
}

#[test]
fn angles_and_values_are_shown_as_they_are_held() {
    assert_eq!(angle_readout(Some(350)), "0.3\u{b0}");
    for n in -30_000..30_000_i64 {
        let v = single(n);
        assert_eq!(angle_readout(Some(n as i32)), format!("{v:.1}\u{b0}"));
        assert_eq!(value_line("REF", n, "dBZ"), format!("REF: {v:.1} dBZ"));
    }
    for k in 0..5_000_i64 {
        let n = k * 7_777_777;
        assert_eq!(value_line("CC", n, ""), format!("CC: {:.3}", single(n)));
    }
}

#[test]
fn cuts_are_matched_as_their_angles_are_held() {
    let cut = |angle: i32| DefinedCut {
        angle,
        waveform: "B".to_string(),
        prf: "Low".to_string(),
    };
    for a in (0..20_000).step_by(50) {
        for off in [-101, -100, -99, 0, 99, 100, 101] {
            let b = a + off;
            let scan = Scan {
                vcp: 215,
                sweeps: vec![ScanSweep {
                    start_ms: 0,
                    end_ms: 1,
                    elevation_number: 1,
                    angle: b,
                }],
            };
            let rows = build_elevation_rows(Some(&scan), None, Some(&vec![cut(a)]), None, None);
            let near = (single(i64::from(a)) - single(i64::from(b))).abs() < 0.1;
            assert_eq!(rows[0].waveform == "B", near, "{a} {b}");
        }
    }
}

#[test]
fn the_legend_is_stepped_as_its_values_are_held() {
    let ends: Vec<i64> = (-25..25).map(|k| k * 100).chain([208, 1_050, 33, -777]).collect();
    for min in &ends {
        for max in &ends {
            let (low, high) = (single(*min), single(*max));
            let range = high - low;
            let step: f32 = if range > 200.0 {
                60.0
            } else if range > 60.0 {
                10.0
            } else if range > 10.0 {
                5.0
            } else if range > 2.0 {
                1.0
            } else {
                0.2
            };
            let mut expected = Vec::new();
            let mut v = (low / step).ceil() * step;
            while v <= high {
                expected.push(if step < 1.0 {
                    format!("{v:.1}")
                } else {
                    format!("{v:.0}")
                });
                v += step;
            }
            let spacing = tick_step(*min, *max);
            let found: Vec<String> =
                ticks(*min, *max).into_iter().map(|t| tick_label(t, spacing)).collect();
            assert_eq!(found, expected, "{min} {max}");
        }
    }
}

#[test]
fn the_storage_is_shown_as_it_is_held() {
    assert_eq!(storage_usage(575, 1_000).percent, 57);
    for quota in [3_u64, 7, 200, 1_000, 4_000, 2 << 30, (1 << 60) + 1] {
        for k in 0..1_000_u64 {
            let used = quota / 997 * k + k % 3;
            let pct = (used as f64 / quota as f64 * 100.0).min(100.0);
            let shown = storage_usage(used, quota);
            assert_eq!(shown.percent.to_string(), format!("{pct:.0}"), "{used} {quota}");
            assert_eq!(shown.color.g == 80, pct > 90.0);
        }
    }
}

#[test]
fn short_lengths_are_shown_as_they_are_held() {
    for v in 0..100_000_u64 {
        let x = v as f64 / 1.0e6;
        assert_eq!(format_km(v), format!("{:.0} m", x * 1000.0));
        assert_eq!(format_mi(v), format!("{:.0} ft", x * 5280.0));
    }
    for v in (100_000..1_000_000_u64).step_by(50) {
        let x = v as f64 / 1.0e6;
        assert_eq!(format_km(v), format!("{x:.1} km"));
    }
}
