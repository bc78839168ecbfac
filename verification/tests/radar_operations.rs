use nexrad_workbench::radar_operations::{
    angle_readout, azimuth_at, build_elevation_rows, is_fast, last_ended, prf_hover,
    prf_number_to_short, query_radar_state_at_timestamp, vcp_header, waveform_hover,
    waveform_to_products, CutProduct, CutTiming, DefinedCut, ExtractedCut, LiveCut, LiveFrame,
    LiveVolume, Scan, ScanSweep, VolumeTiming,
};

fn sweep(start_ms: i64, end_ms: i64, elevation_number: u8, angle: i32) -> ScanSweep {
    ScanSweep {
        start_ms,
        end_ms,
        elevation_number,
        angle,
    }
}

fn scan() -> Scan {
    // The lowest cut is visited again, and stands second.
    Scan {
        vcp: 212,
        sweeps: vec![
            sweep(0, 10_000, 1, 500),
            sweep(40_000, 50_000, 1, 500),
            sweep(20_000, 30_000, 2, 900),
        ],
    }
}

const NO_FRAME: LiveFrame = LiveFrame {
    azimuth: None,
    cut_index: None,
    elevation: None,
    progress: None,
};

#[test]
fn the_sweep_that_ended_last_is_shown_in_a_gap() {
    let s = scan();
    assert_eq!(last_ended(&s.sweeps, 60_000), Some(1));
    assert_eq!(last_ended(&s.sweeps, 35_000), Some(2));
    assert_eq!(last_ended(&s.sweeps, 9_999), None);
    let tied = vec![sweep(0, 5, 1, 0), sweep(1, 5, 2, 0)];
    assert_eq!(last_ended(&tied, 5), Some(1));
}

#[test]
fn a_recorded_scan_tells_what_the_radar_did() {
    let s = scan();
    let r = query_radar_state_at_timestamp(Some(&s), Some(2), Some(500), 22_500, false, None, NO_FRAME);
    assert_eq!(r.azimuth, Some(90_000));
    assert_eq!(r.elevation, Some(900));
    assert_eq!(r.elevation_number, Some(2));
    assert_eq!(r.vcp, Some(212));
    assert_eq!(r.progress, Some(500));
    let gap = query_radar_state_at_timestamp(Some(&s), None, None, 35_000, false, None, NO_FRAME);
    assert_eq!(gap.azimuth, None);
    assert_eq!(gap.elevation_number, Some(2));
    let fast = query_radar_state_at_timestamp(Some(&s), Some(2), Some(1), 22_500, true, None, NO_FRAME);
    assert_eq!(fast.vcp, Some(212));
    assert_eq!((fast.azimuth, fast.elevation, fast.progress), (None, None, None));
    assert!(is_fast(true, 30_001) && !is_fast(true, 30_000) && !is_fast(false, 60_000));
    assert_eq!(azimuth_at(sweep(5, 5, 1, 0), 5), None);
}

#[test]
fn a_live_volume_tells_what_the_radar_does() {
    let mut v = LiveVolume {
        vcp_number: 0,
        in_progress: Some(2),
        cuts: vec![
            LiveCut {
                elevation_number: 1,
                angle: 500,
            },
            LiveCut {
                elevation_number: 2,
                angle: 900,
            },
        ],
    };
    let r = query_radar_state_at_timestamp(None, None, None, 0, false, Some(&v), NO_FRAME);
    assert_eq!(r.vcp, None);
    assert_eq!(r.elevation, Some(900));
    assert_eq!(r.elevation_number, Some(2));
    v.vcp_number = 35;
    v.in_progress = Some(9);
    let r = query_radar_state_at_timestamp(
        None,
        None,
        None,
        0,
        false,
        Some(&v),
        LiveFrame {
            azimuth: Some(1),
            progress: Some(2),
            ..NO_FRAME
        },
    );
    assert_eq!(r.vcp, Some(35));
    assert_eq!(r.elevation, None);
    assert_eq!(r.elevation_number, Some(9));
    assert_eq!((r.azimuth, r.progress), (Some(1), Some(2)));
    let nothing = query_radar_state_at_timestamp(None, None, None, 0, false, None, NO_FRAME);
    assert_eq!(nothing.vcp, None);
}

fn timing() -> VolumeTiming {
    VolumeTiming {
        volume_start_ms: 1_000,
        cuts: vec![
            CutTiming {
                start_ms: 1_000,
                observed: true,
            },
            CutTiming {
                start_ms: 66_500,
                observed: false,
            },
        ],
    }
}

fn defined() -> Vec<DefinedCut> {
    vec![
        DefinedCut {
            angle: 500,
            waveform: "CS".to_string(),
            prf: "Low".to_string(),
        },
        DefinedCut {
            angle: 900,
            waveform: "CD".to_string(),
            prf: "High".to_string(),
        },
    ]
}

#[test]
fn announced_cuts_go_first() {
    let extracted = vec![
        ExtractedCut {
            angle: 483,
            waveform: "CDWO".to_string(),
            prf_number: 5,
        },
        ExtractedCut {
            angle: -200,
            waveform: "???".to_string(),
            prf_number: 9,
        },
    ];
    let t = timing();
    let rows = build_elevation_rows(Some(&scan()), Some(&extracted), Some(&defined()), Some(&t), Some(2));
    assert_eq!(rows.len(), 2);
    assert_eq!(rows[0].elevation_cell(), "1   0.5\u{b0}");
    assert_eq!(rows[1].elevation_cell(), "2  -0.2\u{b0}");
    assert_eq!((rows[0].waveform.as_str(), rows[0].prf), ("CD", "M"));
    assert_eq!((rows[1].waveform.as_str(), rows[1].prf), ("--", "-"));
    assert!(!rows[0].is_current && rows[1].is_current);
    assert_eq!(rows[0].time_cell(), "0:00");
    assert_eq!(rows[1].time_cell(), "~1:06");
    assert_eq!(rows[1].time_hover(), "Estimated from VCP azimuth rates");
    assert_ne!(rows[0].colors(), rows[1].colors());
}

#[test]
fn recorded_sweeps_take_the_defined_waveform() {
    let rows = build_elevation_rows(Some(&scan()), None, Some(&defined()), None, Some(1));
    assert_eq!(rows.len(), 3);
    assert_eq!(rows[2].waveform, "CD");
    assert_eq!(rows[2].waveform_raw, "CDW");
    assert_eq!(rows[2].prf, "H");
    assert_eq!(rows[2].time_cell(), "--:--");
    assert!(rows[0].is_current && rows[1].is_current && !rows[2].is_current);
    let bare = build_elevation_rows(Some(&scan()), None, None, None, None);
    assert_eq!((bare[0].waveform.as_str(), bare[0].prf), ("--", "-"));
}

#[test]
fn a_defined_pattern_stands_in() {
    let rows = build_elevation_rows(None, None, Some(&defined()), None, None);
    assert_eq!(rows.len(), 2);
    assert_eq!(rows[1].elevation_number, 2);
    assert_eq!(rows[1].waveform_raw, "CDW");
    assert!(build_elevation_rows(None, None, None, None, None).is_empty());
}

#[test]
fn waveforms_yield_products() {
    assert_eq!(waveform_to_products("CS"), vec![CutProduct::Reflectivity]);
    assert_eq!(waveform_to_products("CDW").len(), 6);
    assert_eq!(waveform_to_products("CDWO").len(), 3);
    assert_eq!(waveform_to_products("B").len(), 3);
    assert_eq!(waveform_to_products("SPP").len(), 2);
    assert!(waveform_to_products("CD").is_empty());
    assert_eq!(CutProduct::DifferentialReflectivity.letter(), "Z");
    assert_eq!(CutProduct::CorrelationCoefficient.name(), "Correlation Coefficient");
    assert_eq!(CutProduct::Velocity.color().r, 200);
}

#[test]
fn short_names_are_explained() {
    assert_eq!(waveform_hover("SP"), Some("Staggered Pulse Pair"));
    assert_eq!(waveform_hover("--"), None);
    assert_eq!(prf_hover("M"), Some("Medium PRF"));
    for (n, s) in [(0, "-"), (1, "L"), (3, "L"), (4, "M"), (5, "M"), (6, "H"), (8, "H"), (9, "-")] {
        assert_eq!(prf_number_to_short(n), s);
    }
    assert_eq!(angle_readout(Some(1_250)), "1.2\u{b0}");
    assert_eq!(angle_readout(None), "--");
    assert_eq!(vcp_header(212), "VCP 212");
}
