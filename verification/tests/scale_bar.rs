use nexrad_workbench::scale_bar::{format_km, format_mi, nice_round, scale_bars};

/// Lengths are handed over in millionths.
fn round(target: f64) -> f64 {
    nice_round((target * 1_000_000.0).round() as i64) as f64 / 1_000_000.0
}

#[test]
fn nice_round_snaps_down() {
    assert_eq!(round(120.0), 100.0);
    assert_eq!(round(80.0), 50.0);
    assert_eq!(round(30.0), 20.0);
    assert_eq!(round(15.0), 10.0);
    assert_eq!(round(7.0), 5.0);
    assert_eq!(round(3.0), 2.0);
    assert_eq!(round(1.5), 1.0);
    assert_eq!(round(0.7), 0.5);
}

#[test]
fn nice_round_handles_edges() {
    assert_eq!(round(0.0), 0.0);
    assert_eq!(round(-1.0), 0.0);
    assert_eq!(round(f64::NAN), 0.0);
}

#[test]
fn nice_round_large_magnitude() {
    assert_eq!(round(1234.0), 1000.0);
    assert_eq!(round(5500.0), 5000.0);
    assert_eq!(round(2999.0), 2000.0);
}

#[test]
fn nice_round_exact_boundaries_snap_to_self() {
    for v in [5.0, 2.0, 1.0, 100.0] {
        assert_eq!(round(v), v);
    }
}

#[test]
fn nice_round_just_below_boundary_steps_down() {
    assert_eq!(round(4.9), 2.0);
    assert_eq!(round(1.9), 1.0);
}

#[test]
fn nice_round_never_exceeds_target() {
    for t in [3.7, 19.0, 88.0, 0.34, 640.0] {
        let n = round(t);
        assert!(n <= t && n > 0.0);
    }
    assert_eq!(nice_round(i64::MAX), 5_000_000_000_000_000_000);
}

#[test]
fn format_km_whole_km() {
    assert_eq!(format_km(100_000_000), "100 km");
    assert_eq!(format_km(5_000_000), "5 km");
    assert_eq!(format_km(1_000_000), "1 km");
}

#[test]
fn format_km_sub_km_decimal() {
    assert_eq!(format_km(500_000), "0.5 km");
    assert_eq!(format_km(200_000), "0.2 km");
}

#[test]
fn format_km_meters() {
    assert_eq!(format_km(50_000), "50 m");
    assert_eq!(format_km(20_000), "20 m");
}

#[test]
fn format_mi_whole_miles() {
    assert_eq!(format_mi(50_000_000), "50 mi");
    assert_eq!(format_mi(2_000_000), "2 mi");
    assert_eq!(format_mi(1_000_000), "1 mi");
}

#[test]
fn format_mi_sub_mile_decimal() {
    assert_eq!(format_mi(500_000), "0.5 mi");
    assert_eq!(format_mi(200_000), "0.2 mi");
}

#[test]
fn format_mi_feet() {
    assert_eq!(format_mi(50_000), "264 ft");
    assert_eq!(format_mi(10_000), "53 ft");
}

#[test]
fn bars_fit_the_target_width() {
    // One kilometre per pixel: 120 km and 74.56 mi of room.
    let b = scale_bars(1_000_000);
    assert_eq!(b.km, 100_000_000);
    assert_eq!(b.km_width, 100_000);
    assert_eq!(b.mi, 50_000_000);
    assert_eq!(b.mi_width, 80_467);
    assert!(scale_bars(1).km_width <= 120_000);
}
