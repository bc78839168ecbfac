use nexrad_workbench::alert_modal::{count_text, shorten_headline, AlertClick, AlertDialogs};
use nexrad_workbench::alerts::{
    paint, paint_order, ring_segments, visible_triangles, AlertMark, AlertRenderPhase, Triangle,
};
use nexrad_workbench::alerts_modal::{
    detail_badges, detail_sections, format_absolute_utc, format_relative, in_view_text, row_notes,
    sender_row, timing_meta, Alert, AlertsModal, AlertsState, DetailSection, DetailView, TimingLabel,
};
use nexrad_workbench::geo::{GeoBounds, GeoPoint, ScreenPos};
use nexrad_workbench::modal_geometry::{
    alert_row_rect, bounded_margins, modal_geometry_for_viewport, settings_size, Insets,
};
use nexrad_workbench::mping::ScreenRect;

fn mark(is_warning: bool, severity_rank: u8) -> AlertMark {
    AlertMark {
        is_warning,
        severity_rank,
        color: (200, 100, 50),
        in_view: true,
    }
}

fn alert(id: &str) -> Alert {
    Alert {
        id: id.to_string(),
        event: "Tornado Warning".to_string(),
        effective_secs: Some(1),
        onset_secs: None,
        expires_secs: Some(3),
        ends_secs: Some(4),
        urgency: "Immediate".to_string(),
        certainty: String::new(),
        headline: String::new(),
        area_desc: "Polk".to_string(),
        description: String::new(),
        instruction: "Take cover".to_string(),
        sender: "NWS Norman OK".to_string(),
    }
}

#[test]
fn only_filled_parts_of_an_alert_are_shown() {
    let mut a = alert("a");
    assert_eq!(detail_badges(&a), vec!["Urgency: Immediate"]);
    assert_eq!(
        detail_sections(&a),
        vec![DetailSection::Area, DetailSection::Instructions]
    );
    assert_eq!(DetailSection::Instructions.text(&a), "Take cover");
    a.certainty = "Observed".to_string();
    a.urgency = String::new();
    a.headline = "Tornado".to_string();
    a.area_desc = String::new();
    assert_eq!(detail_badges(&a), vec!["Certainty: Observed"]);
    assert_eq!(
        detail_sections(&a),
        vec![DetailSection::Headline, DetailSection::Instructions]
    );
}

#[test]
fn alert_rows_say_where_and_until_when() {
    assert_eq!(
        row_notes("Polk", 0, Some(90_000)),
        vec!["Polk", "Expires in 1m"]
    );
    assert_eq!(row_notes("", 5, Some(4)), vec!["Expires in the past"]);
    assert_eq!(row_notes("", 5, None), Vec::<String>::new());
}

#[test]
fn warnings_are_painted_last() {
    let all = vec![mark(true, 3), mark(false, 1), mark(true, 1)];
    let order = paint_order(&all, true, true);
    assert_eq!(order.len(), 3);
    assert_eq!(order[0], 1);
    assert_eq!(paint_order(&all, false, true), vec![1]);
    assert_eq!(paint_order(&all, false, false), Vec::<usize>::new());
}

#[test]
fn warnings_are_filled_below_the_radar_and_outlined_above() {
    let under = paint(mark(true, 1), AlertRenderPhase::UnderRadar);
    assert!(under.fill.is_some() && under.outline.is_none());
    let over = paint(mark(true, 1), AlertRenderPhase::OverRadar);
    assert!(over.fill.is_none());
    assert_eq!(over.outline.unwrap().width_tenths, 25);
    let watch = paint(mark(false, 1), AlertRenderPhase::OverRadar);
    assert!(watch.fill.is_some());
    assert_eq!(watch.outline.unwrap().width_tenths, 20);
}

#[test]
fn short_segments_of_a_ring_are_left_out() {
    let far = ScreenPos {
        x: 100_000,
        y: 0,
    };
    let near = ScreenPos { x: 100_001, y: 0 };
    let origin = ScreenPos { x: 0, y: 0 };
    assert_eq!(ring_segments(&vec![origin, far, near]), vec![0, 2]);
    assert_eq!(ring_segments(&vec![origin]), Vec::<usize>::new());
}

#[test]
fn triangles_off_the_view_are_left_out() {
    let p = |lat: i64, lon: i64| GeoPoint { lat, lon };
    let view = GeoBounds {
        min_lon: 0,
        min_lat: 0,
        max_lon: 10,
        max_lat: 10,
    };
    let inside = Triangle {
        a: p(1, 1),
        b: p(2, 2),
        c: p(3, 1),
    };
    let outside = Triangle {
        a: p(20, 20),
        b: p(21, 21),
        c: p(22, 20),
    };
    assert_eq!(visible_triangles(&vec![outside, inside], view), vec![1]);
}

#[test]
fn alerts_are_counted() {
    assert_eq!(in_view_text(1), "1 alert in view");
    assert_eq!(in_view_text(2), "2 alerts in view");
    assert_eq!(count_text(0), "No active alerts for this area.");
    assert_eq!(count_text(1), "1 active alert");
    assert_eq!(count_text(5), "5 active alerts");
}

#[test]
fn alert_times_are_relative_to_now() {
    assert_eq!(format_relative(0, -1), "in the past");
    assert_eq!(format_relative(0, 59_000), "in 59s");
    assert_eq!(format_relative(0, 120_000), "in 2m");
    assert_eq!(format_relative(0, 3_660_000), "in 1h1m");
    assert_eq!(format_relative(0, 172_800_000), "in 2d");
    assert_eq!(format_absolute_utc(1_700_000_000), "2023-11-14 22:13 UTC");
}

#[test]
fn timing_is_split_where_there_is_room() {
    let a = alert("x");
    let wide = timing_meta(&a, true);
    assert_eq!(wide.first.len(), 1);
    assert_eq!(wide.second.len(), 2);
    let narrow = timing_meta(&a, false);
    assert_eq!(narrow.first.len(), 3);
    assert!(matches!(narrow.first[0], (TimingLabel::Effective, 1)));
}

#[test]
fn the_sender_is_shown_where_it_is_known() {
    let mut a = alert("x");
    assert_eq!(timing_meta(&a, true).sender.as_deref(), Some("NWS Norman OK"));
    a.sender = String::new();
    assert_eq!(timing_meta(&a, false).sender, None);
    assert_eq!(sender_row(""), None);
    assert_eq!(sender_row("x"), Some("x".to_string()));
}

#[test]
fn the_settings_leave_room_around_them() {
    assert_eq!(settings_size(390_000, 844_000), (374_000, 658_320));
    assert_eq!(settings_size(200_000, 420_000), (240_000, 360_000));
    assert_eq!(settings_size(1_000_000, 400_000), (984_000, 360_000));
}

#[test]
fn a_chosen_alert_is_shown_in_detail() {
    let mut s = AlertsState {
        alerts: vec![alert("a"), alert("b")],
        list_modal_open: true,
        selected_alert_id: None,
    };
    assert_eq!(s.modal(), AlertsModal::List);
    s.selected_alert_id = Some("b".to_string());
    assert_eq!(s.modal(), AlertsModal::Detail);
    assert_eq!(s.detail(), DetailView::Show(1));
    s.selected_alert_id = Some("gone".to_string());
    assert_eq!(s.detail(), DetailView::ClearSelection);
    let mut d = AlertDialogs {
        list_open: true,
        detail_open: false,
        selected: None,
    };
    d.click(AlertClick::Entry(1));
    assert!(!d.list_open && d.detail_open);
    assert_eq!(d.detail(2), Some(1));
    d.click(AlertClick::BackToList);
    assert!(d.list_open && !d.detail_open);
}

#[test]
fn long_headlines_are_cut() {
    assert_eq!(shorten_headline("short"), "short");
    let cut = shorten_headline(&"h".repeat(81));
    assert_eq!(cut.len(), 80);
    assert!(cut.ends_with("..."));
    assert_eq!(shorten_headline(&"h".repeat(80)).len(), 80);
}

const NONE: Insets = Insets {
    top: 0,
    right: 0,
    bottom: 0,
    left: 0,
};

fn screen(width: i64, height: i64) -> ScreenRect {
    ScreenRect {
        left: 0,
        top: 0,
        right: width * 1000,
        bottom: height * 1000,
    }
}

#[test]
fn desktop_modal_keeps_desired_content_size() {
    let g = modal_geometry_for_viewport(screen(1440, 900), NONE, 560_000, 600_000);
    assert_eq!((g.width, g.height), (560_000, 600_000));
}

#[test]
fn phone_modal_fits_inside_gutter_and_window_chrome() {
    let g = modal_geometry_for_viewport(screen(390, 844), NONE, 560_000, 600_000);
    assert_eq!(
        g.bounds,
        ScreenRect {
            left: 8_000,
            top: 8_000,
            right: 382_000,
            bottom: 836_000
        }
    );
    assert!(g.width + 16_000 <= g.bounds.right - g.bounds.left);
    assert!(g.height + 40_000 <= g.bounds.bottom - g.bounds.top);
}

#[test]
fn landscape_modal_caps_height() {
    let g = modal_geometry_for_viewport(screen(844, 390), NONE, 560_000, 600_000);
    assert_eq!(g.height, g.bounds.bottom - g.bounds.top - 40_000);
}

#[test]
fn safe_area_insets_reduce_modal_bounds() {
    let insets = Insets {
        top: 47_000,
        right: 0,
        bottom: 34_000,
        left: 0,
    };
    let g = modal_geometry_for_viewport(screen(390, 844), insets, 560_000, 600_000);
    assert_eq!(g.bounds.top, 55_000);
    assert_eq!(g.bounds.bottom, 802_000);
}

#[test]
fn tiny_viewport_never_produces_negative_geometry() {
    let insets = Insets {
        top: 20_000,
        right: 20_000,
        bottom: 20_000,
        left: 20_000,
    };
    let g = modal_geometry_for_viewport(screen(10, 10), insets, 560_000, 600_000);
    assert!(g.bounds.right >= g.bounds.left && g.bounds.bottom >= g.bounds.top);
    assert!(g.width >= 0 && g.height >= 0);
    assert_eq!(bounded_margins(10_000, 28_000, 28_000), (5_000, 5_000));
}

#[test]
fn virtual_alert_card_borders_do_not_overlap() {
    let first = alert_row_rect(screen(500, 500), 0, 0);
    let second = alert_row_rect(screen(500, 500), 1, 0);
    assert!(first.bottom - 2_000 < second.top + 2_000);
    assert_eq!(second.top, 68_000);
}
