use nexrad_workbench::canvas_interaction::{
    dispatch_click, drawn_sites, globe_double_click, globe_drag, map_motion, pick_other_site,
    pick_site_at, ClickAction, ClickContext, GlobeDoubleClick, GlobeDrag, MapInput, SiteMarker,
};
use nexrad_workbench::geo::{nearest_hit, GeoBounds, GeoPoint, Marker, ScreenPos};

fn at(x: i64, y: i64) -> ScreenPos {
    ScreenPos {
        x: x * 1000,
        y: y * 1000,
    }
}

fn sites() -> Vec<SiteMarker> {
    vec![
        SiteMarker {
            id: "KABR".to_string(),
            at: GeoPoint {
                lat: 45_455_830,
                lon: -98_413_060,
            },
            pos: at(400, 300),
        },
        SiteMarker {
            id: "KFSD".to_string(),
            at: GeoPoint {
                lat: 43_587_780,
                lon: -96_729_440,
            },
            pos: at(450, 362),
        },
    ]
}

fn view() -> GeoBounds {
    GeoBounds {
        min_lon: -105_000_000,
        min_lat: 40_000_000,
        max_lon: -90_000_000,
        max_lat: 50_000_000,
    }
}

#[test]
fn site_click_at_center_hits_centered_site() {
    assert_eq!(pick_site_at(at(400, 300), view(), &sites(), "KDMX"), Some(0));
}

#[test]
fn site_click_within_radius_still_hits() {
    assert_eq!(pick_site_at(at(407, 300), view(), &sites(), "KDMX"), Some(0));
    assert_eq!(pick_site_at(at(410, 300), view(), &sites(), "KDMX"), Some(0));
}

#[test]
fn site_click_just_outside_radius_misses() {
    assert_eq!(pick_site_at(at(411, 300), view(), &sites(), "KDMX"), None);
}

#[test]
fn site_click_far_corner_misses() {
    assert_eq!(pick_site_at(at(5, 5), view(), &sites(), "KDMX"), None);
}

#[test]
fn active_site_is_excluded_from_hit() {
    assert_eq!(pick_site_at(at(400, 300), view(), &sites(), "KABR"), None);
    assert_eq!(
        pick_other_site(at(400, 300), view(), &sites(), &"KABR".to_string()),
        None
    );
}

#[test]
fn active_site_match_is_case_insensitive() {
    assert_eq!(pick_site_at(at(400, 300), view(), &sites(), "kabr"), None);
    assert_eq!(
        pick_other_site(at(400, 300), view(), &sites(), &"kabr".to_string()),
        Some(0)
    );
    assert_eq!(drawn_sites(&sites(), true, Some(view()), "kabr"), vec![1]);
}

#[test]
fn sites_far_from_the_view_are_not_drawn() {
    let far = GeoBounds {
        min_lon: 0,
        min_lat: 0,
        max_lon: 10_000_000,
        max_lat: 10_000_000,
    };
    assert_eq!(drawn_sites(&sites(), true, Some(far), "KDMX"), Vec::<usize>::new());
    assert_eq!(drawn_sites(&sites(), true, None, "KDMX"), vec![0, 1]);
    assert_eq!(drawn_sites(&sites(), false, None, "KDMX"), Vec::<usize>::new());
}

#[test]
fn the_nearest_of_equals_is_the_first() {
    let markers = vec![
        Marker {
            eligible: false,
            pos: at(0, 0),
        },
        Marker {
            eligible: true,
            pos: at(3, 0),
        },
        Marker {
            eligible: true,
            pos: at(0, 3),
        },
    ];
    assert_eq!(nearest_hit(&markers, at(0, 0), 10_000), Some(1));
}

#[test]
fn clicks_go_to_the_topmost_overlay() {
    let all = ClickContext {
        distance_tool_active: false,
        site: Some(1),
        mping_shown: true,
        report: Some(2),
        warnings_shown: true,
        other_alerts_shown: false,
        data_is_live: true,
        alert: Some(3),
    };
    assert_eq!(dispatch_click(all), ClickAction::SelectSite(1));
    let no_site = ClickContext { site: None, ..all };
    assert_eq!(dispatch_click(no_site), ClickAction::SelectMpingReport(2));
    let hidden = ClickContext {
        mping_shown: false,
        ..no_site
    };
    assert_eq!(dispatch_click(hidden), ClickAction::SelectAlert(3));
    let stale = ClickContext {
        data_is_live: false,
        ..hidden
    };
    assert_eq!(dispatch_click(stale), ClickAction::ClearMpingSelection);
    let ruler = ClickContext {
        distance_tool_active: true,
        ..all
    };
    assert_eq!(dispatch_click(ruler), ClickAction::PlaceDistancePoint);
}

#[test]
fn the_globe_follows_the_hand() {
    assert_eq!(globe_drag(true, false, false, true), GlobeDrag::TiltHeading);
    assert_eq!(globe_drag(false, false, true, false), GlobeDrag::TiltHeading);
    assert_eq!(globe_drag(false, false, false, true), GlobeDrag::Grab);
    assert_eq!(globe_drag(false, false, false, false), GlobeDrag::Pan);
    let p = GeoPoint { lat: 1, lon: 2 };
    assert_eq!(globe_double_click(Some(p)), GlobeDoubleClick::MovePivot(p));
    assert_eq!(globe_double_click(None), GlobeDoubleClick::FocusSite);
}

#[test]
fn a_pinch_is_not_applied_twice() {
    let input = MapInput {
        pinch_on_map: true,
        pinch_zooms: true,
        dragged: true,
        hovered: true,
        scrolled: true,
        double_clicked: false,
    };
    let m = map_motion(input);
    assert!(m.pinch_zoom && m.pinch_pan && !m.drag_pan && !m.scroll_zoom);
    let single = map_motion(MapInput {
        pinch_on_map: false,
        ..input
    });
    assert!(!single.pinch_zoom && single.drag_pan && single.scroll_zoom && !single.reset);
}
